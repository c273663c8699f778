//! The token record that the ledger hands out, and the approvals that go with it.

use vstd::prelude::*;
use crate::metadata::{copy_metadata, metadata_view, TokenMetadata, TokenMetadataView};
use crate::string_map::StringMap;

verus! {

/// The accounts approved to transfer one token, each with the approval id it holds.
pub type Approvals = StringMap<u64>;

/// The approvals of an optional approval map; none where there is no map.
pub open spec fn approvals_view(a: Option<Approvals>) -> Map<Seq<char>, u64> {
    match a {
        Some(m) => m@,
        None => Map::empty(),
    }
}

/// One token as callers see it: a copy of what the ledger holds.
#[derive(Debug)]
pub struct Token {
    pub token_id: String,
    pub owner_id: String,
    pub metadata: Option<TokenMetadata>,
    pub approved_account_ids: Option<Approvals>,
}

/// The mathematical content of a [`Token`].
pub struct TokenView {
    pub token_id: Seq<char>,
    pub owner_id: Seq<char>,
    pub metadata: Option<TokenMetadataView>,
    pub approved_account_ids: Option<Map<Seq<char>, u64>>,
}

impl View for Token {
    type V = TokenView;

    open spec fn view(&self) -> TokenView {
        TokenView {
            token_id: self.token_id@,
            owner_id: self.owner_id@,
            metadata: metadata_view(self.metadata),
            approved_account_ids: match self.approved_account_ids {
                Some(m) => Some(m@),
                None => None,
            },
        }
    }
}

impl Token {
    /// The approval map, where there is one, binds no account twice.
    pub open spec fn wf(&self) -> bool {
        self.approved_account_ids matches Some(m) ==> m.wf()
    }
}

impl Clone for Token {
    fn clone(&self) -> (r: Self)
        ensures
            r@ == self@,
            self.wf() ==> r.wf(),
    {
        Token {
            token_id: self.token_id.clone(),
            owner_id: self.owner_id.clone(),
            metadata: copy_metadata(&self.metadata),
            approved_account_ids: match &self.approved_account_ids {
                Some(m) => Some(m.clone()),
                None => None,
            },
        }
    }
}

} // verus!
