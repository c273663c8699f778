//! The token ledger: which tokens exist, who owns each, and who is approved for it.

use vstd::prelude::*;
use crate::approval::ApprovalRegistry;
use crate::error::ContractError;
use crate::metadata::{copy_metadata, metadata_view, TokenMetadata};
use crate::model::{
    approved, holds_approval, lookup_refusal, mint_after, mint_refusal, revoked, stored_token,
    token_of, with_approvals, with_owner, LedgerState, TokenState,
};
use crate::string_map::{key_views, StringMap};
use crate::token::{Approvals, Token};

verus! {

/// What the ledger stores under a token id.
struct TokenRecord {
    owner_id: String,
    metadata: Option<TokenMetadata>,
    registry: ApprovalRegistry,
}

impl TokenRecord {
    spec fn state(self) -> TokenState {
        TokenState {
            owner_id: self.owner_id@,
            metadata: metadata_view(self.metadata),
            approvals: self.registry.approvals(),
            next_approval_id: self.registry.next_approval_id(),
        }
    }
}

/// The state of every stored record.
spec fn states(records: Map<Seq<char>, TokenRecord>) -> LedgerState {
    Map::new(|id: Seq<char>| records.contains_key(id), |id: Seq<char>| records[id].state())
}

proof fn lemma_states_insert(records: Map<Seq<char>, TokenRecord>, id: Seq<char>, r: TokenRecord)
    ensures
        states(records.insert(id, r)) == states(records).insert(id, r.state()),
{
    assert(states(records.insert(id, r)) =~= states(records).insert(id, r.state()));
}

proof fn lemma_states_remove(records: Map<Seq<char>, TokenRecord>, id: Seq<char>)
    ensures
        states(records.remove(id)) == states(records).remove(id),
{
    assert(states(records.remove(id)) =~= states(records).remove(id));
}

/// The tokens that exist, each under its id with its owner, its metadata and
/// its approval registry.
pub struct Ledger {
    records: StringMap<TokenRecord>,
}

impl View for Ledger {
    type V = LedgerState;

    closed spec fn view(&self) -> LedgerState {
        states(self.records@)
    }
}

impl Ledger {
    /// No token id is stored twice, and every token's approval registry is in order.
    pub closed spec fn wf(&self) -> bool {
        &&& self.records.wf()
        &&& forall|id: Seq<char>| #[trigger]
            self.records@.contains_key(id) ==> self.records@[id].registry.wf()
    }

    /// A well-formed ledger holds finitely many tokens.
    pub proof fn lemma_finite(&self)
        requires
            self.wf(),
        ensures
            self@.dom().finite(),
    {
        self.records.lemma_key_order();
        assert(self@.dom() =~= self.records@.dom());
    }

    /// A ledger without tokens.
    pub fn new() -> (l: Self)
        ensures
            l.wf(),
            l@ == Map::<Seq<char>, TokenState>::empty(),
    {
        let l = Ledger { records: StringMap::new() };
        assert(l@ =~= Map::<Seq<char>, TokenState>::empty());
        l
    }

    /// The number of tokens that the ledger holds.
    pub fn len(&self) -> (n: usize)
        requires
            self.wf(),
        ensures
            n == self@.dom().len(),
    {
        proof {
            assert(self@.dom() =~= self.records@.dom());
        }
        self.records.len()
    }

    /// Whether a token with this id exists.
    pub fn contains(&self, token_id: &String) -> (r: bool)
        requires
            self.wf(),
        ensures
            r == self@.contains_key(token_id@),
    {
        self.records.contains_key(token_id)
    }

    /// The owner of the token, if it exists.
    pub fn owner_of(&self, token_id: &String) -> (r: Option<&String>)
        requires
            self.wf(),
        ensures
            match r {
                Some(owner) => self@.contains_key(token_id@) && owner@ == self@[token_id@].owner_id,
                None => !self@.contains_key(token_id@),
            },
    {
        match self.records.get(token_id) {
            Some(record) => Some(&record.owner_id),
            None => None,
        }
    }

    /// The approval id that `account_id` holds for the token, if the token
    /// exists and the account is approved for it.
    pub fn approval_of(&self, token_id: &String, account_id: &String) -> (r: Option<u64>)
        requires
            self.wf(),
        ensures
            r == if self@.contains_key(token_id@) && self@[token_id@].approvals.contains_key(
                account_id@,
            ) {
                Some(self@[token_id@].approvals[account_id@])
            } else {
                None
            },
    {
        match self.records.get(token_id) {
            Some(record) => record.registry.approval_of(account_id),
            None => None,
        }
    }

    /// A copy of the token's approvals, if the token exists.
    pub fn approvals_of(&self, token_id: &String) -> (r: Option<Approvals>)
        requires
            self.wf(),
        ensures
            match r {
                Some(a) => self@.contains_key(token_id@) && a@ == self@[token_id@].approvals
                    && a.wf(),
                None => !self@.contains_key(token_id@),
            },
    {
        match self.records.get(token_id) {
            Some(record) => Some(record.registry.snapshot()),
            None => None,
        }
    }

    /// The id that the next approval of the token will receive, if the token exists.
    pub fn next_approval_id(&self, token_id: &String) -> (r: Option<u64>)
        requires
            self.wf(),
        ensures
            r == if self@.contains_key(token_id@) {
                Some(self@[token_id@].next_approval_id)
            } else {
                None
            },
    {
        match self.records.get(token_id) {
            Some(record) => Some(record.registry.next_id()),
            None => None,
        }
    }

    /// A copy of the token's record, if the token exists.
    pub fn get(&self, token_id: &String) -> (r: Option<Token>)
        requires
            self.wf(),
        ensures
            match r {
                Some(token) => self@.contains_key(token_id@) && token@ == token_of(
                    self@,
                    token_id@,
                ) && token.wf(),
                None => !self@.contains_key(token_id@),
            },
    {
        match self.records.get(token_id) {
            Some(record) => Some(
                Token {
                    token_id: token_id.clone(),
                    owner_id: record.owner_id.clone(),
                    metadata: copy_metadata(&record.metadata),
                    approved_account_ids: Some(record.registry.snapshot()),
                },
            ),
            None => None,
        }
    }

    /// Creates the token `token_id`, owned by `owner_id` and without approvals,
    /// and returns a copy of its record. Refused with `AlreadyExists` where the
    /// id is taken.
    pub fn mint(
        &mut self,
        token_id: String,
        owner_id: String,
        metadata: Option<TokenMetadata>,
    ) -> (r: Result<Token, ContractError>)
        requires
            old(self).wf(),
        ensures
            final(self).wf(),
            final(self)@ == mint_after(old(self)@, token_id@, owner_id@, metadata_view(metadata)),
            match r {
                Ok(token) => {
                    &&& mint_refusal(old(self)@, token_id@) is None
                    &&& token@ == token_of(final(self)@, token_id@)
                    &&& token.wf()
                },
                Err(e) => mint_refusal(old(self)@, token_id@) == Some(e),
            },
    {
        if self.records.contains_key(&token_id) {
            return Err(ContractError::AlreadyExists);
        }
        let token = Token {
            token_id: token_id.clone(),
            owner_id: owner_id.clone(),
            metadata: copy_metadata(&metadata),
            approved_account_ids: Some(Approvals::new()),
        };
        let record = TokenRecord { owner_id, metadata, registry: ApprovalRegistry::new() };
        proof {
            lemma_states_insert(self.records@, token_id@, record);
        }
        self.records.insert(token_id, record);
        Ok(token)
    }

    /// The ids of the tokens that the ledger holds, each once.
    pub fn token_ids(&self) -> (ids: Vec<String>)
        requires
            self.wf(),
        ensures
            key_views(ids@).no_duplicates(),
            key_views(ids@).to_set() == self@.dom(),
    {
        proof {
            assert(self@.dom() =~= self.records@.dom());
        }
        self.records.keys()
    }

    /// Puts back a token that was stored away: `token` as [`Ledger::get`] gave
    /// it, and `next_approval_id` as [`Ledger::next_approval_id`] gave it.
    /// Refused with `AlreadyExists` where the id is taken.
    pub fn restore(&mut self, token: Token, next_approval_id: u64) -> (r: Result<
        (),
        ContractError,
    >)
        requires
            old(self).wf(),
            token.wf(),
        ensures
            final(self).wf(),
            match r {
                Ok(_) => mint_refusal(old(self)@, token.token_id@) is None && final(self)@ == old(
                    self,
                )@.insert(token.token_id@, stored_token(token@, next_approval_id)),
                Err(e) => mint_refusal(old(self)@, token.token_id@) == Some(e) && final(self)@
                    == old(self)@,
            },
    {
        if self.records.contains_key(&token.token_id) {
            return Err(ContractError::AlreadyExists);
        }
        let Token { token_id, owner_id, metadata, approved_account_ids } = token;
        let approvals = match approved_account_ids {
            Some(m) => m,
            None => Approvals::new(),
        };
        let registry = ApprovalRegistry::from_parts(approvals, next_approval_id);
        self.put(token_id, TokenRecord { owner_id, metadata, registry });
        Ok(())
    }

    /// Takes the record of `token_id` out of the ledger, if it is there.
    fn take(&mut self, token_id: &String) -> (r: Option<TokenRecord>)
        requires
            old(self).wf(),
        ensures
            final(self).wf(),
            final(self)@ == old(self)@.remove(token_id@),
            match r {
                Some(record) => {
                    &&& old(self)@.contains_key(token_id@)
                    &&& record.state() == old(self)@[token_id@]
                    &&& record.registry.wf()
                },
                None => !old(self)@.contains_key(token_id@) && final(self)@ == old(self)@,
            },
    {
        proof {
            lemma_states_remove(self.records@, token_id@);
            if !self@.contains_key(token_id@) {
                assert(self@.remove(token_id@) =~= self@);
            }
        }
        self.records.remove(token_id)
    }

    /// Stores `record` under `token_id`, in the place of what was there.
    fn put(&mut self, token_id: String, record: TokenRecord)
        requires
            old(self).wf(),
            record.registry.wf(),
        ensures
            final(self).wf(),
            final(self)@ == old(self)@.insert(token_id@, record.state()),
    {
        proof {
            lemma_states_insert(self.records@, token_id@, record);
        }
        self.records.insert(token_id, record);
    }

    /// Makes `new_owner` the owner of the token. The token's approvals are
    /// withdrawn. Refused with `NotFound` where the token does not exist.
    pub fn set_owner(&mut self, token_id: &String, new_owner: String) -> (r: Result<
        (),
        ContractError,
    >)
        requires
            old(self).wf(),
        ensures
            final(self).wf(),
            match r {
                Ok(_) => lookup_refusal(old(self)@, token_id@) is None && final(self)@
                    == with_owner(old(self)@, token_id@, new_owner@),
                Err(e) => lookup_refusal(old(self)@, token_id@) == Some(e) && final(self)@ == old(
                    self,
                )@,
            },
    {
        match self.take(token_id) {
            Some(record) => {
                let TokenRecord { owner_id: _, metadata, registry } = record;
                let mut registry = registry;
                registry.revoke_all();
                self.put(token_id.clone(), TokenRecord { owner_id: new_owner, metadata, registry });
                assert(self@ =~= with_owner(old(self)@, token_id@, new_owner@));
                Ok(())
            },
            None => Err(ContractError::NotFound),
        }
    }

    /// Deletes the token and returns the record that it had. Refused with
    /// `NotFound` where the token does not exist.
    pub fn remove(&mut self, token_id: &String) -> (r: Result<Token, ContractError>)
        requires
            old(self).wf(),
        ensures
            final(self).wf(),
            match r {
                Ok(token) => {
                    &&& lookup_refusal(old(self)@, token_id@) is None
                    &&& final(self)@ == old(self)@.remove(token_id@)
                    &&& token@ == token_of(old(self)@, token_id@)
                    &&& token.wf()
                },
                Err(e) => lookup_refusal(old(self)@, token_id@) == Some(e) && final(self)@ == old(
                    self,
                )@,
            },
    {
        match self.take(token_id) {
            Some(record) => {
                let approvals = record.registry.snapshot();
                Ok(
                    Token {
                        token_id: token_id.clone(),
                        owner_id: record.owner_id,
                        metadata: record.metadata,
                        approved_account_ids: Some(approvals),
                    },
                )
            },
            None => Err(ContractError::NotFound),
        }
    }

    /// Approves `account_id` for the token and returns the approval id that the
    /// account now holds: the token's next one. Refused with `NotFound` where
    /// the token does not exist.
    pub fn approve(&mut self, token_id: &String, account_id: String) -> (r: Result<
        u64,
        ContractError,
    >)
        requires
            old(self).wf(),
            old(self)@.contains_key(token_id@) ==> old(self)@[token_id@].next_approval_id
                < u64::MAX,
        ensures
            final(self).wf(),
            match r {
                Ok(id) => {
                    &&& lookup_refusal(old(self)@, token_id@) is None
                    &&& id == old(self)@[token_id@].next_approval_id
                    &&& final(self)@ == approved(old(self)@, token_id@, account_id@)
                },
                Err(e) => lookup_refusal(old(self)@, token_id@) == Some(e) && final(self)@ == old(
                    self,
                )@,
            },
    {
        match self.take(token_id) {
            Some(record) => {
                let mut record = record;
                let id = record.registry.approve(account_id);
                self.put(token_id.clone(), record);
                assert(self@ =~= approved(old(self)@, token_id@, account_id@));
                Ok(id)
            },
            None => Err(ContractError::NotFound),
        }
    }

    /// Withdraws the approval of `account_id` for the token, if it has one.
    /// Refused with `NotFound` where the token does not exist.
    pub fn revoke(&mut self, token_id: &String, account_id: &String) -> (r: Result<
        (),
        ContractError,
    >)
        requires
            old(self).wf(),
        ensures
            final(self).wf(),
            match r {
                Ok(_) => lookup_refusal(old(self)@, token_id@) is None && final(self)@ == revoked(
                    old(self)@,
                    token_id@,
                    account_id@,
                ),
                Err(e) => lookup_refusal(old(self)@, token_id@) == Some(e) && final(self)@ == old(
                    self,
                )@,
            },
    {
        match self.take(token_id) {
            Some(record) => {
                let mut record = record;
                record.registry.revoke(account_id);
                self.put(token_id.clone(), record);
                assert(self@ =~= revoked(old(self)@, token_id@, account_id@));
                Ok(())
            },
            None => Err(ContractError::NotFound),
        }
    }

    /// Withdraws every approval for the token. Refused with `NotFound` where the
    /// token does not exist.
    pub fn revoke_all(&mut self, token_id: &String) -> (r: Result<(), ContractError>)
        requires
            old(self).wf(),
        ensures
            final(self).wf(),
            match r {
                Ok(_) => lookup_refusal(old(self)@, token_id@) is None && final(self)@
                    == with_approvals(old(self)@, token_id@, Map::empty()),
                Err(e) => lookup_refusal(old(self)@, token_id@) == Some(e) && final(self)@ == old(
                    self,
                )@,
            },
    {
        match self.take(token_id) {
            Some(record) => {
                let mut record = record;
                record.registry.revoke_all();
                self.put(token_id.clone(), record);
                assert(self@ =~= with_approvals(old(self)@, token_id@, Map::empty()));
                Ok(())
            },
            None => Err(ContractError::NotFound),
        }
    }

    /// Puts `approvals` in the place of the token's current approvals. Refused
    /// with `NotFound` where the token does not exist.
    pub fn set_approvals(&mut self, token_id: &String, approvals: Approvals) -> (r: Result<
        (),
        ContractError,
    >)
        requires
            old(self).wf(),
            approvals.wf(),
        ensures
            final(self).wf(),
            match r {
                Ok(_) => lookup_refusal(old(self)@, token_id@) is None && final(self)@
                    == with_approvals(old(self)@, token_id@, approvals@),
                Err(e) => lookup_refusal(old(self)@, token_id@) == Some(e) && final(self)@ == old(
                    self,
                )@,
            },
    {
        match self.take(token_id) {
            Some(record) => {
                let mut record = record;
                record.registry.restore(approvals);
                self.put(token_id.clone(), record);
                assert(self@ =~= with_approvals(old(self)@, token_id@, approvals@));
                Ok(())
            },
            None => Err(ContractError::NotFound),
        }
    }

    /// Whether `account_id` holds exactly `approval_id` for the token.
    pub fn check(&self, token_id: &String, account_id: &String, approval_id: u64) -> (ok: bool)
        requires
            self.wf(),
        ensures
            ok == holds_approval(self@, token_id@, account_id@, approval_id),
    {
        match self.records.get(token_id) {
            Some(record) => record.registry.check(account_id, approval_id),
            None => false,
        }
    }
}

} // verus!
