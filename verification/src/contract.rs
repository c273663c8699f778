//! The contract: a ledger in the custody of one owner account.
//!
//! Only the owner account may ask for a mint or a transfer. What it asks for
//! is then judged by the ledger, with the owner account as the sender of the
//! transfer. Queries are open to everyone. The caller of an operation is handed
//! in by whoever runs the contract, as is the fact whether the contract's state
//! exists already when it is created.

use vstd::prelude::*;
use crate::error::ContractError;
use crate::ledger::Ledger;
use crate::metadata::{
    text_view, NFTContractMetadata, NFTContractMetadataView, TokenMetadata, TokenMetadataView,
};
use crate::model::{
    mint_refusal, minted, reverts, resolved, token_of, transfer_refusal, with_owner, LedgerState,
    NotificationOutcome,
};
use crate::protocol::{transfer_record, Notification, Transfer};
use crate::token::{approvals_view, Approvals, Token, TokenView};

verus! {

/// The mathematical content of a [`Contract`].
pub struct ContractView {
    /// The account in whose custody the tokens are.
    pub owner_id: Seq<char>,
    pub metadata: NFTContractMetadataView,
    pub tokens: LedgerState,
}

/// Whether, and why, creating the contract is refused: its state must not
/// exist yet, and its metadata must meet the schema. The first rule broken
/// decides.
pub open spec fn init_refusal(state_exists: bool, metadata: NFTContractMetadataView) -> Option<
    ContractError,
> {
    if state_exists {
        Some(ContractError::AlreadyInitialized)
    } else if !metadata.valid() {
        Some(ContractError::InvalidMetadata)
    } else {
        None
    }
}

/// The one rule of access: what `caller` asks for is refused as unauthorized
/// unless `caller` is the owner account; the owner account is refused for
/// `otherwise`, if for anything.
pub open spec fn guarded(
    owner: Seq<char>,
    caller: Seq<char>,
    otherwise: Option<ContractError>,
) -> Option<ContractError> {
    if caller != owner {
        Some(ContractError::Unauthorized)
    } else {
        otherwise
    }
}

impl ContractView {
    /// The token `id` as callers see it, if it exists.
    pub open spec fn token(self, id: Seq<char>) -> Option<TokenView> {
        if self.tokens.contains_key(id) {
            Some(token_of(self.tokens, id))
        } else {
            None
        }
    }

    /// Whether, and why, `caller` is refused a mint of `id`.
    pub open spec fn mint_refusal(self, caller: Seq<char>, id: Seq<char>) -> Option<ContractError> {
        guarded(self.owner_id, caller, mint_refusal(self.tokens, id))
    }

    /// The contract after `caller` asked for a mint.
    pub open spec fn after_mint(
        self,
        caller: Seq<char>,
        id: Seq<char>,
        owner: Seq<char>,
        metadata: Option<TokenMetadataView>,
    ) -> ContractView {
        if self.mint_refusal(caller, id) is None {
            ContractView { tokens: minted(self.tokens, id, owner, metadata), ..self }
        } else {
            self
        }
    }

    /// Whether, and why, `caller` is refused a transfer of `id` to `receiver`.
    /// The owner account is the sender of the transfers that it asks for.
    pub open spec fn transfer_refusal(
        self,
        caller: Seq<char>,
        receiver: Seq<char>,
        id: Seq<char>,
        approval_id: Option<u64>,
    ) -> Option<ContractError> {
        guarded(
            self.owner_id,
            caller,
            transfer_refusal(self.tokens, caller, receiver, id, approval_id),
        )
    }

    /// The contract after `caller` asked for a transfer.
    pub open spec fn after_transfer(
        self,
        caller: Seq<char>,
        receiver: Seq<char>,
        id: Seq<char>,
        approval_id: Option<u64>,
    ) -> ContractView {
        if self.transfer_refusal(caller, receiver, id, approval_id) is None {
            ContractView { tokens: with_owner(self.tokens, id, receiver), ..self }
        } else {
            self
        }
    }

    /// The contract after a transfer was resolved.
    pub open spec fn after_resolve(
        self,
        previous_owner: Seq<char>,
        receiver: Seq<char>,
        id: Seq<char>,
        prior_approvals: Map<Seq<char>, u64>,
        outcome: NotificationOutcome,
    ) -> ContractView {
        ContractView {
            tokens: resolved(self.tokens, previous_owner, receiver, id, prior_approvals, outcome),
            ..self
        }
    }
}

/// A ledger, the account that has it in custody, and the contract metadata.
pub struct Contract {
    owner_id: String,
    metadata: NFTContractMetadata,
    tokens: Ledger,
}

impl View for Contract {
    type V = ContractView;

    closed spec fn view(&self) -> ContractView {
        ContractView { owner_id: self.owner_id@, metadata: self.metadata@, tokens: self.tokens@ }
    }
}

impl Contract {
    /// The ledger is well-formed, and the metadata met the schema when the
    /// contract was created.
    pub closed spec fn wf(&self) -> bool {
        &&& self.tokens.wf()
        &&& self.metadata@.valid()
    }

    /// Creates the contract with `owner_id` as its owner account and without
    /// tokens. Refused with `AlreadyInitialized` where `state_exists` says that
    /// the contract was created before, else with `InvalidMetadata` where
    /// `metadata` does not meet the schema.
    pub fn new(state_exists: bool, owner_id: String, metadata: NFTContractMetadata) -> (r: Result<
        Contract,
        ContractError,
    >)
        ensures
            match r {
                Ok(c) => {
                    &&& init_refusal(state_exists, metadata@) is None
                    &&& c.wf()
                    &&& c@ == (ContractView {
                        owner_id: owner_id@,
                        metadata: metadata@,
                        tokens: Map::empty(),
                    })
                },
                Err(e) => init_refusal(state_exists, metadata@) == Some(e),
            },
    {
        if state_exists {
            return Err(ContractError::AlreadyInitialized);
        }
        if !metadata.is_valid() {
            return Err(ContractError::InvalidMetadata);
        }
        Ok(Contract { owner_id, metadata, tokens: Ledger::new() })
    }

    /// Puts together a contract that was taken apart by [`Contract::into_parts`].
    /// Refused with `InvalidMetadata` where `metadata` does not meet the schema.
    pub fn from_parts(owner_id: String, metadata: NFTContractMetadata, tokens: Ledger) -> (r:
        Result<Contract, ContractError>)
        requires
            tokens.wf(),
        ensures
            match r {
                Ok(c) => {
                    &&& metadata@.valid()
                    &&& c.wf()
                    &&& c@ == (ContractView {
                        owner_id: owner_id@,
                        metadata: metadata@,
                        tokens: tokens@,
                    })
                },
                Err(e) => !metadata@.valid() && e == ContractError::InvalidMetadata,
            },
    {
        if !metadata.is_valid() {
            return Err(ContractError::InvalidMetadata);
        }
        Ok(Contract { owner_id, metadata, tokens })
    }

    /// Takes the contract apart into its owner account, its metadata and its ledger.
    pub fn into_parts(self) -> (parts: (String, NFTContractMetadata, Ledger))
        requires
            self.wf(),
        ensures
            parts.0@ == self@.owner_id,
            parts.1@ == self@.metadata,
            parts.1@.valid(),
            parts.2@ == self@.tokens,
            parts.2.wf(),
    {
        let Contract { owner_id, metadata, tokens } = self;
        (owner_id, metadata, tokens)
    }

    /// The guard of every operation that changes the contract: `caller` must be
    /// the owner account.
    pub fn authorize(&self, caller: &String) -> (r: Result<(), ContractError>)
        ensures
            match r {
                Ok(_) => guarded(self@.owner_id, caller@, None) is None,
                Err(e) => guarded(self@.owner_id, caller@, None) == Some(e),
            },
    {
        if *caller == self.owner_id {
            Ok(())
        } else {
            Err(ContractError::Unauthorized)
        }
    }

    /// The owner account.
    pub fn owner_id(&self) -> (r: &String)
        ensures
            r@ == self@.owner_id,
    {
        &self.owner_id
    }

    /// The ledger, to read.
    pub fn tokens(&self) -> (l: &Ledger)
        ensures
            l@ == self@.tokens,
            self.wf() ==> l.wf(),
    {
        &self.tokens
    }

    /// Mints the token `token_id` to `token_owner_id` on behalf of `caller`,
    /// and returns a copy of its record. Refused with `Unauthorized` where
    /// `caller` is not the owner account, else with `AlreadyExists` where the
    /// id is taken.
    pub fn nft_mint(
        &mut self,
        caller: &String,
        token_id: String,
        token_owner_id: String,
        token_metadata: TokenMetadata,
    ) -> (r: Result<Token, ContractError>)
        requires
            old(self).wf(),
        ensures
            final(self).wf(),
            final(self)@ == old(self)@.after_mint(
                caller@,
                token_id@,
                token_owner_id@,
                Some(token_metadata@),
            ),
            match r {
                Ok(token) => {
                    &&& old(self)@.mint_refusal(caller@, token_id@) is None
                    &&& Some(token@) == final(self)@.token(token_id@)
                    &&& token.wf()
                },
                Err(e) => old(self)@.mint_refusal(caller@, token_id@) == Some(e),
            },
    {
        match self.authorize(caller) {
            Ok(_) => {},
            Err(e) => {
                return Err(e);
            },
        }
        self.tokens.mint(token_id, token_owner_id, Some(token_metadata))
    }

    /// Transfers the token to `receiver_id` on behalf of `caller`, and returns
    /// the record of the transfer. Refused with `Unauthorized` where `caller` is
    /// not the owner account, else as the ledger refuses the transfer with
    /// `caller` as its sender.
    pub fn nft_transfer(
        &mut self,
        caller: &String,
        receiver_id: String,
        token_id: String,
        approval_id: Option<u64>,
        memo: Option<String>,
    ) -> (r: Result<Transfer, ContractError>)
        requires
            old(self).wf(),
        ensures
            final(self).wf(),
            final(self)@ == old(self)@.after_transfer(
                caller@,
                receiver_id@,
                token_id@,
                approval_id,
            ),
            match r {
                Ok(t) => {
                    &&& old(self)@.transfer_refusal(caller@, receiver_id@, token_id@, approval_id)
                        is None
                    &&& t@ == transfer_record(
                        old(self)@.tokens,
                        caller@,
                        receiver_id@,
                        token_id@,
                        text_view(memo),
                    )
                    &&& t.wf()
                },
                Err(e) => old(self)@.transfer_refusal(
                    caller@,
                    receiver_id@,
                    token_id@,
                    approval_id,
                ) == Some(e),
            },
    {
        match self.authorize(caller) {
            Ok(_) => {},
            Err(e) => {
                return Err(e);
            },
        }
        self.tokens.transfer(caller, receiver_id, &token_id, approval_id, memo)
    }

    /// Transfers the token as [`Contract::nft_transfer`] does, and returns the
    /// transfer together with the message for the receiver. Once the receiver's
    /// answer is known, [`Contract::nft_resolve_transfer`] settles the transfer.
    pub fn nft_transfer_call(
        &mut self,
        caller: &String,
        receiver_id: String,
        token_id: String,
        approval_id: Option<u64>,
        memo: Option<String>,
        msg: String,
    ) -> (r: Result<Notification, ContractError>)
        requires
            old(self).wf(),
        ensures
            final(self).wf(),
            final(self)@ == old(self)@.after_transfer(
                caller@,
                receiver_id@,
                token_id@,
                approval_id,
            ),
            match r {
                Ok(n) => {
                    &&& old(self)@.transfer_refusal(caller@, receiver_id@, token_id@, approval_id)
                        is None
                    &&& n.transfer@ == transfer_record(
                        old(self)@.tokens,
                        caller@,
                        receiver_id@,
                        token_id@,
                        text_view(memo),
                    )
                    &&& n.transfer.wf()
                    &&& n.msg@ == msg@
                },
                Err(e) => old(self)@.transfer_refusal(
                    caller@,
                    receiver_id@,
                    token_id@,
                    approval_id,
                ) == Some(e),
            },
    {
        match self.authorize(caller) {
            Ok(_) => {},
            Err(e) => {
                return Err(e);
            },
        }
        self.tokens.transfer_and_notify(caller, receiver_id, &token_id, approval_id, memo, msg)
    }

    /// A copy of the token's record, if the token exists.
    pub fn nft_token(&self, token_id: String) -> (r: Option<Token>)
        requires
            self.wf(),
        ensures
            match r {
                Some(token) => Some(token@) == self@.token(token_id@) && token.wf(),
                None => self@.token(token_id@) is None,
            },
    {
        self.tokens.get(&token_id)
    }

    /// Settles a transfer with notification, once the receiver's answer is
    /// known, and returns whether the transfer was reverted. See
    /// [`Ledger::resolve`].
    pub fn nft_resolve_transfer(
        &mut self,
        previous_owner_id: String,
        receiver_id: String,
        token_id: String,
        approved_account_ids: Option<Approvals>,
        outcome: NotificationOutcome,
    ) -> (reverted: bool)
        requires
            old(self).wf(),
            approved_account_ids matches Some(m) ==> m.wf(),
        ensures
            final(self).wf(),
            reverted == reverts(old(self)@.tokens, receiver_id@, token_id@, outcome),
            final(self)@ == old(self)@.after_resolve(
                previous_owner_id@,
                receiver_id@,
                token_id@,
                approvals_view(approved_account_ids),
                outcome,
            ),
    {
        self.tokens.resolve(
            previous_owner_id,
            &receiver_id,
            &token_id,
            approved_account_ids,
            outcome,
        )
    }

    /// A copy of the contract metadata.
    pub fn nft_metadata(&self) -> (m: NFTContractMetadata)
        ensures
            m@ == self@.metadata,
    {
        self.metadata.clone()
    }
}

} // verus!
