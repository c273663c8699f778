//! The ledger as mathematics.
//!
//! A ledger is a finite map from token ids to token states. Each operation of
//! the library is described here by two functions on such maps: one that says
//! whether, and why, the operation is refused, and one that gives the ledger
//! after an operation that was not refused. The executable code is specified
//! against these functions, and the laws of the library are proved about them.

use vstd::prelude::*;
use crate::error::ContractError;
use crate::metadata::TokenMetadataView;
use crate::token::TokenView;

verus! {

/// The approval id that the first approval of a token receives.
pub const FIRST_APPROVAL_ID: u64 = 1;

/// What the ledger knows of one token.
pub struct TokenState {
    /// The account that owns the token.
    pub owner_id: Seq<char>,
    /// The metadata given when the token was minted.
    pub metadata: Option<TokenMetadataView>,
    /// The approved accounts, each with the approval id it holds.
    pub approvals: Map<Seq<char>, u64>,
    /// The id that the next approval will receive.
    pub next_approval_id: u64,
}

/// The tokens of a ledger, by id.
pub type LedgerState = Map<Seq<char>, TokenState>;

/// How the receiver of a transfer answered the notification.
#[derive(Clone, Copy, Debug, PartialEq, Eq, Structural)]
pub enum NotificationOutcome {
    /// The call failed, or its answer could not be read.
    Failed,
    /// The receiver keeps the token.
    Keep,
    /// The receiver asks for the token to be returned.
    Return,
}

/// The token `id` as callers see it.
pub open spec fn token_of(l: LedgerState, id: Seq<char>) -> TokenView {
    TokenView {
        token_id: id,
        owner_id: l[id].owner_id,
        metadata: l[id].metadata,
        approved_account_ids: Some(l[id].approvals),
    }
}

/// A token that was just minted: no approvals yet, and none handed out.
pub open spec fn minted_token(owner: Seq<char>, metadata: Option<TokenMetadataView>) -> TokenState {
    TokenState {
        owner_id: owner,
        metadata,
        approvals: Map::empty(),
        next_approval_id: FIRST_APPROVAL_ID,
    }
}

/// The state of a token that was stored away as `token`, with
/// `next_approval_id` as the id of its next approval.
pub open spec fn stored_token(token: TokenView, next_approval_id: u64) -> TokenState {
    TokenState {
        owner_id: token.owner_id,
        metadata: token.metadata,
        approvals: match token.approved_account_ids {
            Some(approvals) => approvals,
            None => Map::empty(),
        },
        next_approval_id,
    }
}

/// Minting is refused exactly when the id is taken.
pub open spec fn mint_refusal(l: LedgerState, id: Seq<char>) -> Option<ContractError> {
    if l.contains_key(id) {
        Some(ContractError::AlreadyExists)
    } else {
        None
    }
}

/// The ledger after `id` was minted to `owner`.
pub open spec fn minted(
    l: LedgerState,
    id: Seq<char>,
    owner: Seq<char>,
    metadata: Option<TokenMetadataView>,
) -> LedgerState {
    l.insert(id, minted_token(owner, metadata))
}

/// The ledger after a mint was asked for: the token exists as minted, or the
/// mint was refused and nothing has changed.
pub open spec fn mint_after(
    l: LedgerState,
    id: Seq<char>,
    owner: Seq<char>,
    metadata: Option<TokenMetadataView>,
) -> LedgerState {
    if mint_refusal(l, id) is None {
        minted(l, id, owner, metadata)
    } else {
        l
    }
}

/// Every operation on one existing token is refused exactly when the token is missing.
pub open spec fn lookup_refusal(l: LedgerState, id: Seq<char>) -> Option<ContractError> {
    if l.contains_key(id) {
        None
    } else {
        Some(ContractError::NotFound)
    }
}

/// The ledger after `id` went to `new_owner`: approvals do not survive a change of owner.
pub open spec fn with_owner(l: LedgerState, id: Seq<char>, new_owner: Seq<char>) -> LedgerState {
    l.insert(id, TokenState { owner_id: new_owner, approvals: Map::empty(), ..l[id] })
}

/// The ledger after the approvals of `id` were replaced.
pub open spec fn with_approvals(
    l: LedgerState,
    id: Seq<char>,
    approvals: Map<Seq<char>, u64>,
) -> LedgerState {
    l.insert(id, TokenState { approvals, ..l[id] })
}

/// The ledger after `account` was approved for `id`: it holds the next approval
/// id, and the id after that becomes the next one.
pub open spec fn approved(l: LedgerState, id: Seq<char>, account: Seq<char>) -> LedgerState {
    l.insert(
        id,
        TokenState {
            approvals: l[id].approvals.insert(account, l[id].next_approval_id),
            next_approval_id: (l[id].next_approval_id + 1) as u64,
            ..l[id]
        },
    )
}

/// The ledger after the approval of `account` for `id` was withdrawn.
pub open spec fn revoked(l: LedgerState, id: Seq<char>, account: Seq<char>) -> LedgerState {
    with_approvals(l, id, l[id].approvals.remove(account))
}

/// Whether `account` holds exactly `approval_id` for the token `id`.
pub open spec fn holds_approval(
    l: LedgerState,
    id: Seq<char>,
    account: Seq<char>,
    approval_id: u64,
) -> bool {
    &&& l.contains_key(id)
    &&& l[id].approvals.contains_key(account)
    &&& l[id].approvals[account] == approval_id
}

/// Whether, and why, `sender` may not move the existing token `id`.
///
/// The sender must own the token or be approved for it; an approved sender
/// that names an approval id must name the one it holds.
pub open spec fn sender_refusal(
    l: LedgerState,
    sender: Seq<char>,
    id: Seq<char>,
    approval_id: Option<u64>,
) -> Option<ContractError> {
    if sender == l[id].owner_id {
        None
    } else if !l[id].approvals.contains_key(sender) {
        Some(ContractError::Unauthorized)
    } else if approval_id is Some && approval_id->0 != l[id].approvals[sender] {
        Some(ContractError::StaleApproval)
    } else {
        None
    }
}

/// Whether, and why, a transfer of `id` by `sender` to `receiver` is refused.
///
/// The token must exist, the sender must be allowed to move it, and the
/// receiver must not own it already. The first rule broken decides.
pub open spec fn transfer_refusal(
    l: LedgerState,
    sender: Seq<char>,
    receiver: Seq<char>,
    id: Seq<char>,
    approval_id: Option<u64>,
) -> Option<ContractError> {
    if !l.contains_key(id) {
        Some(ContractError::NotFound)
    } else if sender_refusal(l, sender, id, approval_id) is Some {
        sender_refusal(l, sender, id, approval_id)
    } else if receiver == l[id].owner_id {
        Some(ContractError::SelfTransfer)
    } else {
        None
    }
}

/// The ledger after a transfer was asked for: the token has gone to the
/// receiver, or the transfer was refused and nothing has changed.
pub open spec fn transfer_after(
    l: LedgerState,
    sender: Seq<char>,
    receiver: Seq<char>,
    id: Seq<char>,
    approval_id: Option<u64>,
) -> LedgerState {
    if transfer_refusal(l, sender, receiver, id, approval_id) is None {
        with_owner(l, id, receiver)
    } else {
        l
    }
}

/// Whether resolving a transfer of `id` to `receiver` takes the token back:
/// the receiver did not keep it, and it has not moved on since.
pub open spec fn reverts(
    l: LedgerState,
    receiver: Seq<char>,
    id: Seq<char>,
    outcome: NotificationOutcome,
) -> bool {
    &&& outcome != NotificationOutcome::Keep
    &&& l.contains_key(id)
    &&& l[id].owner_id == receiver
}

/// The ledger after a transfer of `id` to `receiver` was resolved: where the
/// transfer is reverted, the previous owner has the token again, with the
/// approvals it had given; otherwise nothing changes.
pub open spec fn resolved(
    l: LedgerState,
    previous_owner: Seq<char>,
    receiver: Seq<char>,
    id: Seq<char>,
    prior_approvals: Map<Seq<char>, u64>,
    outcome: NotificationOutcome,
) -> LedgerState {
    if reverts(l, receiver, id, outcome) {
        with_approvals(with_owner(l, id, previous_owner), id, prior_approvals)
    } else {
        l
    }
}

} // verus!
