//! What holds of the ledger and of the contract whatever they hold, proved
//! about the functions of the model that the operations are specified by.

use vstd::prelude::*;
use crate::contract::ContractView;
use crate::error::ContractError;
use crate::metadata::TokenMetadataView;
use crate::model::{
    approved, holds_approval, mint_after, mint_refusal, minted_token, reverts, resolved, revoked,
    sender_refusal, stored_token, token_of, transfer_after, transfer_refusal, with_approvals,
    with_owner, LedgerState, NotificationOutcome, TokenState,
};

verus! {

/// A token id is minted at most once: whatever came of a mint of `id`, a mint
/// of `id` right after it is refused with `AlreadyExists`.
pub proof fn law_mint_once(
    l: LedgerState,
    id: Seq<char>,
    owner: Seq<char>,
    metadata: Option<TokenMetadataView>,
)
    ensures
        mint_refusal(mint_after(l, id, owner, metadata), id) == Some(ContractError::AlreadyExists),
{
}

/// The same of the contract, where the owner account asks for both mints.
pub proof fn law_contract_mint_once(
    c: ContractView,
    id: Seq<char>,
    owner: Seq<char>,
    metadata: Option<TokenMetadataView>,
)
    ensures
        c.after_mint(c.owner_id, id, owner, metadata).mint_refusal(c.owner_id, id) == Some(
            ContractError::AlreadyExists,
        ),
{
}

/// A successful mint creates the token, owned as asked and without approvals,
/// and touches no other token.
pub proof fn law_mint_creates(
    c: ContractView,
    caller: Seq<char>,
    id: Seq<char>,
    owner: Seq<char>,
    metadata: Option<TokenMetadataView>,
    other: Seq<char>,
)
    requires
        c.mint_refusal(caller, id) is None,
        other != id,
    ensures
        caller == c.owner_id,
        c.token(id) is None,
        c.after_mint(caller, id, owner, metadata).token(id) matches Some(t) && t.token_id == id
            && t.owner_id == owner && t.metadata == metadata && t.approved_account_ids == Some(
            Map::<Seq<char>, u64>::empty(),
        ),
        c.after_mint(caller, id, owner, metadata).token(other) == c.token(other),
{
}

/// A mint that is not refused adds one token to the ledger; a transfer and a
/// resolution add none and take none away.
pub proof fn law_token_count(
    l: LedgerState,
    sender: Seq<char>,
    receiver: Seq<char>,
    id: Seq<char>,
    approval_id: Option<u64>,
    owner: Seq<char>,
    metadata: Option<TokenMetadataView>,
    prior_approvals: Map<Seq<char>, u64>,
    outcome: NotificationOutcome,
)
    requires
        l.dom().finite(),
    ensures
        mint_refusal(l, id) is None ==> mint_after(l, id, owner, metadata).dom().len()
            == l.dom().len() + 1,
        mint_refusal(l, id) is Some ==> mint_after(l, id, owner, metadata) == l,
        transfer_after(l, sender, receiver, id, approval_id).dom() == l.dom(),
        resolved(l, owner, receiver, id, prior_approvals, outcome).dom() == l.dom(),
{
    assert(transfer_after(l, sender, receiver, id, approval_id).dom() =~= l.dom());
    assert(resolved(l, owner, receiver, id, prior_approvals, outcome).dom() =~= l.dom());
}

/// The owner account and the contract metadata are set when the contract is
/// created and never change.
pub proof fn law_contract_frame(
    c: ContractView,
    caller: Seq<char>,
    receiver: Seq<char>,
    id: Seq<char>,
    approval_id: Option<u64>,
    owner: Seq<char>,
    metadata: Option<TokenMetadataView>,
    prior_approvals: Map<Seq<char>, u64>,
    outcome: NotificationOutcome,
)
    ensures
        c.after_mint(caller, id, owner, metadata).owner_id == c.owner_id,
        c.after_mint(caller, id, owner, metadata).metadata == c.metadata,
        c.after_transfer(caller, receiver, id, approval_id).owner_id == c.owner_id,
        c.after_transfer(caller, receiver, id, approval_id).metadata == c.metadata,
        c.after_resolve(owner, receiver, id, prior_approvals, outcome).owner_id == c.owner_id,
        c.after_resolve(owner, receiver, id, prior_approvals, outcome).metadata == c.metadata,
{
}

/// A token that is stored away as a query shows it, together with its approval
/// counter, is put back as it was.
pub proof fn law_store_round_trip(l: LedgerState, id: Seq<char>)
    requires
        l.contains_key(id),
    ensures
        stored_token(token_of(l, id), l[id].next_approval_id) == l[id],
        l.remove(id).insert(id, stored_token(token_of(l, id), l[id].next_approval_id)) == l,
{
    assert(l.remove(id).insert(id, stored_token(token_of(l, id), l[id].next_approval_id)) =~= l);
}

/// Nobody but the owner account mints or transfers: what any other caller asks
/// for is refused with `Unauthorized`, and the contract stays as it was.
pub proof fn law_custody(
    c: ContractView,
    caller: Seq<char>,
    receiver: Seq<char>,
    id: Seq<char>,
    approval_id: Option<u64>,
    owner: Seq<char>,
    metadata: Option<TokenMetadataView>,
)
    requires
        caller != c.owner_id,
    ensures
        c.transfer_refusal(caller, receiver, id, approval_id) == Some(ContractError::Unauthorized),
        c.after_transfer(caller, receiver, id, approval_id) == c,
        c.mint_refusal(caller, id) == Some(ContractError::Unauthorized),
        c.after_mint(caller, id, owner, metadata) == c,
{
}

/// After a transfer that was not refused the receiver owns the token, the
/// token has no approvals, and no other token has changed.
pub proof fn law_transfer_round_trip(
    l: LedgerState,
    sender: Seq<char>,
    receiver: Seq<char>,
    id: Seq<char>,
    approval_id: Option<u64>,
    other: Seq<char>,
)
    requires
        transfer_refusal(l, sender, receiver, id, approval_id) is None,
        other != id,
    ensures
        transfer_after(l, sender, receiver, id, approval_id).contains_key(id),
        transfer_after(l, sender, receiver, id, approval_id)[id].owner_id == receiver,
        transfer_after(l, sender, receiver, id, approval_id)[id].approvals == Map::<
            Seq<char>,
            u64,
        >::empty(),
        transfer_after(l, sender, receiver, id, approval_id)[id].metadata == l[id].metadata,
        transfer_after(l, sender, receiver, id, approval_id)[id].next_approval_id
            == l[id].next_approval_id,
        transfer_after(l, sender, receiver, id, approval_id).contains_key(other) == l.contains_key(
            other,
        ),
        transfer_after(l, sender, receiver, id, approval_id)[other] == l[other],
{
}

/// The same of the contract: after a transfer that was not refused, a query
/// for the token shows the receiver as its owner and no approvals.
pub proof fn law_contract_transfer_round_trip(
    c: ContractView,
    caller: Seq<char>,
    receiver: Seq<char>,
    id: Seq<char>,
    approval_id: Option<u64>,
)
    requires
        c.transfer_refusal(caller, receiver, id, approval_id) is None,
    ensures
        c.after_transfer(caller, receiver, id, approval_id).token(id) matches Some(t) && t.owner_id
            == receiver && t.approved_account_ids == Some(Map::<Seq<char>, u64>::empty()),
{
}

/// A sender that may move a token is refused a transfer to the account that
/// owns it already, with `SelfTransfer`, and the ledger stays as it was.
pub proof fn law_self_transfer(
    l: LedgerState,
    sender: Seq<char>,
    id: Seq<char>,
    approval_id: Option<u64>,
)
    requires
        l.contains_key(id),
        sender_refusal(l, sender, id, approval_id) is None,
    ensures
        transfer_refusal(l, sender, l[id].owner_id, id, approval_id) == Some(
            ContractError::SelfTransfer,
        ),
        transfer_after(l, sender, l[id].owner_id, id, approval_id) == l,
{
}

/// The same of the contract, where the owner account, which may move the
/// token, asks for the transfer.
pub proof fn law_contract_self_transfer(c: ContractView, id: Seq<char>, approval_id: Option<u64>)
    requires
        c.tokens.contains_key(id),
        sender_refusal(c.tokens, c.owner_id, id, approval_id) is None,
    ensures
        c.transfer_refusal(c.owner_id, c.tokens[id].owner_id, id, approval_id) == Some(
            ContractError::SelfTransfer,
        ),
        c.after_transfer(c.owner_id, c.tokens[id].owner_id, id, approval_id) == c,
{
}

/// A refused transfer names the first rule that it breaks: the token must
/// exist; the sender must own it or be approved for it; an approval id that an
/// approved sender gives must be the one it holds; and the receiver must not
/// own the token already.
pub proof fn law_transfer_refusals(
    l: LedgerState,
    sender: Seq<char>,
    receiver: Seq<char>,
    id: Seq<char>,
    approval_id: Option<u64>,
)
    ensures
        transfer_refusal(l, sender, receiver, id, approval_id) == Some(ContractError::NotFound)
            <==> !l.contains_key(id),
        transfer_refusal(l, sender, receiver, id, approval_id) == Some(
            ContractError::Unauthorized,
        ) <==> l.contains_key(id) && sender != l[id].owner_id && !l[id].approvals.contains_key(
            sender,
        ),
        transfer_refusal(l, sender, receiver, id, approval_id) == Some(
            ContractError::StaleApproval,
        ) <==> l.contains_key(id) && sender != l[id].owner_id && l[id].approvals.contains_key(
            sender,
        ) && approval_id is Some && approval_id != Some(l[id].approvals[sender]),
        transfer_refusal(l, sender, receiver, id, approval_id) == Some(
            ContractError::SelfTransfer,
        ) <==> l.contains_key(id) && sender_refusal(l, sender, id, approval_id) is None && receiver
            == l[id].owner_id,
{
}

/// A transfer that the receiver does not keep is undone in full: resolving it
/// with what the transfer recorded, while the receiver still owns the token,
/// gives back the ledger from before the transfer.
pub proof fn law_revert_restores(
    l: LedgerState,
    sender: Seq<char>,
    receiver: Seq<char>,
    id: Seq<char>,
    approval_id: Option<u64>,
    outcome: NotificationOutcome,
)
    requires
        transfer_refusal(l, sender, receiver, id, approval_id) is None,
        outcome != NotificationOutcome::Keep,
    ensures
        reverts(transfer_after(l, sender, receiver, id, approval_id), receiver, id, outcome),
        resolved(
            transfer_after(l, sender, receiver, id, approval_id),
            l[id].owner_id,
            receiver,
            id,
            l[id].approvals,
            outcome,
        ) == l,
{
    let after = transfer_after(l, sender, receiver, id, approval_id);
    let back = resolved(after, l[id].owner_id, receiver, id, l[id].approvals, outcome);
    assert(back =~= l);
}

/// A transfer that the receiver keeps stands: resolving it changes nothing.
pub proof fn law_keep_stands(
    l: LedgerState,
    previous_owner: Seq<char>,
    receiver: Seq<char>,
    id: Seq<char>,
    prior_approvals: Map<Seq<char>, u64>,
)
    ensures
        !reverts(l, receiver, id, NotificationOutcome::Keep),
        resolved(l, previous_owner, receiver, id, prior_approvals, NotificationOutcome::Keep) == l,
{
}

/// A token that has moved on is not taken back: where the receiver does not
/// own the token any more, or the token is gone, resolving changes nothing,
/// whatever the receiver answered.
pub proof fn law_moved_on_stands(
    l: LedgerState,
    previous_owner: Seq<char>,
    receiver: Seq<char>,
    id: Seq<char>,
    prior_approvals: Map<Seq<char>, u64>,
    outcome: NotificationOutcome,
)
    requires
        !l.contains_key(id) || l[id].owner_id != receiver,
    ensures
        !reverts(l, receiver, id, outcome),
        resolved(l, previous_owner, receiver, id, prior_approvals, outcome) == l,
{
}

/// Resolving touches one token at most, and neither its metadata nor its
/// approval counter.
pub proof fn law_resolve_frame(
    l: LedgerState,
    previous_owner: Seq<char>,
    receiver: Seq<char>,
    id: Seq<char>,
    prior_approvals: Map<Seq<char>, u64>,
    outcome: NotificationOutcome,
    other: Seq<char>,
)
    ensures
        resolved(l, previous_owner, receiver, id, prior_approvals, outcome).dom() == l.dom(),
        other != id ==> resolved(l, previous_owner, receiver, id, prior_approvals, outcome)[other]
            == l[other],
        resolved(l, previous_owner, receiver, id, prior_approvals, outcome)[id].metadata
            == l[id].metadata,
        resolved(l, previous_owner, receiver, id, prior_approvals, outcome)[id].next_approval_id
            == l[id].next_approval_id,
        reverts(l, receiver, id, outcome) ==> resolved(
            l,
            previous_owner,
            receiver,
            id,
            prior_approvals,
            outcome,
        )[id].owner_id == previous_owner && resolved(
            l,
            previous_owner,
            receiver,
            id,
            prior_approvals,
            outcome,
        )[id].approvals == prior_approvals,
{
    assert(resolved(l, previous_owner, receiver, id, prior_approvals, outcome).dom() =~= l.dom());
}

/// Resolving the same transfer again changes nothing more. Once a transfer
/// between two different accounts was reverted, no further resolution of it
/// reverts anything, whatever answer it is given; and resolving twice with the
/// same answer leaves the ledger as resolving once does.
pub proof fn law_resolve_once(
    l: LedgerState,
    previous_owner: Seq<char>,
    receiver: Seq<char>,
    id: Seq<char>,
    prior_approvals: Map<Seq<char>, u64>,
    outcome: NotificationOutcome,
    again: NotificationOutcome,
)
    requires
        previous_owner != receiver,
    ensures
        ({
            let once = resolved(l, previous_owner, receiver, id, prior_approvals, outcome);
            &&& reverts(l, receiver, id, outcome) ==> !reverts(once, receiver, id, again)
            &&& reverts(l, receiver, id, outcome) ==> resolved(
                once,
                previous_owner,
                receiver,
                id,
                prior_approvals,
                again,
            ) == once
            &&& resolved(once, previous_owner, receiver, id, prior_approvals, outcome) == once
        }),
{
}

/// Every approval id that a token's accounts hold lies below the token's counter.
pub open spec fn approvals_in_order(t: TokenState) -> bool {
    forall|account: Seq<char>| #[trigger]
        t.approvals.contains_key(account) ==> t.approvals[account] < t.next_approval_id
}

/// Approval ids are handed out in rising order and never twice: where the ids
/// held lie below the counter, a new approval receives an id that no account
/// holds, the ids held lie below the counter afterwards too, and the counter
/// has gone up.
pub proof fn law_fresh_approval_id(l: LedgerState, id: Seq<char>, account: Seq<char>)
    requires
        l.contains_key(id),
        l[id].next_approval_id < u64::MAX,
        approvals_in_order(l[id]),
    ensures
        forall|a: Seq<char>| #[trigger]
            l[id].approvals.contains_key(a) ==> l[id].approvals[a] != l[id].next_approval_id,
        holds_approval(approved(l, id, account), id, account, l[id].next_approval_id),
        approved(l, id, account)[id].next_approval_id > l[id].next_approval_id,
        approvals_in_order(approved(l, id, account)[id]),
{
}

/// The ids held lie below the counter in a token that was just minted, and
/// still do after an approval is withdrawn, after the owner changes, and after
/// approvals are put back that were held at some earlier time.
pub proof fn law_counter_never_goes_back(
    l: LedgerState,
    id: Seq<char>,
    account: Seq<char>,
    owner: Seq<char>,
    metadata: Option<TokenMetadataView>,
    earlier: TokenState,
)
    requires
        l.contains_key(id),
        approvals_in_order(l[id]),
        approvals_in_order(earlier),
        earlier.next_approval_id <= l[id].next_approval_id,
    ensures
        approvals_in_order(minted_token(owner, metadata)),
        approvals_in_order(revoked(l, id, account)[id]),
        revoked(l, id, account)[id].next_approval_id == l[id].next_approval_id,
        approvals_in_order(with_owner(l, id, owner)[id]),
        with_owner(l, id, owner)[id].next_approval_id == l[id].next_approval_id,
        approvals_in_order(with_approvals(l, id, earlier.approvals)[id]),
        with_approvals(l, id, earlier.approvals)[id].next_approval_id == l[id].next_approval_id,
{
}

/// An approval that was withdrawn and given again has a greater id than
/// before, the account holds the new id and not the old one, and a transfer
/// that the account, not being the owner, asks for with the old id is refused
/// with `StaleApproval`.
pub proof fn law_approval_monotonic(
    l: LedgerState,
    id: Seq<char>,
    account: Seq<char>,
    receiver: Seq<char>,
)
    requires
        l.contains_key(id),
        l[id].next_approval_id < u64::MAX,
    ensures
        ({
            let first = l[id].next_approval_id;
            let l1 = approved(l, id, account);
            let l2 = revoked(l1, id, account);
            let second = l2[id].next_approval_id;
            let l3 = approved(l2, id, account);
            &&& holds_approval(l1, id, account, first)
            &&& !l2[id].approvals.contains_key(account)
            &&& second > first
            &&& holds_approval(l3, id, account, second)
            &&& !holds_approval(l3, id, account, first)
            &&& account != l[id].owner_id ==> transfer_refusal(
                l3,
                account,
                receiver,
                id,
                Some(first),
            ) == Some(ContractError::StaleApproval)
            &&& account != l[id].owner_id ==> transfer_after(l3, account, receiver, id, Some(first))
                == l3
        }),
{
}

} // verus!
