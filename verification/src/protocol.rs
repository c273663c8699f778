//! The transfer protocol.
//!
//! A transfer starts idle and is transferring while [`Ledger::transfer`] or
//! [`Ledger::transfer_and_notify`] checks it and changes the owner. A direct
//! transfer is completed when `transfer` returns. A transfer with notification
//! awaits notification from then on: the ledger shows the receiver as the
//! owner already, and the caller holds the [`Notification`] to send. It is
//! resolved when [`Ledger::resolve`] is told the receiver's answer: the
//! transfer stands, or the token goes back to its previous owner, provided that
//! it has not moved on in the meantime.
//!
//! The ledger is not locked while a transfer awaits notification, so the token
//! may be transferred again before the answer arrives. That is why resolving
//! looks at the ledger as it is then, and not as it was left.

use vstd::prelude::*;
use crate::error::ContractError;
use crate::ledger::Ledger;
use crate::metadata::text_view;
use crate::model::{
    reverts, resolved, transfer_after, transfer_refusal, LedgerState, NotificationOutcome,
};
use crate::token::{approvals_view, Approvals};

verus! {

/// A change of owner that took place.
#[derive(Debug)]
pub struct Transfer {
    /// The account that asked for the transfer.
    pub sender_id: String,
    /// The owner before the transfer.
    pub previous_owner_id: String,
    /// The owner after the transfer.
    pub receiver_id: String,
    pub token_id: String,
    /// The approvals that the token had before the transfer withdrew them.
    pub approved_account_ids: Option<Approvals>,
    /// A note for the record. It has no bearing on the transfer.
    pub memo: Option<String>,
}

/// The mathematical content of a [`Transfer`].
pub struct TransferView {
    pub sender_id: Seq<char>,
    pub previous_owner_id: Seq<char>,
    pub receiver_id: Seq<char>,
    pub token_id: Seq<char>,
    pub approved_account_ids: Map<Seq<char>, u64>,
    pub memo: Option<Seq<char>>,
}

impl View for Transfer {
    type V = TransferView;

    open spec fn view(&self) -> TransferView {
        TransferView {
            sender_id: self.sender_id@,
            previous_owner_id: self.previous_owner_id@,
            receiver_id: self.receiver_id@,
            token_id: self.token_id@,
            approved_account_ids: approvals_view(self.approved_account_ids),
            memo: text_view(self.memo),
        }
    }
}

impl Transfer {
    /// The approval map, where there is one, binds no account twice.
    pub open spec fn wf(&self) -> bool {
        self.approved_account_ids matches Some(m) ==> m.wf()
    }
}

/// A transfer that took place and of which the receiver is to be notified.
#[derive(Debug)]
pub struct Notification {
    pub transfer: Transfer,
    /// The message to hand to the receiver.
    pub msg: String,
}

/// What the answer to a notification amounts to. A call that failed, and an
/// answer that could not be read, count as a failure; an answer of `true` asks
/// for the token to be returned, an answer of `false` keeps it.
pub open spec fn outcome_of_answer(
    call_succeeded: bool,
    answer: Option<bool>,
) -> NotificationOutcome {
    if !call_succeeded {
        NotificationOutcome::Failed
    } else {
        match answer {
            Some(true) => NotificationOutcome::Return,
            Some(false) => NotificationOutcome::Keep,
            None => NotificationOutcome::Failed,
        }
    }
}

/// The outcome of a notification, given whether the call to the receiver
/// succeeded and what was read of its answer.
pub fn outcome_of(call_succeeded: bool, answer: Option<bool>) -> (outcome: NotificationOutcome)
    ensures
        outcome == outcome_of_answer(call_succeeded, answer),
{
    if !call_succeeded {
        return NotificationOutcome::Failed;
    }
    match answer {
        Some(true) => NotificationOutcome::Return,
        Some(false) => NotificationOutcome::Keep,
        None => NotificationOutcome::Failed,
    }
}

/// The record of a transfer of `id` by `sender` to `receiver` that the ledger `l` allowed.
pub open spec fn transfer_record(
    l: LedgerState,
    sender: Seq<char>,
    receiver: Seq<char>,
    id: Seq<char>,
    memo: Option<Seq<char>>,
) -> TransferView {
    TransferView {
        sender_id: sender,
        previous_owner_id: l[id].owner_id,
        receiver_id: receiver,
        token_id: id,
        approved_account_ids: l[id].approvals,
        memo,
    }
}

impl Ledger {
    /// Transfers the token from its owner to `receiver_id` on behalf of
    /// `sender_id`, and returns the record of the transfer. The token's
    /// approvals are withdrawn. A refused transfer changes nothing.
    pub fn transfer(
        &mut self,
        sender_id: &String,
        receiver_id: String,
        token_id: &String,
        approval_id: Option<u64>,
        memo: Option<String>,
    ) -> (r: Result<Transfer, ContractError>)
        requires
            old(self).wf(),
        ensures
            final(self).wf(),
            final(self)@ == transfer_after(
                old(self)@,
                sender_id@,
                receiver_id@,
                token_id@,
                approval_id,
            ),
            match r {
                Ok(t) => {
                    &&& transfer_refusal(
                        old(self)@,
                        sender_id@,
                        receiver_id@,
                        token_id@,
                        approval_id,
                    ) is None
                    &&& t@ == transfer_record(
                        old(self)@,
                        sender_id@,
                        receiver_id@,
                        token_id@,
                        text_view(memo),
                    )
                    &&& t.wf()
                },
                Err(e) => transfer_refusal(
                    old(self)@,
                    sender_id@,
                    receiver_id@,
                    token_id@,
                    approval_id,
                ) == Some(e),
            },
    {
        let previous_owner_id = match self.owner_of(token_id) {
            Some(owner) => owner.clone(),
            None => {
                return Err(ContractError::NotFound);
            },
        };
        if !(*sender_id == previous_owner_id) {
            match self.approval_of(token_id, sender_id) {
                Some(held) => {
                    match approval_id {
                        Some(given) => {
                            if given != held {
                                return Err(ContractError::StaleApproval);
                            }
                        },
                        None => {},
                    }
                },
                None => {
                    return Err(ContractError::Unauthorized);
                },
            }
        }
        if receiver_id == previous_owner_id {
            return Err(ContractError::SelfTransfer);
        }
        let approved_account_ids = self.approvals_of(token_id);
        let _ = self.set_owner(token_id, receiver_id.clone());
        Ok(
            Transfer {
                sender_id: sender_id.clone(),
                previous_owner_id,
                receiver_id,
                token_id: token_id.clone(),
                approved_account_ids,
                memo,
            },
        )
    }

    /// Transfers the token as [`Ledger::transfer`] does, and returns the
    /// transfer together with the message for the receiver. The transfer stands
    /// until [`Ledger::resolve`] is told the receiver's answer.
    pub fn transfer_and_notify(
        &mut self,
        sender_id: &String,
        receiver_id: String,
        token_id: &String,
        approval_id: Option<u64>,
        memo: Option<String>,
        msg: String,
    ) -> (r: Result<Notification, ContractError>)
        requires
            old(self).wf(),
        ensures
            final(self).wf(),
            final(self)@ == transfer_after(
                old(self)@,
                sender_id@,
                receiver_id@,
                token_id@,
                approval_id,
            ),
            match r {
                Ok(n) => {
                    &&& transfer_refusal(
                        old(self)@,
                        sender_id@,
                        receiver_id@,
                        token_id@,
                        approval_id,
                    ) is None
                    &&& n.transfer@ == transfer_record(
                        old(self)@,
                        sender_id@,
                        receiver_id@,
                        token_id@,
                        text_view(memo),
                    )
                    &&& n.transfer.wf()
                    &&& n.msg@ == msg@
                },
                Err(e) => transfer_refusal(
                    old(self)@,
                    sender_id@,
                    receiver_id@,
                    token_id@,
                    approval_id,
                ) == Some(e),
            },
    {
        match self.transfer(sender_id, receiver_id, token_id, approval_id, memo) {
            Ok(transfer) => Ok(Notification { transfer, msg }),
            Err(e) => Err(e),
        }
    }

    /// Settles a transfer of the token from `previous_owner_id` to
    /// `receiver_id`, once the receiver's answer to the notification is known.
    /// Returns whether the transfer was reverted.
    ///
    /// The transfer is reverted where the receiver did not keep the token and
    /// still owns it: the previous owner then has it again, with
    /// `prior_approvals`. Where the receiver kept the token, or the token has
    /// moved on or is gone, nothing changes.
    pub fn resolve(
        &mut self,
        previous_owner_id: String,
        receiver_id: &String,
        token_id: &String,
        prior_approvals: Option<Approvals>,
        outcome: NotificationOutcome,
    ) -> (reverted: bool)
        requires
            old(self).wf(),
            prior_approvals matches Some(m) ==> m.wf(),
        ensures
            final(self).wf(),
            reverted == reverts(old(self)@, receiver_id@, token_id@, outcome),
            final(self)@ == resolved(
                old(self)@,
                previous_owner_id@,
                receiver_id@,
                token_id@,
                approvals_view(prior_approvals),
                outcome,
            ),
    {
        match outcome {
            NotificationOutcome::Keep => {
                return false;
            },
            _ => {},
        }
        let still_there = match self.owner_of(token_id) {
            Some(owner) => *owner == *receiver_id,
            None => false,
        };
        if !still_there {
            return false;
        }
        let approvals = match prior_approvals {
            Some(m) => m,
            None => Approvals::new(),
        };
        let _ = self.set_owner(token_id, previous_owner_id);
        let _ = self.set_approvals(token_id, approvals);
        true
    }
}

} // verus!
