//! The approval registry of one token.
//!
//! The registry binds approved accounts to approval ids and hands the ids out
//! from a counter that never goes back, so that an id which was withdrawn, or
//! replaced by a later approval, is never held by anyone again.

use vstd::prelude::*;
use crate::model::FIRST_APPROVAL_ID;
use crate::token::Approvals;

verus! {

/// The approvals of one token, and the counter that their ids come from.
pub struct ApprovalRegistry {
    approvals: Approvals,
    next_approval_id: u64,
}

impl ApprovalRegistry {
    /// No account is bound twice.
    pub closed spec fn wf(&self) -> bool {
        self.approvals.wf()
    }

    /// The approved accounts, each with the approval id it holds.
    pub closed spec fn approvals(&self) -> Map<Seq<char>, u64> {
        self.approvals@
    }

    /// The id that the next approval will receive.
    pub closed spec fn next_approval_id(&self) -> u64 {
        self.next_approval_id
    }

    /// A registry without approvals, whose first approval will receive
    /// [`FIRST_APPROVAL_ID`].
    pub fn new() -> (r: Self)
        ensures
            r.wf(),
            r.approvals() == Map::<Seq<char>, u64>::empty(),
            r.next_approval_id() == FIRST_APPROVAL_ID,
    {
        ApprovalRegistry { approvals: Approvals::new(), next_approval_id: FIRST_APPROVAL_ID }
    }

    /// A registry with the given approvals, whose next approval will receive
    /// `next_approval_id`: a registry as it was stored away earlier.
    pub fn from_parts(approvals: Approvals, next_approval_id: u64) -> (r: Self)
        requires
            approvals.wf(),
        ensures
            r.wf(),
            r.approvals() == approvals@,
            r.next_approval_id() == next_approval_id,
    {
        ApprovalRegistry { approvals, next_approval_id }
    }

    /// The id that the next approval will receive.
    pub fn next_id(&self) -> (id: u64)
        ensures
            id == self.next_approval_id(),
    {
        self.next_approval_id
    }

    /// Approves `account_id` and returns the approval id that it now holds. The
    /// id replaces any that the account held before.
    pub fn approve(&mut self, account_id: String) -> (id: u64)
        requires
            old(self).wf(),
            old(self).next_approval_id() < u64::MAX,
        ensures
            final(self).wf(),
            id == old(self).next_approval_id(),
            final(self).approvals() == old(self).approvals().insert(account_id@, id),
            final(self).next_approval_id() == id + 1,
    {
        let id = self.next_approval_id;
        self.approvals.insert(account_id, id);
        self.next_approval_id = id + 1;
        id
    }

    /// Withdraws the approval of `account_id`, if it has one.
    pub fn revoke(&mut self, account_id: &String)
        requires
            old(self).wf(),
        ensures
            final(self).wf(),
            final(self).approvals() == old(self).approvals().remove(account_id@),
            final(self).next_approval_id() == old(self).next_approval_id(),
    {
        let _ = self.approvals.remove(account_id);
    }

    /// Withdraws every approval.
    pub fn revoke_all(&mut self)
        requires
            old(self).wf(),
        ensures
            final(self).wf(),
            final(self).approvals() == Map::<Seq<char>, u64>::empty(),
            final(self).next_approval_id() == old(self).next_approval_id(),
    {
        self.approvals.clear();
    }

    /// The approval id that `account_id` holds, if it is approved.
    pub fn approval_of(&self, account_id: &String) -> (r: Option<u64>)
        requires
            self.wf(),
        ensures
            r == if self.approvals().contains_key(account_id@) {
                Some(self.approvals()[account_id@])
            } else {
                None
            },
    {
        match self.approvals.get(account_id) {
            Some(id) => Some(*id),
            None => None,
        }
    }

    /// Whether `account_id` holds exactly `approval_id`.
    pub fn check(&self, account_id: &String, approval_id: u64) -> (ok: bool)
        requires
            self.wf(),
        ensures
            ok == (self.approvals().contains_key(account_id@) && self.approvals()[account_id@]
                == approval_id),
    {
        match self.approvals.get(account_id) {
            Some(id) => *id == approval_id,
            None => false,
        }
    }

    /// A copy of the approvals as they stand.
    pub fn snapshot(&self) -> (a: Approvals)
        requires
            self.wf(),
        ensures
            a.wf(),
            a@ == self.approvals(),
    {
        self.approvals.clone()
    }

    /// Puts `approvals` in the place of the current ones. The counter stays.
    pub fn restore(&mut self, approvals: Approvals)
        requires
            approvals.wf(),
        ensures
            final(self).wf(),
            final(self).approvals() == approvals@,
            final(self).next_approval_id() == old(self).next_approval_id(),
    {
        self.approvals = approvals;
    }
}

} // verus!
