use vstd::prelude::*;

verus! {

/// Lock bookkeeping of one shared value: how many shared holders are active,
/// and whether an exclusive holder is.
#[derive(Clone, Copy, Debug, PartialEq, Eq, Structural)]
pub struct LockState {
    pub shared_count: u64,
    pub exclusive_active: bool,
}

impl LockState {
    /// An exclusive grant never coexists with shared holders.
    pub open spec fn wf(&self) -> bool {
        !(self.exclusive_active && self.shared_count > 0)
    }

    /// No holder of either kind.
    pub open spec fn is_idle(&self) -> bool {
        !self.exclusive_active && self.shared_count == 0
    }

    pub open spec fn idle() -> LockState {
        LockState { shared_count: 0, exclusive_active: false }
    }

    /// A shared hold may be granted.
    pub open spec fn shared_allowed(&self) -> bool {
        !self.exclusive_active
    }

    /// An exclusive hold may be granted.
    pub open spec fn exclusive_allowed(&self) -> bool {
        !self.exclusive_active && self.shared_count == 0
    }

    pub fn new() -> (r: LockState)
        ensures
            r == LockState::idle(),
    {
        LockState { shared_count: 0, exclusive_active: false }
    }

    pub fn can_share(&self) -> (r: bool)
        ensures
            r == self.shared_allowed(),
    {
        !self.exclusive_active
    }

    pub fn can_exclude(&self) -> (r: bool)
        ensures
            r == self.exclusive_allowed(),
    {
        !self.exclusive_active && self.shared_count == 0
    }

    /// Grants one more shared hold.
    pub fn acquire_shared(&mut self)
        requires
            old(self).wf(),
            old(self).shared_allowed(),
            old(self).shared_count < u64::MAX,
        ensures
            final(self).wf(),
            final(self).shared_count == old(self).shared_count + 1,
            final(self).exclusive_active == old(self).exclusive_active,
    {
        self.shared_count = self.shared_count + 1;
    }

    /// Ends one shared hold.
    pub fn release_shared(&mut self)
        requires
            old(self).wf(),
            old(self).shared_count > 0,
        ensures
            final(self).wf(),
            final(self).shared_count == old(self).shared_count - 1,
            final(self).exclusive_active == old(self).exclusive_active,
    {
        self.shared_count = self.shared_count - 1;
    }

    /// Grants the exclusive hold.
    pub fn acquire_exclusive(&mut self)
        requires
            old(self).wf(),
            old(self).exclusive_allowed(),
        ensures
            final(self).wf(),
            final(self).exclusive_active,
            final(self).shared_count == 0,
    {
        self.exclusive_active = true;
    }

    /// Ends the exclusive hold.
    pub fn release_exclusive(&mut self)
        requires
            old(self).wf(),
            old(self).exclusive_active,
        ensures
            final(self).wf(),
            final(self).is_idle(),
    {
        self.exclusive_active = false;
    }
}

} // verus!
