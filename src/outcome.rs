use vstd::prelude::*;

verus! {

#[verifier::external_type_specification]
#[verifier::external_body]
pub struct ExAnyhowError(anyhow::Error);

/// The outcome of an entry function run to completion on the runtime.
pub trait EventLoopResult<T>: Sized {
    /// The entry function succeeded.
    spec fn succeeded(&self) -> bool;

    /// What the entry function produced, when it succeeded.
    spec fn produced(&self) -> T;

    /// The produced value; callers establish success first.
    fn unwrap(self) -> (r: T)
        requires
            self.succeeded(),
        ensures
            r == self.produced(),
    ;
}

impl EventLoopResult<()> for Result<(), anyhow::Error> {
    open spec fn succeeded(&self) -> bool {
        self is Ok
    }

    open spec fn produced(&self) -> () {
        ()
    }

    fn unwrap(self) -> (r: ()) {
        Result::unwrap(self)
    }
}

} // verus!
