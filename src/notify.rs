use vstd::prelude::*;

verus! {

/// The scheduler's wake handle, opaque to the proofs: it is only stored,
/// cloned and invoked.
#[verifier::external_type_specification]
#[verifier::external_body]
pub struct ExWaker(std::task::Waker);

/// Relies on `Waker::clone`: a second handle that wakes the same task.
pub assume_specification[ <std::task::Waker as Clone>::clone ](w: &std::task::Waker) -> (r:
    std::task::Waker);

/// Relies on `Waker::wake`: consumes the handle and notifies its task.
pub assume_specification[ std::task::Waker::wake ](w: std::task::Waker);

} // verus!
