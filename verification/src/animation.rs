use vstd::prelude::*;

verus! {

/// One end of a progress animation that runs between 0 and 1.
#[derive(Clone, Copy, Debug, PartialEq, Eq, Structural)]
pub enum Endpoint {
    Zero,
    One,
}

/// Where a newly created animation starts.
///
/// Either at rest at one of the endpoints, or wherever the animation that it
/// replaces currently is (the replaced animation is handed over so that its
/// current value can be read).
pub enum AnimFrom<A> {
    Rest(Endpoint),
    Current(A),
}

} // verus!
