use vstd::prelude::*;

verus! {

/// A function a worker runs once: `Async` produces a future to run, `Sync` runs directly.
///
/// `A` and `S` are the two kinds of function the runtime keeps here.
pub enum Closure<A, S> {
    Async(A),
    Sync(S),
}

} // verus!
