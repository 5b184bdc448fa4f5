use vstd::prelude::*;

verus! {

/// The kind of Markov chain: continuous-time, discrete-time, or not chosen
/// yet.
#[derive(Debug, PartialEq, Eq, Clone, Copy, Structural)]
pub enum ModelType {
    Ctmc,
    Dtmc,
    Uninitialized,
}

/// The index of a state.
pub type State = usize;

} // verus!
