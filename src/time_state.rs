use vstd::prelude::*;

verus! {

/// Initialization – preparing for the actual start of the simulation time;
/// Started – the simulation time is started; Paused – the simulation time is
/// paused; Stopped – the simulation time is stopped; Reset – the simulation
/// time is reset.
///
/// Any state may follow any other: transitions are not validated.
#[derive(Debug, Clone, Copy, PartialEq, Eq, Structural, Hash)]
pub enum TimeState {
    Initialization,
    Started,
    Paused,
    Stopped,
    Reset,
}

} // verus!
