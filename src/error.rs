use vstd::prelude::*;

verus! {

/// What can go wrong while the balancer and its workers are set up.
#[derive(Clone, Copy, Debug, PartialEq, Eq, Structural)]
pub enum FaucetError {
    /// The strategy token is none of the accepted ones.
    UnknownStrategy,
    /// A strategy was asked to choose among no targets.
    NoTargets,
    /// A worker could not be started: no free port, or the process failed to launch.
    Spawn,
}

} // verus!
