//! The parties' state machines, one for each stage of the protocol.
use vstd::prelude::*;

verus! {

/// The key generation stage.
#[derive(Clone, Copy, Debug, PartialEq, Eq)]
pub struct KeygenStateMachine {}

/// The offline stage.
#[derive(Clone, Copy, Debug, PartialEq, Eq)]
pub struct OfflineStateMachine {}

/// The voting stage.
#[derive(Clone, Copy, Debug, PartialEq, Eq)]
pub struct VotingStateMachine;

} // verus!
