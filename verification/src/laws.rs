//! What the operations are for, stated on their calls: for every call that the contracts
//! allow, how its result and the values it changes follow from what it was given.
pub mod messages;
pub mod proposals;
pub mod resuming;
pub mod signatures;
pub mod storing;
pub mod wire;
