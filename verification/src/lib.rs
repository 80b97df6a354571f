//! The decision logic of a distributed key generation gadget: which messages a
//! party accepts from its peers, how protocol errors are graded, how key shares
//! are stored and loaded, what a restarted node resumes, and how a verifier
//! proposal is decoded. Everything here works on plain values; the node around
//! it owns the network, the keystore and the disk.
pub mod async_protocol_handlers;
pub mod bytes;
pub mod laws;
pub mod persistence;
pub mod scale;
pub mod set_verifier;
pub mod signers;
pub mod types;
