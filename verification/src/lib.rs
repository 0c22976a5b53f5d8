//! A two-phase commit protocol between one coordinator and its participants,
//! written as state machines whose every step is verified, together with the
//! write-ahead log records that participants keep.

pub mod protocol;
pub mod coordinator;
pub mod coordinator_laws;
pub mod wal;
pub mod participant;
pub mod participant_laws;
pub mod channel;
