//! Keeps two companion toolchain repositories synchronized and rebuilds
//! their binaries.
//!
//! The crate has two halves: a parser for toolchain identifiers
//! ([`toolchain`]) and the update orchestration ([`update`]), written as a
//! state machine whose transitions are pure and verified.  Reading the
//! environment, touching the filesystem and spawning the external tools is
//! left to the embedding program, which performs each [`update::UpdateAction`]
//! and feeds the resulting [`update::UpdateEvent`] back into the machine.

pub mod command;
pub mod toolchain;
pub mod update;
