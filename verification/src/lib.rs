//! Decisions of a Minecraft server updater: what the local marker file
//! records, which remote build is wanted, whether an update is needed, and
//! whether a downloaded artifact carries the digest that the server published.
//!
//! The library computes on plain values. Reading files and talking to the
//! build servers is left to the caller, which feeds the results in.

pub mod backend;
pub mod decimal;
pub mod decision;
pub mod digest;
pub mod marker;
pub mod paper;
pub mod pipeline;
pub mod purpur;
pub mod remote;
pub mod text;
