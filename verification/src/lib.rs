//! In-memory ledger for a collaborative-music marketplace.
//!
//! The crate tracks creative projects with their audio tracks, mints and
//! trades ownership tokens (NFTs) over those projects, and records every
//! sale together with the royalty owed to the original creator.  All state
//! lives in explicit store values; the host that persists them and decodes
//! requests sits outside this crate.

pub mod ids;
pub mod laws;
pub mod market;
pub mod projects;
pub mod text;
pub mod types;
