//! Provisioning, output selection and single-file distribution logic for a
//! small media-download front end.
//!
//! The crate models the decisions the program makes — which URL to fetch for
//! which platform, when to update or re-download the cached tool, which
//! produced file to expose, and what bytes each transfer strategy puts on the
//! wire — as verified functions over plain values. The surrounding binary
//! performs the filesystem, process and network work and feeds the outcomes
//! back in as events.

pub mod distribute;
pub mod invoke;
pub mod locate;
pub mod provision;

use vstd::prelude::*;

verus! {

/// Fixed TCP port on which either distribution strategy listens.
pub const SERVE_PORT: u16 = 42069;

} // verus!
