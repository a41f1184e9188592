//! Watches a set of web sites for confirmed visual or textual change.
//!
//! The crate holds the decision core of a site monitor: per-site
//! configuration with validation, the cooldown/backoff state machine that
//! throttles notifications, the confirmation loop that turns a series of
//! similarity scores into a change verdict, and the keyword scan that
//! raises a one-shot alert when interesting content first appears.
//!
//! Rendering pages, comparing pixels and delivering notifications are
//! outside collaborators: the caller performs them and hands their results
//! (captured pixel buffers, similarity scores, page text) to this crate,
//! which makes every decision from those plain values.
//!
//! Similarity is measured in millionths: a score of [`SCALE`] means two
//! captures are identical, `0` means they share nothing.

use vstd::prelude::*;

pub mod backoff;
pub mod detector;
pub mod keywords;
pub mod website_data;

verus! {

/// One whole, in millionths. Similarity scores and thresholds range over
/// `0..=SCALE`; a threshold must lie strictly between the two ends.
pub const SCALE: u32 = 1_000_000;

} // verus!
