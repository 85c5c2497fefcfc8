//! Protocol-wide limits and time windows.

use vstd::prelude::*;

verus! {

/// Oldest oracle update, in seconds before now, that settlement rejects.
pub const PYTH_STALENESS_THRESHOLD: u64 = 60;

/// Most strike entries a quote may carry.
pub const MAX_STRIKES_PER_QUOTE: usize = 10;

/// Basis points in one whole (10000 = 100%).
pub const BASIS_POINTS_DIVISOR: u64 = 10000;

/// Seconds a maker has to confirm a pending position request.
pub const MM_CONFIRMATION_WINDOW: i64 = 30;

/// Reputation score a newly registered market maker starts with.
pub const INITIAL_REPUTATION_SCORE: u16 = 100;

} // verus!
