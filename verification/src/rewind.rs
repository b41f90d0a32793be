//! Detection of a double Esc press, the session rewind gesture.
use vstd::prelude::*;

verus! {

/// Default double-press window in milliseconds.
pub const DOUBLE_ESC_WINDOW_MS: u64 = 500;

/// Whether an Esc at `now_ms` completes a double press after an Esc at `prev_esc_ms`.
///
/// The window is closed (a gap of exactly `window_ms` counts); a clock that ran
/// backwards never counts; a first Esc (`None`) never counts.
pub fn is_double_esc(prev_esc_ms: Option<u64>, now_ms: u64, window_ms: u64) -> (r: bool)
    ensures
        r == (match prev_esc_ms {
            Some(prev) => prev <= now_ms && now_ms - prev <= window_ms,
            None => false,
        }),
{
    match prev_esc_ms {
        Some(prev) => now_ms >= prev && now_ms - prev <= window_ms,
        None => false,
    }
}

} // verus!
