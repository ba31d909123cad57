//! Cadence of the serving loop.
use vstd::prelude::*;

verus! {

/// Period of the serving loop, in milliseconds.
pub const POLL_PERIOD_MS: u32 = 500;
/// The sensor and the display are refreshed on every this many rounds.
pub const REFRESH_EVERY: u32 = 4;
/// Largest Modbus TCP frame taken in one receive.
pub const RX_FRAME_LEN: usize = 260;

/// Whether round `round` refreshes the sensor reading and the display.
pub fn refresh_due(round: u32) -> (r: bool)
    ensures
        r == (round % REFRESH_EVERY == 0),
{
    round % REFRESH_EVERY == 0
}

} // verus!
