//! Volume planning: the device takes raw values in a fixed negative
//! range, and crossing the bottom of the range toggles the hardware mute.
//! The hardware calls themselves live with the surrounding process; the
//! decisions are made here.

use vstd::prelude::*;

verus! {

/// The quietest raw value the hardware accepts; at or below it the
/// output is muted.
pub const MIN_RAW_VALUE: i32 = -60;

/// The loudest raw value the hardware accepts.
pub const MAX_RAW_VALUE: i32 = 0;

/// What one volume change does: the raw value to program, and whether to
/// switch the mute on (`Some(true)`), off (`Some(false)`), or leave it.
pub fn plan_volume_change(prev_volume: i32, volume: i32) -> (r: (i32, Option<bool>))
    ensures
        r.0 == if volume < MIN_RAW_VALUE {
            MIN_RAW_VALUE as int
        } else if volume > MAX_RAW_VALUE {
            MAX_RAW_VALUE as int
        } else {
            volume as int
        },
        r.1 == if prev_volume <= MIN_RAW_VALUE && r.0 > MIN_RAW_VALUE {
            Some(false)
        } else if prev_volume > MIN_RAW_VALUE && r.0 <= MIN_RAW_VALUE {
            Some(true)
        } else {
            None::<bool>
        },
{
    let clamped = if volume < MIN_RAW_VALUE {
        MIN_RAW_VALUE
    } else if volume > MAX_RAW_VALUE {
        MAX_RAW_VALUE
    } else {
        volume
    };
    let mute = if prev_volume <= MIN_RAW_VALUE && clamped > MIN_RAW_VALUE {
        Some(false)
    } else if prev_volume > MIN_RAW_VALUE && clamped <= MIN_RAW_VALUE {
        Some(true)
    } else {
        None
    };
    (clamped, mute)
}

} // verus!
