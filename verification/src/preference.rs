//! User preferences kept across sessions.

use crate::audio::VOLUME_UNIT;
use vstd::prelude::*;

verus! {

pub struct Preference {
    /// Master gain applied to every source, fixed-point at `VOLUME_UNIT`.
    pub global_volume: i64,
}

impl Default for Preference {
    fn default() -> (r: Self)
        ensures
            r.global_volume == VOLUME_UNIT,
    {
        Preference { global_volume: VOLUME_UNIT }
    }
}

} // verus!
