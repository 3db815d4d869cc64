//! The train's performance model: acceleration and drag curves over speed,
//! notch counts, and the fixed braking rate.

use crate::curve::UNIT;
use crate::editable_func::EditableFunc;
use crate::wrappers::EditablePositiveFunc;
use vstd::prelude::*;

verus! {

pub struct TrainPerformance {
    pub acceleration: EditablePositiveFunc,
    pub power_steps: u8,
    /// Fixed-point (scale `UNIT`) deceleration per brake notch.
    pub brake_acceleration: i64,
    pub brake_steps: u8,
    pub drag: EditablePositiveFunc,
}

impl TrainPerformance {
    pub open spec fn wf(&self) -> bool {
        &&& self.acceleration.wf()
        &&& self.drag.wf()
    }

    /// Re-parses the two formula curves where their text changed.
    pub fn update(&mut self)
        requires
            old(self).wf(),
        ensures
            final(self).wf(),
            final(self).acceleration.points_seq() == old(self).acceleration.points_seq(),
            final(self).drag.points_seq() == old(self).drag.points_seq(),
            final(self).power_steps == old(self).power_steps,
            final(self).brake_steps == old(self).brake_steps,
            final(self).brake_acceleration == old(self).brake_acceleration,
    {
        self.acceleration.update_expression();
        self.drag.update_expression();
    }
}

impl Default for TrainPerformance {
    fn default() -> (r: Self)
        ensures
            r.wf(),
            r.power_steps == 5,
            r.brake_steps == 8,
            r.brake_acceleration == 4 * UNIT + 200000,
            r.acceleration.mode_spec() is Expression,
            r.drag.mode_spec() is Expression,
    {
        TrainPerformance {
            acceleration: EditablePositiveFunc::new(
                EditableFunc::with_expression("min(2.5,90/x,(80/x)^2)"),
            ),
            power_steps: 5,
            brake_acceleration: 4 * UNIT + 200000,
            brake_steps: 8,
            drag: EditablePositiveFunc::new(EditableFunc::with_expression("x/500")),
        }
    }
}

} // verus!
