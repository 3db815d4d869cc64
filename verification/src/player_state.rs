//! The live playback state: master-controller notch, current speed, and
//! which sound type (acceleration or braking) is active.  The physics
//! integration that advances the speed is floating-point work done by the
//! caller; the notch and sound-type rules live here.

use crate::audio_entry::SoundType;
use crate::train_performance::TrainPerformance;
use vstd::prelude::*;

verus! {

pub struct PlayerState {
    /// Notch: positive notches drive, negative notches brake.
    pub master_controller: i32,
    /// Current speed, fixed-point at `curve::UNIT`.
    pub speed: i64,
    pub sound_type: SoundType,
}

impl PlayerState {
    /// Clamps the notch into the performance's notch range and picks the
    /// sound type by its sign (an idle notch keeps the previous type).
    pub fn check(&mut self, train_performance: &TrainPerformance)
        ensures
            ({
                let lo = -(train_performance.brake_steps as int);
                let hi = train_performance.power_steps as int;
                let m = old(self).master_controller as int;
                let c = if m > hi {
                    hi
                } else if m < lo {
                    lo
                } else {
                    m
                };
                &&& final(self).master_controller as int == c
                &&& final(self).sound_type == (if c > 0 {
                    SoundType::Accel
                } else if c < 0 {
                    SoundType::Brake
                } else {
                    old(self).sound_type
                })
            }),
            final(self).speed == old(self).speed,
    {
        let lo = -(train_performance.brake_steps as i32);
        let hi = train_performance.power_steps as i32;
        if self.master_controller > hi {
            self.master_controller = hi;
        }
        if self.master_controller < lo {
            self.master_controller = lo;
        }
        if self.master_controller > 0 {
            self.sound_type = SoundType::Accel;
        } else if self.master_controller < 0 {
            self.sound_type = SoundType::Brake;
        }
    }

    /// One master-controller step toward zero, as the neutral-return key
    /// does: the notch moves one closer to idle and stops there.
    pub fn step_toward_idle(&mut self)
        ensures
            final(self).master_controller as int == if old(self).master_controller > 0 {
                old(self).master_controller - 1
            } else if old(self).master_controller < 0 {
                old(self).master_controller + 1
            } else {
                0
            },
            final(self).speed == old(self).speed,
            final(self).sound_type == old(self).sound_type,
    {
        if self.master_controller > 0 {
            self.master_controller = self.master_controller - 1;
        } else if self.master_controller < 0 {
            self.master_controller = self.master_controller + 1;
        }
    }
}

impl Default for PlayerState {
    fn default() -> (r: Self)
        ensures
            r.master_controller == i32::MIN,
            r.speed == 0,
            r.sound_type is Accel,
    {
        PlayerState { master_controller: i32::MIN, speed: 0, sound_type: SoundType::Accel }
    }
}

} // verus!
