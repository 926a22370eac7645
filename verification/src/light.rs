//! The orbiting point light, tracked by its phase on the orbit.
//!
//! The light circles the world Y axis. Its state is the place where the orbit
//! started, its colour, and the whole degrees travelled since; the position at
//! a given moment is the start rotated about Y by the phase.

use vstd::prelude::*;
use crate::units::{Color, Vec3};

verus! {

/// Whole degrees in one full turn of the orbit.
pub const TURN_DEGREES: u32 = 360;

/// Degrees the light moves per frame.
pub const STEP_DEGREES: u32 = 1;

/// State of the single point light.
#[derive(Clone, Copy, Debug, PartialEq, Eq, Structural)]
pub struct LightUniform {
    /// Where the orbit starts.
    pub start: Vec3,
    /// Colour of the light.
    pub color: Color,
    /// Whole degrees travelled about the Y axis since the start.
    pub phase: u32,
}

/// The light after one advance by `step` degrees.
pub open spec fn advanced(light: LightUniform, step: u32) -> LightUniform {
    LightUniform {
        start: light.start,
        color: light.color,
        phase: ((light.phase + step) % (TURN_DEGREES as int)) as u32,
    }
}

/// The light after `times` advances by `step` degrees each.
pub open spec fn advanced_times(light: LightUniform, step: u32, times: nat) -> LightUniform
    decreases times,
{
    if times == 0 {
        light
    } else {
        advanced(advanced_times(light, step, (times - 1) as nat), step)
    }
}

impl LightUniform {
    /// The phase lies within one turn.
    pub open spec fn wf(&self) -> bool {
        self.phase < TURN_DEGREES
    }

    /// The light at the start of its orbit: two units out on every axis, white.
    pub fn new() -> (light: Self)
        ensures
            light.start == (Vec3 { x: 2000, y: 2000, z: 2000 }),
            light.color == (Color { r: 1000, g: 1000, b: 1000, a: 1000 }),
            light.phase == 0,
            light.wf(),
    {
        LightUniform {
            start: Vec3 { x: 2000, y: 2000, z: 2000 },
            color: Color { r: 1000, g: 1000, b: 1000, a: 1000 },
            phase: 0,
        }
    }

    /// Moves the light `step` degrees further along its orbit.
    pub fn advance(&mut self, step: u32)
        ensures
            *final(self) == advanced(*old(self), step),
            final(self).wf(),
    {
        let sum: u64 = self.phase as u64 + step as u64;
        self.phase = (sum % TURN_DEGREES as u64) as u32;
    }
}

/// After `times` advances the phase is the start phase plus `times * step`,
/// reduced to one turn; start and colour never change.
pub proof fn lemma_advanced_times(light: LightUniform, step: u32, times: nat)
    ensures
        advanced_times(light, step, times).start == light.start,
        advanced_times(light, step, times).color == light.color,
        times > 0 ==> advanced_times(light, step, times).phase == (light.phase + times * step) % (
            TURN_DEGREES as int),
    decreases times,
{
    if times > 0 {
        let before = (times - 1) as nat;
        lemma_advanced_times(light, step, before);
        assert(times * step == before * step + step) by (nonlinear_arith)
            requires
                times == before + 1,
        ;
        if before == 0 {
            assert(advanced_times(light, step, before) == light);
            assert(before * step == 0);
        }
    }
}

/// Rotation closes: a light within its turn that advances 360 times by the same
/// whole number of degrees, one degree included, is back where it began.
pub proof fn lemma_orbit_closes(light: LightUniform, step: u32)
    requires
        light.wf(),
    ensures
        advanced_times(light, step, TURN_DEGREES as nat) == light,
{
    lemma_advanced_times(light, step, TURN_DEGREES as nat);
}

} // verus!
