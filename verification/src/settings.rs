//! The shared settings store.
//!
//! One explicit value owned by the top-level loop: the settings panel writes
//! it through clamping setters, the simulation reads it every frame. Each
//! field is kept inside its slider range; the ranges and defaults are those
//! of the panel. Fixed-point fields count hundredths (so a sensitivity of
//! `50` means 0.5, a ground width of `2000` means 20 units).

use vstd::prelude::*;
use crate::math::Vec3;
use crate::math::clamp_to;
use crate::math::clamped;

verus! {

pub const SENSITIVITY_MIN: i64 = 10;

pub const SENSITIVITY_MAX: i64 = 100;

pub const SENSITIVITY_DEFAULT: i64 = 50;

pub const BALL_COUNTER_MIN: u16 = 0;

pub const BALL_COUNTER_MAX: u16 = 100;

pub const BALL_COUNTER_DEFAULT: u16 = 1;

pub const GROUND_X_MIN: i64 = 1_000;

pub const GROUND_X_MAX: i64 = 10_000;

pub const GROUND_Y_MIN: i64 = 50;

pub const GROUND_Y_MAX: i64 = 200;

pub const GROUND_Z_MIN: i64 = 1_000;

pub const GROUND_Z_MAX: i64 = 10_000;

pub const GROUND_X_DEFAULT: i64 = 2_000;

pub const GROUND_Y_DEFAULT: i64 = 100;

pub const GROUND_Z_DEFAULT: i64 = 1_500;

/// Which present mode the window should use.
#[derive(Clone, Copy, PartialEq, Eq, Structural, Debug)]
pub enum PresentMode {
    AutoVsync,
    AutoNoVsync,
}

/// The flat get/set surface shared by the panel and the simulation.
#[derive(Clone, Copy, PartialEq, Eq, Structural, Debug)]
pub struct SettingsStore {
    /// Whether presentation waits for vertical sync.
    pub vsync: bool,
    /// UI-only counter; no physical effect at this scope.
    pub ball_counter: u16,
    /// Pointer sensitivity, hundredths.
    pub sensitivity: i64,
    /// Ground slab dimensions, hundredths of a unit per axis.
    pub ground_size: Vec3,
}

/// Every field sits inside its slider range.
pub open spec fn settings_wf(s: SettingsStore) -> bool {
    &&& SENSITIVITY_MIN <= s.sensitivity <= SENSITIVITY_MAX
    &&& s.ball_counter <= BALL_COUNTER_MAX
    &&& GROUND_X_MIN <= s.ground_size.x <= GROUND_X_MAX
    &&& GROUND_Y_MIN <= s.ground_size.y <= GROUND_Y_MAX
    &&& GROUND_Z_MIN <= s.ground_size.z <= GROUND_Z_MAX
}

impl SettingsStore {
    /// The fixed startup defaults: vsync off, one ball, sensitivity 0.5,
    /// ground 20 by 1 by 15 units.
    pub fn new() -> (s: SettingsStore)
        ensures
            s.vsync == false,
            s.ball_counter == BALL_COUNTER_DEFAULT,
            s.sensitivity == SENSITIVITY_DEFAULT,
            s.ground_size.x == GROUND_X_DEFAULT,
            s.ground_size.y == GROUND_Y_DEFAULT,
            s.ground_size.z == GROUND_Z_DEFAULT,
            settings_wf(s),
    {
        SettingsStore {
            vsync: false,
            ball_counter: BALL_COUNTER_DEFAULT,
            sensitivity: SENSITIVITY_DEFAULT,
            ground_size: Vec3 { x: GROUND_X_DEFAULT, y: GROUND_Y_DEFAULT, z: GROUND_Z_DEFAULT },
        }
    }

    /// Switches vertical sync.
    pub fn set_vsync(&mut self, on: bool)
        ensures
            *final(self) == (SettingsStore { vsync: on, ..*old(self) }),
    {
        self.vsync = on;
    }

    /// Sets the UI ball counter, clamped to its slider range.
    pub fn set_ball_counter(&mut self, raw: u16)
        ensures
            *final(self) == (SettingsStore {
                ball_counter: clamped(
                    raw as int,
                    BALL_COUNTER_MIN as int,
                    BALL_COUNTER_MAX as int,
                ) as u16,
                ..*old(self)
            }),
    {
        let v: u16 = if raw > BALL_COUNTER_MAX {
            BALL_COUNTER_MAX
        } else {
            raw
        };
        self.ball_counter = v;
    }

    /// Sets the pointer sensitivity, clamped to its slider range.
    pub fn set_sensitivity(&mut self, raw: i64)
        ensures
            *final(self) == (SettingsStore {
                sensitivity: clamped(raw as int, SENSITIVITY_MIN as int, SENSITIVITY_MAX as int)
                    as i64,
                ..*old(self)
            }),
    {
        self.sensitivity = clamp_to(raw, SENSITIVITY_MIN, SENSITIVITY_MAX);
    }

    /// Sets the ground dimensions, each axis clamped to its slider range.
    pub fn set_ground_size(&mut self, raw: Vec3)
        ensures
            *final(self) == (SettingsStore {
                ground_size: Vec3 {
                    x: clamped(raw.x as int, GROUND_X_MIN as int, GROUND_X_MAX as int) as i64,
                    y: clamped(raw.y as int, GROUND_Y_MIN as int, GROUND_Y_MAX as int) as i64,
                    z: clamped(raw.z as int, GROUND_Z_MIN as int, GROUND_Z_MAX as int) as i64,
                },
                ..*old(self)
            }),
            settings_wf(*old(self)) ==> settings_wf(*final(self)),
    {
        self.ground_size = Vec3 {
            x: clamp_to(raw.x, GROUND_X_MIN, GROUND_X_MAX),
            y: clamp_to(raw.y, GROUND_Y_MIN, GROUND_Y_MAX),
            z: clamp_to(raw.z, GROUND_Z_MIN, GROUND_Z_MAX),
        };
    }

    /// The present mode the vsync flag asks for.
    pub fn present_mode(&self) -> (r: PresentMode)
        ensures
            r is AutoVsync <==> self.vsync,
    {
        if self.vsync {
            PresentMode::AutoVsync
        } else {
            PresentMode::AutoNoVsync
        }
    }
}

/// The clamping setters leave a well-formed store behind from any prior
/// state and any raw input.
pub proof fn lemma_setters_preserve_wf(s: SettingsStore, raw: i64, raw_size: Vec3)
    requires
        settings_wf(s),
    ensures
        settings_wf(
            SettingsStore {
                sensitivity: clamped(raw as int, SENSITIVITY_MIN as int, SENSITIVITY_MAX as int)
                    as i64,
                ..s
            },
        ),
        settings_wf(
            SettingsStore {
                ground_size: Vec3 {
                    x: clamped(raw_size.x as int, GROUND_X_MIN as int, GROUND_X_MAX as int) as i64,
                    y: clamped(raw_size.y as int, GROUND_Y_MIN as int, GROUND_Y_MAX as int) as i64,
                    z: clamped(raw_size.z as int, GROUND_Z_MIN as int, GROUND_Z_MAX as int) as i64,
                },
                ..s
            },
        ),
{
}

} // verus!
