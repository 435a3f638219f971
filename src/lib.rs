//! Toolkit for "bring your own server" e-ink displays: protocol types,
//! device header parsing, token checks, a webhook client and a
//! time-of-day refresh-rate scheduler.

use vstd::prelude::*;

pub mod auth;
pub mod byos;
pub mod client;
pub mod clock;
pub mod decimal;
pub mod error;
pub mod render;
pub mod schedule;
pub mod text;

pub use auth::{AuthError, TokenAuth};
pub use byos::{DeviceInfo, DisplayResponse, LogResponse, SetupResponse};
pub use client::{Client, MergeStrategy};
pub use error::Error;
pub use render::{timestamped_filename, RenderConfig};
pub use schedule::{DaySelector, RefreshSchedule, ScheduleRule, TimeOfDay, Weekday};

verus! {

/// Display width in pixels.
pub const DISPLAY_WIDTH: u32 = 800;

/// Display height in pixels.
pub const DISPLAY_HEIGHT: u32 = 480;

/// Largest image, in bytes, that the firmware accepts (90 KiB).
pub const MAX_IMAGE_SIZE: usize = 92160;

/// Battery voltage, in millivolts, reported as 0%.
pub const BATTERY_MIN_MV: u32 = 3000;

/// Battery voltage, in millivolts, reported as 100%.
pub const BATTERY_MAX_MV: u32 = 4200;

/// Battery charge in percent for a voltage in millivolts: 0 at or below
/// 3000 mV, 100 at or above 4200 mV, linear (truncated) in between.
pub open spec fn battery_percent_of(voltage_mv: nat) -> nat {
    if voltage_mv <= 3000 {
        0
    } else if voltage_mv >= 4200 {
        100
    } else {
        ((voltage_mv - 3000) * 100 / 1200) as nat
    }
}

/// Converts a battery voltage in millivolts to a charge percentage.
pub fn battery_percentage(voltage_mv: u32) -> (r: u8)
    ensures
        r as nat == battery_percent_of(voltage_mv as nat),
        r <= 100,
        voltage_mv <= BATTERY_MIN_MV ==> r == 0,
        voltage_mv >= BATTERY_MAX_MV ==> r == 100,
{
    if voltage_mv <= BATTERY_MIN_MV {
        0
    } else if voltage_mv >= BATTERY_MAX_MV {
        100
    } else {
        let span: u32 = voltage_mv - BATTERY_MIN_MV;
        assert(span * 100 / 1200 <= 100) by (nonlinear_arith)
            requires span < 1200;
        (span * 100 / (BATTERY_MAX_MV - BATTERY_MIN_MV)) as u8
    }
}

} // verus!
