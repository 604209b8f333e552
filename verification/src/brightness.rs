//! Brightness control: what the brightness buttons do, when the ambient
//! light sensor may adjust the display, and how auto-brightness is enabled
//! and disabled alongside manual changes.

use vstd::prelude::*;

use crate::buttons::ButtonPress;

verus! {

/// Brightness a long press of the up button jumps to.
pub const BRIGHTNESS_MAX: u8 = 255;

/// Brightness a long press of the down button drops to.
pub const BRIGHTNESS_LOW: u8 = 20;

/// Step of a short press.
pub const BRIGHTNESS_SMALL_STEP: u8 = 10;

/// Step of a double press.
pub const BRIGHTNESS_BIG_STEP: u8 = 50;

/// Default seconds between ambient light checks.
pub const AUTO_CHECK_DEFAULT_S: u64 = 2;

/// Seconds the light checks hold off after a manual brightness change.
pub const AUTO_CHECK_HOLDOFF_S: u64 = 30;

/// The window within which the other brightness button makes the pair a
/// composite toggle gesture, in milliseconds.
pub const COMPOSITE_WINDOW_MS: u64 = 500;

/// What a brightness gesture asks for.
#[derive(Clone, Copy, PartialEq, Eq, Structural, Debug)]
pub enum BrightnessCommand {
    /// Set the display brightness to the value.
    SetLevel(u8),
    /// Both brightness buttons within one window: toggle auto-brightness.
    ToggleAuto,
}

/// The brightness a gesture on one button maps to, from the current value:
/// short presses step by ten, double presses by fifty, both saturating; a
/// long press jumps to the extreme.
pub open spec fn spec_brightness_step(up: bool, press: ButtonPress, current: u8) -> u8 {
    if up {
        match press {
            ButtonPress::Short => (if current + BRIGHTNESS_SMALL_STEP > 255 {
                255
            } else {
                current + BRIGHTNESS_SMALL_STEP
            }) as u8,
            ButtonPress::Long => BRIGHTNESS_MAX,
            ButtonPress::Double => (if current + BRIGHTNESS_BIG_STEP > 255 {
                255
            } else {
                current + BRIGHTNESS_BIG_STEP
            }) as u8,
        }
    } else {
        match press {
            ButtonPress::Short => (if current >= BRIGHTNESS_SMALL_STEP {
                current - BRIGHTNESS_SMALL_STEP
            } else {
                0
            }) as u8,
            ButtonPress::Long => BRIGHTNESS_LOW,
            ButtonPress::Double => (if current >= BRIGHTNESS_BIG_STEP {
                current - BRIGHTNESS_BIG_STEP
            } else {
                0
            }) as u8,
        }
    }
}

/// Decide what one brightness-button wakeup does. When the other brightness
/// button was also pressed within the composite window, the pair is the
/// auto-brightness toggle; otherwise the gesture steps or jumps the
/// brightness from `current`.
pub fn brightness_command(up: bool, press: ButtonPress, other_within_window: bool, current: u8)
    -> (r: BrightnessCommand)
    ensures
        other_within_window ==> r is ToggleAuto,
        !other_within_window ==> r == BrightnessCommand::SetLevel(
            spec_brightness_step(up, press, current),
        ),
{
    if other_within_window {
        return BrightnessCommand::ToggleAuto;
    }
    let value = if up {
        match press {
            ButtonPress::Short => current.saturating_add(BRIGHTNESS_SMALL_STEP),
            ButtonPress::Long => BRIGHTNESS_MAX,
            ButtonPress::Double => current.saturating_add(BRIGHTNESS_BIG_STEP),
        }
    } else {
        match press {
            ButtonPress::Short => current.saturating_sub(BRIGHTNESS_SMALL_STEP),
            ButtonPress::Long => BRIGHTNESS_LOW,
            ButtonPress::Double => current.saturating_sub(BRIGHTNESS_BIG_STEP),
        }
    };
    BrightnessCommand::SetLevel(value)
}

/// Applying a manual brightness change also decides auto-brightness:
/// turning the display back on from zero re-enables it, turning the display
/// off disables it, anything else leaves it alone.
pub open spec fn spec_auto_after_set(old_brightness: u8, new_brightness: u8) -> Option<bool> {
    if old_brightness == 0 && new_brightness > 0 {
        Some(true)
    } else if new_brightness == 0 {
        Some(false)
    } else {
        None
    }
}

/// The auto-brightness switch a manual change to `new_brightness` implies,
/// if any.
pub fn auto_after_set(old_brightness: u8, new_brightness: u8) -> (r: Option<bool>)
    ensures
        r == spec_auto_after_set(old_brightness, new_brightness),
{
    if old_brightness == 0 && new_brightness > 0 {
        Some(true)
    } else if new_brightness == 0 {
        Some(false)
    } else {
        None
    }
}

/// The brightness the ambient light level asks for: the level clamped to a
/// byte, but only when it differs from the current brightness by more than
/// the small step in either direction.
pub open spec fn spec_light_level_update(light: u16, brightness: u8) -> Option<u8> {
    let level = if light > 255 {
        255u8
    } else {
        light as u8
    };
    if level > spec_sat_add(brightness, BRIGHTNESS_SMALL_STEP) || level < spec_sat_sub(
        brightness,
        BRIGHTNESS_SMALL_STEP,
    ) {
        Some(level)
    } else {
        None
    }
}

/// Saturating byte addition, at the spec level.
pub open spec fn spec_sat_add(a: u8, b: u8) -> u8 {
    if a + b > 255 {
        255u8
    } else {
        (a + b) as u8
    }
}

/// Saturating byte subtraction, at the spec level.
pub open spec fn spec_sat_sub(a: u8, b: u8) -> u8 {
    if a >= b {
        (a - b) as u8
    } else {
        0u8
    }
}

/// Decide whether an ambient light reading changes the brightness.
pub fn light_level_update(light: u16, brightness: u8) -> (r: Option<u8>)
    ensures
        r == spec_light_level_update(light, brightness),
{
    let level: u8 = if light > 255 {
        255
    } else {
        light as u8
    };
    if level > brightness.saturating_add(BRIGHTNESS_SMALL_STEP) || level
        < brightness.saturating_sub(BRIGHTNESS_SMALL_STEP) {
        Some(level)
    } else {
        None
    }
}

/// The auto-brightness scheduler: whether it is enabled, when the light was
/// last checked, and how long until the next check is due.
pub struct AutoBrightness {
    /// Whether ambient light may drive the brightness.
    pub enabled: bool,
    /// When the light was last checked, in milliseconds.
    pub last_check_ms: u64,
    /// Seconds that must pass after `last_check_ms` before the next check.
    pub next_check_interval_s: u64,
    /// Whether the checks are in the temporary hold-off after a manual
    /// change.
    pub temp_disable: bool,
}

impl AutoBrightness {
    /// A fresh scheduler: enabled, on the default interval.
    pub fn new(now_ms: u64) -> (a: AutoBrightness)
        ensures
            a == (AutoBrightness {
                enabled: true,
                last_check_ms: now_ms,
                next_check_interval_s: AUTO_CHECK_DEFAULT_S,
                temp_disable: false,
            }),
    {
        AutoBrightness {
            enabled: true,
            last_check_ms: now_ms,
            next_check_interval_s: AUTO_CHECK_DEFAULT_S,
            temp_disable: false,
        }
    }

    /// Record that the light was checked now.
    pub fn checked(&mut self, now_ms: u64)
        ensures
            *final(self) == (AutoBrightness { last_check_ms: now_ms, ..*old(self) }),
    {
        self.last_check_ms = now_ms;
    }

    /// Return to the default check interval, leaving any hold-off.
    pub fn set_default_checks(&mut self)
        ensures
            *final(self) == (AutoBrightness {
                next_check_interval_s: AUTO_CHECK_DEFAULT_S,
                temp_disable: false,
                ..*old(self)
            }),
    {
        self.next_check_interval_s = AUTO_CHECK_DEFAULT_S;
        self.temp_disable = false;
    }

    /// Hold the light checks off after a manual change: the next check is
    /// due only after the hold-off interval, counted from now.
    pub fn disable_short(&mut self, now_ms: u64)
        ensures
            *final(self) == (AutoBrightness {
                next_check_interval_s: AUTO_CHECK_HOLDOFF_S,
                temp_disable: true,
                last_check_ms: now_ms,
                ..*old(self)
            }),
    {
        self.next_check_interval_s = AUTO_CHECK_HOLDOFF_S;
        self.temp_disable = true;
        self.last_check_ms = now_ms;
    }

    /// Whether the interval to the next light check has passed. True when
    /// strictly more whole seconds than the interval have elapsed since the
    /// last check; independent of `enabled`.
    pub fn has_min_duration_passed(&self, now_ms: u64) -> (r: bool)
        requires
            self.last_check_ms <= now_ms,
        ensures
            r == ((now_ms - self.last_check_ms) / 1000 > self.next_check_interval_s),
    {
        (now_ms - self.last_check_ms) / 1000 > self.next_check_interval_s
    }
}

} // verus!
