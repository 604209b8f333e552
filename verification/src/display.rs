//! The display's own state: the mirrored frame, the active color, the
//! brightness register's value and the auto-brightness scheduler. The
//! hardware push itself is an external collaborator; every transition on
//! this state is verified.

use vstd::prelude::*;

use crate::brightness::{spec_auto_after_set, AutoBrightness, AUTO_CHECK_DEFAULT_S};
use crate::color::Rgb;
use crate::frame::Frame;

verus! {

/// Brightness the display boots with.
pub const BOOT_BRIGHTNESS: u8 = 255;

/// The state the display task owns.
pub struct DisplayState {
    /// Mirror of what the matrix shows, re-pushed on brightness changes.
    pub current_graphics: Frame,
    /// The active display color.
    pub current_color: Rgb,
    /// The brightness register's value.
    pub brightness: u8,
    /// The auto-brightness scheduler.
    pub auto_brightness: AutoBrightness,
}

impl DisplayState {
    /// The mirrored frame is a full frame.
    pub open spec fn wf(self) -> bool {
        self.current_graphics.wf()
    }

    /// The boot state: a blank frame, the boot color, full brightness, and
    /// auto-brightness enabled on its default interval.
    pub fn new(now_ms: u64) -> (d: DisplayState)
        ensures
            d.wf(),
            forall|i: int|
                0 <= i < d.current_graphics.view().len() ==> d.current_graphics.view()[i]
                    == Rgb::black_spec(),
            d.current_color == (Rgb { r: 128, g: 0, b: 128 }),
            d.brightness == BOOT_BRIGHTNESS,
            d.auto_brightness == (AutoBrightness {
                enabled: true,
                last_check_ms: now_ms,
                next_check_interval_s: AUTO_CHECK_DEFAULT_S,
                temp_disable: false,
            }),
    {
        DisplayState {
            current_graphics: Frame::new(),
            current_color: Rgb::boot_color(),
            brightness: BOOT_BRIGHTNESS,
            auto_brightness: AutoBrightness::new(now_ms),
        }
    }

    /// The current brightness.
    pub fn get_brightness(&self) -> (r: u8)
        ensures
            r == self.brightness,
    {
        self.brightness
    }

    /// The current active color.
    pub fn get_color(&self) -> (r: Rgb)
        ensures
            r == self.current_color,
    {
        self.current_color
    }

    /// Set the brightness and decide the auto-brightness switch it implies:
    /// waking the display from zero re-enables auto-brightness, turning it
    /// off to zero disables it. The caller re-pushes the mirrored frame and
    /// applies the returned switch.
    pub fn set_brightness(&mut self, value: u8) -> (auto_switch: Option<bool>)
        requires
            old(self).wf(),
        ensures
            final(self).wf(),
            final(self).brightness == value,
            final(self).current_color == old(self).current_color,
            final(self).current_graphics == old(self).current_graphics,
            final(self).auto_brightness == old(self).auto_brightness,
            auto_switch == spec_auto_after_set(old(self).brightness, value),
    {
        let auto_switch = crate::brightness::auto_after_set(self.brightness, value);
        self.brightness = value;
        auto_switch
    }

    /// Apply an auto-brightness switch: enabling returns the scheduler to
    /// its default interval.
    pub fn set_auto_brightness(&mut self, enabled: bool)
        requires
            old(self).wf(),
        ensures
            final(self).wf(),
            final(self).auto_brightness.enabled == enabled,
            enabled ==> final(self).auto_brightness.next_check_interval_s == AUTO_CHECK_DEFAULT_S
                && !final(self).auto_brightness.temp_disable,
            !enabled ==> final(self).auto_brightness == (AutoBrightness {
                enabled: false,
                ..old(self).auto_brightness
            }),
            final(self).brightness == old(self).brightness,
            final(self).current_color == old(self).current_color,
            final(self).current_graphics == old(self).current_graphics,
    {
        self.auto_brightness.enabled = enabled;
        if enabled {
            self.auto_brightness.set_default_checks();
        }
    }

    /// The auto-brightness state after the composite toggle gesture.
    pub fn toggled_auto(&self) -> (r: bool)
        ensures
            r == !self.auto_brightness.enabled,
    {
        !self.auto_brightness.enabled
    }

    /// Set the active color: the mirrored frame has every pixel of the old
    /// color repainted, so what is on the matrix follows the change, and
    /// the new color is handed back for the broadcast channel.
    pub fn set_color(&mut self, color: Rgb) -> (broadcast: Rgb)
        requires
            old(self).wf(),
        ensures
            final(self).wf(),
            broadcast == color,
            final(self).current_color == color,
            final(self).brightness == old(self).brightness,
            forall|i: int|
                0 <= i < final(self).current_graphics.view().len() ==> final(self).current_graphics.view()[i] == (if old(self).current_graphics.view()[i] == old(self).current_color {
                    color
                } else {
                    old(self).current_graphics.view()[i]
                }),
    {
        let old_color = self.current_color;
        self.current_color = color;
        self.current_graphics.replace_color_with_new(old_color, color);
        color
    }

    /// Mirror a newly pushed frame.
    pub fn set_graphics(&mut self, frame: Frame)
        requires
            old(self).wf(),
            frame.wf(),
        ensures
            final(self).wf(),
            final(self).current_graphics == frame,
            final(self).current_color == old(self).current_color,
            final(self).brightness == old(self).brightness,
    {
        self.current_graphics = frame;
    }
}

} // verus!
