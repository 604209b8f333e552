//! The clock app's logic: the civil time the firmware keeps, the date and
//! day strings it shows, the clock face composition, and what its button
//! gestures do.
//!
//! Converting an epoch instant to calendar fields — time zone and daylight
//! saving included — is the one computation delegated to an outside crate;
//! everything downstream of the conversion is verified on plain values.

use chrono::{Datelike, Timelike};

use vstd::prelude::*;

use crate::apps::ClockEffect;
use crate::buttons::ButtonPress;
use crate::color::Rgb;
use crate::fonts::{digit_on, draw_digit, DIGIT_WIDTH};
use crate::frame::Frame;
use crate::parse::{spec_two_digit_string, spec_u8_string, two_digit_string, u8_to_string};
use crate::{DISPLAY_HEIGHT, DISPLAY_WIDTH};

verus! {

/// Seconds until the next NTP attempt after a success.
pub const NTP_OK_RETRY_S: u64 = 3600;

/// Seconds until the next NTP attempt after a failure.
pub const NTP_ERR_RETRY_S: u64 = 10;

/// Minimum display duration of the date shown on a short press.
pub const DATE_SHOW_MS: u64 = 2000;

/// A civil instant in the firmware's fixed time zone.
#[derive(Clone, Copy, PartialEq, Eq, Structural, Debug)]
pub struct Civil {
    /// Calendar year.
    pub year: i32,
    /// Calendar month, one-based.
    pub month: u8,
    /// Day of the month, one-based.
    pub day: u8,
    /// Day of the week, zero for Monday through six for Sunday.
    pub weekday: u8,
    /// Hour of the day.
    pub hour: u8,
    /// Minute of the hour.
    pub minute: u8,
    /// Second of the minute.
    pub second: u8,
}

impl Civil {
    /// Calendar fields are in range.
    pub open spec fn wf(self) -> bool {
        &&& 1 <= self.month <= 12
        &&& 1 <= self.day <= 31
        &&& self.weekday < 7
        &&& self.hour < 24
        &&& self.minute < 60
        &&& self.second < 60
    }
}

/// The civil time, in the firmware's fixed time zone, of an instant given
/// as milliseconds since the epoch.
pub uninterp spec fn civil_of(epoch_ms: u64) -> Civil;

/// Relies on chrono's `DateTime::from_timestamp` and chrono-tz's
/// Europe/London table: the calendar fields of an epoch instant are a
/// function of that instant alone, and chrono keeps each field within its
/// calendar range.
#[verifier::external_body]
pub fn civil_from_epoch_ms(epoch_ms: u64) -> (c: Civil)
    ensures
        c == civil_of(epoch_ms),
        c.wf(),
{
    let secs = (epoch_ms / 1000) as i64;
    let nanos = ((epoch_ms % 1000) as u32) * 1000000;
    let utc = chrono::DateTime::from_timestamp(secs, nanos).unwrap_or(chrono::DateTime::UNIX_EPOCH);
    let dt = utc.with_timezone(&chrono_tz::GB);
    Civil {
        year: dt.year(),
        month: dt.month() as u8,
        day: dt.day() as u8,
        weekday: dt.weekday().num_days_from_monday() as u8,
        hour: dt.hour() as u8,
        minute: dt.minute() as u8,
        second: dt.second() as u8,
    }
}

/// The time state an NTP synchronisation updates: the epoch instant the
/// monotonic clock started at, so that the current time is always the base
/// plus the monotonic elapsed time.
pub struct Time {
    /// Epoch milliseconds at monotonic zero.
    pub base_ms: u64,
}

impl Time {
    /// Before the first synchronisation the clock reads the epoch itself.
    pub fn new() -> (t: Time)
        ensures
            t.base_ms == 0,
    {
        Time { base_ms: 0 }
    }

    /// Record a synchronised time: `epoch_ms` is the instant now, and
    /// `elapsed_ms` the monotonic clock's current reading, so the base is
    /// their difference.
    pub fn set_time(&mut self, epoch_ms: u64, elapsed_ms: u64)
        requires
            elapsed_ms <= epoch_ms,
        ensures
            final(self).base_ms == epoch_ms - elapsed_ms,
    {
        self.base_ms = epoch_ms - elapsed_ms;
    }

    /// The current epoch instant, given the monotonic clock's reading.
    pub fn now_ms(&self, elapsed_ms: u64) -> (r: u64)
        requires
            self.base_ms + elapsed_ms <= u64::MAX,
        ensures
            r == self.base_ms + elapsed_ms,
    {
        self.base_ms + elapsed_ms
    }

    /// The current civil time, given the monotonic clock's reading.
    pub fn now_civil(&self, elapsed_ms: u64) -> (c: Civil)
        requires
            self.base_ms + elapsed_ms <= u64::MAX,
        ensures
            c == civil_of((self.base_ms + elapsed_ms) as u64),
            c.wf(),
    {
        civil_from_epoch_ms(self.base_ms + elapsed_ms)
    }
}

/// Seconds to sleep before the next NTP request: an hour after a success, a
/// short retry after a failure.
pub fn ntp_retry_delay_s(ok: bool) -> (r: u64)
    ensures
        ok ==> r == NTP_OK_RETRY_S,
        !ok ==> r == NTP_ERR_RETRY_S,
{
    if ok {
        NTP_OK_RETRY_S
    } else {
        NTP_ERR_RETRY_S
    }
}

/// The three-letter weekday name, Monday first.
pub open spec fn spec_weekday_name(w: u8) -> Seq<char> {
    if w == 0 {
        "Mon"@
    } else if w == 1 {
        "Tue"@
    } else if w == 2 {
        "Wed"@
    } else if w == 3 {
        "Thu"@
    } else if w == 4 {
        "Fri"@
    } else if w == 5 {
        "Sat"@
    } else {
        "Sun"@
    }
}

/// The three-letter month name, one-based; out-of-range months show as
/// `..`, the firmware's fallback.
pub open spec fn spec_month_name(m: u8) -> Seq<char> {
    if m == 1 {
        "Jan"@
    } else if m == 2 {
        "Feb"@
    } else if m == 3 {
        "Mar"@
    } else if m == 4 {
        "Apr"@
    } else if m == 5 {
        "May"@
    } else if m == 6 {
        "Jun"@
    } else if m == 7 {
        "Jul"@
    } else if m == 8 {
        "Aug"@
    } else if m == 9 {
        "Sep"@
    } else if m == 10 {
        "Oct"@
    } else if m == 11 {
        "Nov"@
    } else if m == 12 {
        "Dec"@
    } else {
        ".."@
    }
}

/// The three-letter weekday name as a string slice.
fn weekday_name(w: u8) -> (r: &'static str)
    ensures
        r@ == spec_weekday_name(w),
{
    if w == 0 {
        "Mon"
    } else if w == 1 {
        "Tue"
    } else if w == 2 {
        "Wed"
    } else if w == 3 {
        "Thu"
    } else if w == 4 {
        "Fri"
    } else if w == 5 {
        "Sat"
    } else {
        "Sun"
    }
}

/// The three-letter month name as a string slice.
fn month_name(m: u8) -> (r: &'static str)
    ensures
        r@ == spec_month_name(m),
{
    if m == 1 {
        "Jan"
    } else if m == 2 {
        "Feb"
    } else if m == 3 {
        "Mar"
    } else if m == 4 {
        "Apr"
    } else if m == 5 {
        "May"
    } else if m == 6 {
        "Jun"
    } else if m == 7 {
        "Jul"
    } else if m == 8 {
        "Aug"
    } else if m == 9 {
        "Sep"
    } else if m == 10 {
        "Oct"
    } else if m == 11 {
        "Nov"
    } else if m == 12 {
        "Dec"
    } else {
        ".."
    }
}

/// The date line a short press shows: weekday, day of the month without
/// padding, month name, with a trailing space.
pub open spec fn spec_date_str(c: Civil) -> Seq<char> {
    spec_weekday_name(c.weekday) + " "@ + spec_u8_string(c.day) + " "@ + spec_month_name(c.month)
        + " "@
}

/// The clock app: the effect its digits are rendered with.
pub struct ClockApp {
    /// The active clock effect.
    pub effect: ClockEffect,
}

/// What a button gesture on the active clock app does.
#[derive(Clone, Copy, PartialEq, Eq, Structural, Debug)]
pub enum ClockAction {
    /// Show the date line at once, preempting the display.
    ShowDate,
    /// Switch the clock to the given effect.
    SetEffect(ClockEffect),
    /// Nothing.
    NoAction,
}

impl ClockApp {
    /// A fresh clock app, on the plain color effect.
    pub fn new() -> (a: ClockApp)
        ensures
            a.effect is Color,
    {
        ClockApp { effect: ClockEffect::Color }
    }

    /// Set the active effect.
    pub fn set_effect(&mut self, effect: ClockEffect)
        ensures
            final(self).effect == effect,
    {
        self.effect = effect;
    }

    /// Decide what a gesture does: a short press shows the date, a double
    /// press toggles the effect, a long press does nothing.
    pub fn button_action(&self, press: ButtonPress) -> (r: ClockAction)
        ensures
            press is Short ==> r is ShowDate,
            press is Long ==> r is NoAction,
            press is Double ==> r == ClockAction::SetEffect(
                if self.effect is Color {
                    ClockEffect::Rainbow
                } else {
                    ClockEffect::Color
                },
            ),
    {
        match press {
            ButtonPress::Short => ClockAction::ShowDate,
            ButtonPress::Long => ClockAction::NoAction,
            ButtonPress::Double => {
                let new = match self.effect {
                    ClockEffect::Color => ClockEffect::Rainbow,
                    ClockEffect::Rainbow => ClockEffect::Color,
                };
                ClockAction::SetEffect(new)
            },
        }
    }

    /// Format the date line for a civil instant.
    pub fn get_date_str(&self, c: &Civil) -> (out: String)
        ensures
            out@ == spec_date_str(*c),
    {
        let mut out = String::from_str(weekday_name(c.weekday));
        out.append(" ");
        let day = u8_to_string(c.day);
        out.append(day.as_str());
        out.append(" ");
        out.append(month_name(c.month));
        out.append(" ");
        proof {
            assert(out@ =~= spec_date_str(*c));
        }
        out
    }

    /// The date line for the current instant: the civil conversion applied
    /// to the synchronised time, formatted as the date line.
    pub fn date_line_now(&self, time: &Time, elapsed_ms: u64) -> (out: String)
        requires
            time.base_ms + elapsed_ms <= u64::MAX,
        ensures
            out@ == spec_date_str(civil_of((time.base_ms + elapsed_ms) as u64)),
    {
        let civil = time.now_civil(elapsed_ms);
        self.get_date_str(&civil)
    }

    /// Format the day of the month as exactly two digits, zero-padded.
    pub fn get_day_str(&self, c: &Civil) -> (out: String)
        requires
            c.wf(),
        ensures
            out@ == spec_two_digit_string(c.day),
    {
        two_digit_string(c.day)
    }
}

/// The grey the clock's colons and date panel are drawn in.
pub open spec fn spec_panel_grey() -> Rgb {
    Rgb { r: 100, g: 100, b: 100 }
}

/// Draw a colon at column `x`: two grey dots, each two pixels tall.
pub fn draw_colon(frame: &mut Frame, x: usize)
    requires
        old(frame).wf(),
        x < DISPLAY_WIDTH,
    ensures
        final(frame).wf(),
        forall|xx: int, yy: int|
            0 <= xx < DISPLAY_WIDTH && 0 <= yy < DISPLAY_HEIGHT ==> final(frame).at(xx, yy) == (
            if xx == x && (yy == 3 || yy == 4 || yy == 7 || yy == 8) {
                spec_panel_grey()
            } else {
                old(frame).at(xx, yy)
            }),
{
    let grey = Rgb::new(100, 100, 100);
    frame.fill_rect(x, 3, 1, 2, grey);
    frame.fill_rect(x, 7, 1, 2, grey);
}

/// Draw `num` as two digits, zero-padded, the tens cell starting at column
/// `start` and the ones cell one digit width and a gap further right.
pub fn draw_numbers(frame: &mut Frame, num: u8, start: usize, color: Rgb)
    requires
        old(frame).wf(),
        num < 100,
        start + DIGIT_WIDTH + 7 <= DISPLAY_WIDTH,
    ensures
        final(frame).wf(),
        forall|x: int, y: int|
            0 <= x < DISPLAY_WIDTH && 0 <= y < DISPLAY_HEIGHT ==> final(frame).at(x, y) == (
            if start <= x < start + DIGIT_WIDTH && digit_on((num / 10) as u8, x - start, y) {
                color
            } else if start + 7 <= x < start + 7 + DIGIT_WIDTH && digit_on(
                (num % 10) as u8,
                x - start - 7,
                y,
            ) {
                color
            } else {
                old(frame).at(x, y)
            }),
{
    draw_digit(frame, num / 10, start, color);
    draw_digit(frame, num % 10, start + 7, color);
}

/// The color of each clock-face pixel: the date panel on the right (red
/// band above grey), the two grey colons, the six time digits in the given
/// color, black everywhere else.
pub open spec fn spec_clock_pixel(hour: u8, minute: u8, second: u8, color: Rgb, x: int, y: int)
    -> Rgb {
    if 42 <= x && y < 3 {
        Rgb { r: 255, g: 0, b: 0 }
    } else if 42 <= x {
        spec_panel_grey()
    } else if (x == 13 || x == 27) && (y == 3 || y == 4 || y == 7 || y == 8) {
        spec_panel_grey()
    } else if 0 <= x < 6 && digit_on((hour / 10) as u8, x, y) {
        color
    } else if 7 <= x < 13 && digit_on((hour % 10) as u8, x - 7, y) {
        color
    } else if 14 <= x < 20 && digit_on((minute / 10) as u8, x - 14, y) {
        color
    } else if 21 <= x < 27 && digit_on((minute % 10) as u8, x - 21, y) {
        color
    } else if 28 <= x < 34 && digit_on((second / 10) as u8, x - 28, y) {
        color
    } else if 35 <= x < 41 && digit_on((second % 10) as u8, x - 35, y) {
        color
    } else {
        Rgb::black_spec()
    }
}

/// Minimum display duration of one plain-color clock frame.
pub const CLOCK_FRAME_MS: u64 = 250;

/// One pass of the clock app's render loop on the plain color effect: the
/// composed face as an app-origin render request, shown for one clock
/// frame's duration and sent with queue replacement so only the newest face
/// is ever pending.
pub fn clock_frame_request(hour: u8, minute: u8, second: u8, color: Rgb) -> (r:
    crate::request::GraphicsRequest)
    requires
        hour < 100,
        minute < 100,
        second < 100,
    ensures
        r.wf(),
        r.min_ms == CLOCK_FRAME_MS,
        r.origin is App,
        r.first_shown is None,
        forall|x: int, y: int|
            0 <= x < DISPLAY_WIDTH && 0 <= y < DISPLAY_HEIGHT ==> r.frame.at(x, y)
                == spec_clock_pixel(hour, minute, second, color, x, y),
{
    let mut frame = Frame::new();
    compose_clock_frame(&mut frame, hour, minute, second, color);
    let ghost composed = frame;
    let r = crate::request::GraphicsRequest::from_app(frame, CLOCK_FRAME_MS);
    proof {
        assert forall|x: int, y: int|
            0 <= x < DISPLAY_WIDTH && 0 <= y < DISPLAY_HEIGHT implies r.frame.at(x, y)
            == spec_clock_pixel(hour, minute, second, color, x, y) by {
            assert(composed.at(x, y) == spec_clock_pixel(hour, minute, second, color, x, y));
            assert(r.frame.view() == composed.view());
            assert(r.frame.at(x, y) == r.frame.view()[crate::frame::pix(x, y)]);
            assert(composed.at(x, y) == composed.view()[crate::frame::pix(x, y)]);
        }
    }
    r
}

/// Compose the clock face: hours, minutes and seconds as zero-padded digit
/// pairs separated by colons, and the date panel bands on the right. The
/// day numerals inside the panel ride on an external font and are drawn
/// outside the core.
pub fn compose_clock_frame(frame: &mut Frame, hour: u8, minute: u8, second: u8, color: Rgb)
    requires
        old(frame).wf(),
        hour < 100,
        minute < 100,
        second < 100,
    ensures
        final(frame).wf(),
        forall|x: int, y: int|
            0 <= x < DISPLAY_WIDTH && 0 <= y < DISPLAY_HEIGHT ==> final(frame).at(x, y)
                == spec_clock_pixel(hour, minute, second, color, x, y),
{
    frame.clear_all();
    let ghost f0 = *frame;
    draw_numbers(frame, hour, 0, color);
    let ghost f1 = *frame;
    draw_numbers(frame, minute, 14, color);
    let ghost f2 = *frame;
    draw_numbers(frame, second, 28, color);
    let ghost f3 = *frame;
    draw_colon(frame, 13);
    let ghost f4 = *frame;
    draw_colon(frame, 27);
    let ghost f5 = *frame;
    let grey = Rgb::new(100, 100, 100);
    let red = Rgb::new(255, 0, 0);
    frame.fill_rect(42, 3, 11, 8, grey);
    let ghost f6 = *frame;
    frame.fill_rect(42, 0, 11, 3, red);
    proof {
        assert forall|x: int, y: int|
            0 <= x < DISPLAY_WIDTH && 0 <= y < DISPLAY_HEIGHT implies frame.at(x, y)
            == spec_clock_pixel(hour, minute, second, color, x, y) by {
            crate::frame::lemma_pix_bounds(x, y);
            assert(f0.view()[crate::frame::pix(x, y)] == Rgb::black_spec());
            assert(f0.at(x, y) == Rgb::black_spec());
            assert(f1.at(x, y) == (if 0 <= x < 6 && digit_on((hour / 10) as u8, x, y) {
                color
            } else if 7 <= x < 13 && digit_on((hour % 10) as u8, x - 7, y) {
                color
            } else {
                f0.at(x, y)
            }));
            assert(f2.at(x, y) == (if 14 <= x < 20 && digit_on((minute / 10) as u8, x - 14, y) {
                color
            } else if 21 <= x < 27 && digit_on((minute % 10) as u8, x - 21, y) {
                color
            } else {
                f1.at(x, y)
            }));
            assert(f3.at(x, y) == (if 28 <= x < 34 && digit_on((second / 10) as u8, x - 28, y) {
                color
            } else if 35 <= x < 41 && digit_on((second % 10) as u8, x - 35, y) {
                color
            } else {
                f2.at(x, y)
            }));
            assert(f4.at(x, y) == (if x == 13 && (y == 3 || y == 4 || y == 7 || y == 8) {
                spec_panel_grey()
            } else {
                f3.at(x, y)
            }));
            assert(f5.at(x, y) == (if x == 27 && (y == 3 || y == 4 || y == 7 || y == 8) {
                spec_panel_grey()
            } else {
                f4.at(x, y)
            }));
            assert(f6.at(x, y) == (if 42 <= x < 53 && 3 <= y < 11 {
                spec_panel_grey()
            } else {
                f5.at(x, y)
            }));
            assert(frame.at(x, y) == (if 42 <= x < 53 && 0 <= y < 3 {
                Rgb { r: 255, g: 0, b: 0 }
            } else {
                f6.at(x, y)
            }));
        }
    }
}

} // verus!
