//! Time of day, angles and the day/night cycle settings.
use vstd::prelude::*;

use vstd::string::StringSliceAdditionalSpecFns;

use vstd::utf8::{encode_utf8, is_ascii_chars, is_ascii_chars_encode_utf8};

use crate::text::{decimal, decimal_pad2, digit_char, push_char, push_decimal_pad2};

verus! {

/// Time of day with hour, minute and second plus a cached "HH:MM" caption.
#[derive(Clone, Debug)]
pub struct TimeOfDay {
    hour: u8,
    min: u8,
    sec: u8,
    caption: String,
}

/// An angle in whole degrees.
#[derive(Clone, Copy, Debug)]
pub struct Angle(u16);

/// The "HH:MM" caption of a time (each part zero padded to two digits).
pub open spec fn caption_of(hour: nat, min: nat) -> Seq<char> {
    decimal_pad2(hour) + seq![':'] + decimal_pad2(min)
}

/// Why a text is not read as a time of day.
pub enum TimeTextFault {
    Hour,
    Minutes,
    Format,
}

/// An ASCII decimal digit.
pub open spec fn is_digit(b: u8) -> bool {
    48 <= b <= 57
}

/// Value of a two byte decimal text as read by `u8::from_str`: two digits, or
/// a plus sign followed by one digit.
pub open spec fn parse_two_bytes(b0: u8, b1: u8) -> Option<u8> {
    if b0 == 43 && is_digit(b1) {
        Some((b1 - 48) as u8)
    } else if is_digit(b0) && is_digit(b1) {
        Some((10 * (b0 - 48) + (b1 - 48)) as u8)
    } else {
        None
    }
}

/// A byte that continues a multi byte UTF-8 character.
pub open spec fn is_utf8_continuation(b: u8) -> bool {
    128 <= b < 192
}

impl TimeOfDay {
    pub closed spec fn spec_hour(self) -> u8 {
        self.hour
    }

    pub closed spec fn spec_min(self) -> u8 {
        self.min
    }

    pub closed spec fn spec_sec(self) -> u8 {
        self.sec
    }

    pub closed spec fn spec_caption(self) -> Seq<char> {
        self.caption@
    }

    /// Hour, minute and second are within a day and the caption is the
    /// "HH:MM" text of hour and minute.
    pub open spec fn wf(self) -> bool {
        &&& self.spec_hour() < 24
        &&& self.spec_min() < 60
        &&& self.spec_sec() < 60
        &&& self.spec_caption() == caption_of(self.spec_hour() as nat, self.spec_min() as nat)
    }

    /// Result of parsing `bytes` as "HH:mm" (any byte in the middle is
    /// accepted).
    pub open spec fn spec_parse(bytes: Seq<u8>) -> Result<(u8, u8), TimeTextFault> {
        if bytes.len() != 5 {
            Err(TimeTextFault::Format)
        } else {
            match parse_two_bytes(bytes[0], bytes[1]) {
                None => Err(TimeTextFault::Hour),
                Some(h) => match parse_two_bytes(bytes[3], bytes[4]) {
                    None => Err(TimeTextFault::Minutes),
                    Some(m) => if (h < 24 && m < 60) || (h == 24 && m == 0) {
                        Ok((h, m))
                    } else {
                        Err(TimeTextFault::Format)
                    },
                },
            }
        }
    }

    fn fmt(hour: u8, min: u8) -> (res: String)
        ensures
            res@ == caption_of(hour as nat, min as nat),
    {
        let mut res = String::new();
        push_decimal_pad2(&mut res, hour as u128);
        push_char(&mut res, ':');
        push_decimal_pad2(&mut res, min as u128);
        assert(res@ =~= caption_of(hour as nat, min as nat));
        res
    }

    /// A time with every part clamped to its range (hour up to 23, minutes
    /// and seconds up to 59).
    pub fn new(hours: u8, minutes: u8, seconds: u8) -> (res: TimeOfDay)
        ensures
            res.wf(),
            res.spec_hour() == (if hours < 23 { hours } else { 23 }),
            res.spec_min() == (if minutes < 59 { minutes } else { 59 }),
            res.spec_sec() == (if seconds < 59 { seconds } else { 59 }),
            res.spec_caption() == caption_of(res.spec_hour() as nat, res.spec_min() as nat),
    {
        let hour = if hours < 23 { hours } else { 23 };
        let min = if minutes < 59 { minutes } else { 59 };
        let sec = if seconds < 59 { seconds } else { 59 };
        TimeOfDay { caption: Self::fmt(hour, min), hour, sec, min }
    }

    /// Sets a new time; the caption is only rebuilt if any part changed.
    pub fn update_hms(&mut self, hour: u8, min: u8, sec: u8)
        requires
            old(self).wf(),
            hour < 24,
            min < 60,
            sec < 60,
        ensures
            final(self).wf(),
            final(self).spec_hour() == hour,
            final(self).spec_min() == min,
            final(self).spec_sec() == sec,
            final(self).spec_caption() == caption_of(hour as nat, min as nat),
    {
        if self.hour != hour || self.min != min || self.sec != sec {
            self.hour = hour;
            self.min = min;
            self.sec = sec;
            self.caption = Self::fmt(hour, min);
        }
    }

    /// The "HH:MM" caption.
    pub fn as_str(&self) -> (res: &str)
        ensures
            res@ == self.spec_caption(),
            self.wf() ==> res@ == caption_of(self.spec_hour() as nat, self.spec_min() as nat),
            self.wf() ==> res@.len() == 5,
    {
        proof {
            if self.wf() {
                lemma_pad2_digits(self.hour as nat);
                lemma_pad2_digits(self.min as nat);
            }
        }
        self.caption.as_str()
    }

    pub fn hour(&self) -> (res: u8)
        ensures
            res == self.spec_hour(),
    {
        self.hour
    }

    pub fn min(&self) -> (res: u8)
        ensures
            res == self.spec_min(),
    {
        self.min
    }

    pub fn sec(&self) -> (res: u8)
        ensures
            res == self.spec_sec(),
    {
        self.sec
    }

    fn parse_two(b0: u8, b1: u8) -> (res: Option<u8>)
        ensures
            res == parse_two_bytes(b0, b1),
    {
        if b0 == 43 && 48 <= b1 && b1 <= 57 {
            Some(b1 - 48)
        } else if 48 <= b0 && b0 <= 57 && 48 <= b1 && b1 <= 57 {
            Some(10 * (b0 - 48) + (b1 - 48))
        } else {
            None
        }
    }

    /// Reads a time written as "HH:mm"; "24:00" is accepted and, like every
    /// hour, clamped to 23. Seconds are zero.
    pub fn try_from(src: &str) -> (res: Result<TimeOfDay, String>)
        requires
            src.spec_bytes().len() == 5 ==> !is_utf8_continuation(src.spec_bytes()[2])
                && !is_utf8_continuation(src.spec_bytes()[3]),
        ensures
            match Self::spec_parse(src.spec_bytes()) {
                Ok((h, m)) => res matches Ok(t) && t.wf() && t.spec_hour() == (if h < 23 { h } else { 23 })
                    && t.spec_min() == m && t.spec_sec() == 0
                    && t.spec_caption() == caption_of(t.spec_hour() as nat, m as nat),
                Err(TimeTextFault::Hour) => res matches Err(e) && e@ == "could not parse hour"@,
                Err(TimeTextFault::Minutes) => res matches Err(e) && e@ == "could not parse minutes"@,
                Err(TimeTextFault::Format) => res matches Err(e) && e@ == "expected HH:mm. found: "@ + src@,
            },
    {
        let bytes = src.as_bytes();
        if bytes.len() == 5 {
            let hour = Self::parse_two(bytes[0], bytes[1]);
            if hour.is_none() {
                return Err(String::from_str("could not parse hour"));
            }
            let hour = hour.unwrap();
            let minutes = Self::parse_two(bytes[3], bytes[4]);
            if minutes.is_none() {
                return Err(String::from_str("could not parse minutes"));
            }
            let minutes = minutes.unwrap();
            if (hour < 24 && minutes < 60) || (hour == 24 && minutes == 0) {
                return Ok(TimeOfDay::new(hour, minutes, 0));
            }
        }
        let mut msg = String::from_str("expected HH:mm. found: ");
        msg.append(src);
        Err(msg)
    }
}

impl Angle {
    pub closed spec fn spec_value(self) -> u16 {
        self.0
    }

    pub fn new(value: u16) -> (res: Angle)
        ensures
            res.spec_value() == value,
    {
        Angle(value)
    }

    pub fn value(&self) -> (res: u16)
        ensures
            res == self.spec_value(),
    {
        self.0
    }
}

/// Current time of day and the settings of its automatic progression.
pub struct DayNightCycle {
    time: TimeOfDay,
    cycle_active: bool,
    cycle_speed: u16,
}

impl DayNightCycle {
    pub closed spec fn spec_time(self) -> TimeOfDay {
        self.time
    }

    pub closed spec fn spec_cycle_active(self) -> bool {
        self.cycle_active
    }

    pub closed spec fn spec_cycle_speed(self) -> u16 {
        self.cycle_speed
    }

    /// Starts at 14:30:00 with the cycle stopped.
    pub fn new() -> (res: DayNightCycle)
        ensures
            res.spec_time().wf(),
            res.spec_time().spec_hour() == 14,
            res.spec_time().spec_min() == 30,
            res.spec_time().spec_sec() == 0,
            !res.spec_cycle_active(),
            res.spec_cycle_speed() == 0,
    {
        DayNightCycle { time: TimeOfDay::new(14, 30, 0), cycle_active: false, cycle_speed: 0 }
    }

    pub fn time_of_day(&self) -> (res: &TimeOfDay)
        ensures
            *res == self.spec_time(),
    {
        &self.time
    }

    pub fn time_of_day_mut(&mut self) -> (res: &mut TimeOfDay)
        ensures
            *res == old(self).spec_time(),
            final(self).spec_time() == *final(res),
            final(self).spec_cycle_active() == old(self).spec_cycle_active(),
            final(self).spec_cycle_speed() == old(self).spec_cycle_speed(),
    {
        &mut self.time
    }

    pub fn cycle_active(&self) -> (res: bool)
        ensures
            res == self.spec_cycle_active(),
    {
        self.cycle_active
    }

    pub fn cycle_speed(&self) -> (res: u16)
        ensures
            res == self.spec_cycle_speed(),
    {
        self.cycle_speed
    }

    pub fn activate_cycle(&mut self, activate: bool)
        ensures
            final(self).spec_cycle_active() == activate,
            final(self).spec_time() == old(self).spec_time(),
            final(self).spec_cycle_speed() == old(self).spec_cycle_speed(),
    {
        self.cycle_active = activate;
    }

    /// Sets the speed, limited to 100.
    pub fn set_cycle_speed(&mut self, speed: u16)
        ensures
            final(self).spec_cycle_speed() == (if speed < 100 { speed } else { 100 }),
            final(self).spec_time() == old(self).spec_time(),
            final(self).spec_cycle_active() == old(self).spec_cycle_active(),
    {
        self.cycle_speed = if speed < 100 { speed } else { 100 };
    }
}

/// A number below 100 pads to its two decimal digits.
proof fn lemma_pad2_digits(n: nat)
    requires
        n < 100,
    ensures
        decimal_pad2(n) == seq![digit_char(n / 10), digit_char(n % 10)],
{
    reveal_with_fuel(decimal, 2);
    if n < 10 {
        assert(decimal_pad2(n) =~= seq![digit_char(n / 10), digit_char(n % 10)]);
    } else {
        assert(decimal(n) =~= seq![digit_char(n / 10), digit_char(n % 10)]);
    }
}

/// The byte of a decimal digit character.
proof fn lemma_digit_byte(d: nat)
    requires
        d < 10,
    ensures
        digit_char(d) as u8 == 48 + d,
        '\0' <= digit_char(d) <= '\u{7f}',
{
}

/// The caption of a valid time, read back as "HH:mm", gives its hour and
/// minute.
pub proof fn law_caption_reads_back(t: TimeOfDay)
    requires
        t.wf(),
    ensures
        TimeOfDay::spec_parse(encode_utf8(t.spec_caption())) == Ok::<(u8, u8), TimeTextFault>((t.spec_hour(), t.spec_min())),
{
    let h = t.spec_hour() as nat;
    let m = t.spec_min() as nat;
    lemma_pad2_digits(h);
    lemma_pad2_digits(m);
    lemma_digit_byte(h / 10);
    lemma_digit_byte(h % 10);
    lemma_digit_byte(m / 10);
    lemma_digit_byte(m % 10);
    let chars = t.spec_caption();
    assert(chars =~= seq![digit_char(h / 10), digit_char(h % 10), ':', digit_char(m / 10), digit_char(m % 10)]);
    assert(is_ascii_chars(chars));
    is_ascii_chars_encode_utf8(chars);
    let bytes = encode_utf8(chars);
    assert(bytes[0] == chars[0] as u8);
    assert(bytes[1] == chars[1] as u8);
    assert(bytes[3] == chars[3] as u8);
    assert(bytes[4] == chars[4] as u8);
}

impl Default for DayNightCycle {
    /// 14:30:00 with the cycle stopped.
    fn default() -> (res: DayNightCycle)
        ensures
            res.spec_time().wf(),
            res.spec_time().spec_hour() == 14,
            res.spec_time().spec_min() == 30,
            res.spec_time().spec_sec() == 0,
            !res.spec_cycle_active(),
            res.spec_cycle_speed() == 0,
    {
        DayNightCycle::new()
    }
}

/// Settings of the sun: its time of day and cycle, and the plane it moves on.
pub struct SunSettings {
    time: TimeOfDay,
    cycle_active: bool,
    cycle_speed: u16,
    /// base rotation of the sun's plane
    yaw: Angle,
    /// axial tilt of the sun's plane
    tilt: Angle,
    height: u16,
    show_dbg_mesh: bool,
}

impl SunSettings {
    pub closed spec fn spec_time(self) -> TimeOfDay {
        self.time
    }

    pub closed spec fn spec_cycle_active(self) -> bool {
        self.cycle_active
    }

    pub closed spec fn spec_cycle_speed(self) -> u16 {
        self.cycle_speed
    }

    pub closed spec fn spec_yaw(self) -> u16 {
        self.yaw.0
    }

    pub closed spec fn spec_tilt(self) -> u16 {
        self.tilt.0
    }

    pub closed spec fn spec_height(self) -> u16 {
        self.height
    }

    pub closed spec fn spec_show_debug_mesh(self) -> bool {
        self.show_dbg_mesh
    }

    /// All settings of `self` but the time.
    pub open spec fn same_but_time(self, other: SunSettings) -> bool {
        &&& self.spec_cycle_active() == other.spec_cycle_active()
        &&& self.spec_cycle_speed() == other.spec_cycle_speed()
        &&& self.spec_yaw() == other.spec_yaw()
        &&& self.spec_tilt() == other.spec_tilt()
        &&& self.spec_height() == other.spec_height()
        &&& self.spec_show_debug_mesh() == other.spec_show_debug_mesh()
    }

    /// Noon, cycle stopped, the plane tilted by 23 degrees (about the earth's
    /// axial tilt).
    pub fn new() -> (res: SunSettings)
        ensures
            res.spec_time().wf(),
            res.spec_time().spec_hour() == 12,
            res.spec_time().spec_min() == 0,
            res.spec_time().spec_sec() == 0,
            !res.spec_cycle_active(),
            res.spec_cycle_speed() == 0,
            res.spec_yaw() == 0,
            res.spec_tilt() == 23,
            res.spec_height() == 0,
            !res.spec_show_debug_mesh(),
    {
        SunSettings {
            time: TimeOfDay::new(12, 0, 0),
            cycle_active: false,
            cycle_speed: 0,
            yaw: Angle::new(0),
            tilt: Angle::new(23),
            height: 0,
            show_dbg_mesh: false,
        }
    }

    pub fn time_of_day(&self) -> (res: &TimeOfDay)
        ensures
            *res == self.spec_time(),
    {
        &self.time
    }

    /// The time of day, to be changed in place.
    pub fn time_of_day_mut(&mut self) -> (res: &mut TimeOfDay)
        ensures
            *res == old(self).spec_time(),
            final(self).spec_time() == *final(res),
            final(self).same_but_time(*old(self)),
    {
        &mut self.time
    }

    pub fn daylight_cycle_active(&self) -> (res: bool)
        ensures
            res == self.spec_cycle_active(),
    {
        self.cycle_active
    }

    pub fn daylight_cycle_speed(&self) -> (res: u16)
        ensures
            res == self.spec_cycle_speed(),
    {
        self.cycle_speed
    }

    pub fn plane_yaw(&self) -> (res: Angle)
        ensures
            res.spec_value() == self.spec_yaw(),
    {
        self.yaw
    }

    pub fn plane_tilt(&self) -> (res: Angle)
        ensures
            res.spec_value() == self.spec_tilt(),
    {
        self.tilt
    }

    pub fn plane_height(&self) -> (res: u16)
        ensures
            res == self.spec_height(),
    {
        self.height
    }

    pub fn show_debug_mesh(&self) -> (res: bool)
        ensures
            res == self.spec_show_debug_mesh(),
    {
        self.show_dbg_mesh
    }

    pub fn set_plane_tilt(&mut self, tilt: u16)
        ensures
            final(self).spec_tilt() == tilt,
            final(self).spec_time() == old(self).spec_time(),
            final(self).spec_cycle_active() == old(self).spec_cycle_active(),
            final(self).spec_cycle_speed() == old(self).spec_cycle_speed(),
            final(self).spec_yaw() == old(self).spec_yaw(),
            final(self).spec_height() == old(self).spec_height(),
            final(self).spec_show_debug_mesh() == old(self).spec_show_debug_mesh(),
    {
        self.tilt = Angle::new(tilt);
    }

    pub fn set_plane_yaw(&mut self, yaw: u16)
        ensures
            final(self).spec_yaw() == yaw,
            final(self).spec_time() == old(self).spec_time(),
            final(self).spec_cycle_active() == old(self).spec_cycle_active(),
            final(self).spec_cycle_speed() == old(self).spec_cycle_speed(),
            final(self).spec_tilt() == old(self).spec_tilt(),
            final(self).spec_height() == old(self).spec_height(),
            final(self).spec_show_debug_mesh() == old(self).spec_show_debug_mesh(),
    {
        self.yaw = Angle::new(yaw);
    }

    pub fn set_plane_height(&mut self, height: u16)
        ensures
            final(self).spec_height() == height,
            final(self).spec_time() == old(self).spec_time(),
            final(self).spec_cycle_active() == old(self).spec_cycle_active(),
            final(self).spec_cycle_speed() == old(self).spec_cycle_speed(),
            final(self).spec_yaw() == old(self).spec_yaw(),
            final(self).spec_tilt() == old(self).spec_tilt(),
            final(self).spec_show_debug_mesh() == old(self).spec_show_debug_mesh(),
    {
        self.height = height;
    }

    pub fn toggle_debug_mesh(&mut self)
        ensures
            final(self).spec_show_debug_mesh() == !old(self).spec_show_debug_mesh(),
            final(self).spec_time() == old(self).spec_time(),
            final(self).spec_cycle_active() == old(self).spec_cycle_active(),
            final(self).spec_cycle_speed() == old(self).spec_cycle_speed(),
            final(self).spec_yaw() == old(self).spec_yaw(),
            final(self).spec_tilt() == old(self).spec_tilt(),
            final(self).spec_height() == old(self).spec_height(),
    {
        self.show_dbg_mesh = !self.show_dbg_mesh;
    }

    pub fn activate_daylight_cycle(&mut self, activate: bool)
        ensures
            final(self).spec_cycle_active() == activate,
            final(self).spec_time() == old(self).spec_time(),
            final(self).spec_cycle_speed() == old(self).spec_cycle_speed(),
            final(self).spec_yaw() == old(self).spec_yaw(),
            final(self).spec_tilt() == old(self).spec_tilt(),
            final(self).spec_height() == old(self).spec_height(),
            final(self).spec_show_debug_mesh() == old(self).spec_show_debug_mesh(),
    {
        self.cycle_active = activate;
    }

    /// Sets the speed of the daylight cycle, limited to 100.
    pub fn set_daylight_cycle_speed(&mut self, speed: u16)
        ensures
            final(self).spec_cycle_speed() == (if speed < 100 { speed } else { 100 }),
            final(self).spec_time() == old(self).spec_time(),
            final(self).spec_cycle_active() == old(self).spec_cycle_active(),
            final(self).spec_yaw() == old(self).spec_yaw(),
            final(self).spec_tilt() == old(self).spec_tilt(),
            final(self).spec_height() == old(self).spec_height(),
            final(self).spec_show_debug_mesh() == old(self).spec_show_debug_mesh(),
    {
        self.cycle_speed = if speed < 100 { speed } else { 100 };
    }
}

impl Default for SunSettings {
    fn default() -> (res: SunSettings)
        ensures
            res.spec_time().wf(),
            res.spec_time().spec_hour() == 12,
            res.spec_time().spec_min() == 0,
            res.spec_time().spec_sec() == 0,
            !res.spec_cycle_active(),
            res.spec_cycle_speed() == 0,
            res.spec_yaw() == 0,
            res.spec_tilt() == 23,
            res.spec_height() == 0,
            !res.spec_show_debug_mesh(),
    {
        SunSettings::new()
    }
}

/// A change of the sun settings requested in the GUI.
#[derive(Debug, Clone, Copy, PartialEq, Eq, Structural)]
pub enum SunSetting {
    SetPlaneTilt(u16),
    SetPlaneYaw(u16),
    SetPlaneHeight(u16),
    ToggleDebugMesh,
}

/// Applies a requested change to the sun settings.
pub fn update_sun_settings(action: &SunSetting, sun: &mut SunSettings)
    ensures
        final(sun).spec_time() == old(sun).spec_time(),
        final(sun).spec_cycle_active() == old(sun).spec_cycle_active(),
        final(sun).spec_cycle_speed() == old(sun).spec_cycle_speed(),
        final(sun).spec_tilt() == (match *action {
            SunSetting::SetPlaneTilt(v) => v,
            _ => old(sun).spec_tilt(),
        }),
        final(sun).spec_yaw() == (match *action {
            SunSetting::SetPlaneYaw(v) => v,
            _ => old(sun).spec_yaw(),
        }),
        final(sun).spec_height() == (match *action {
            SunSetting::SetPlaneHeight(v) => v,
            _ => old(sun).spec_height(),
        }),
        final(sun).spec_show_debug_mesh() == (match *action {
            SunSetting::ToggleDebugMesh => !old(sun).spec_show_debug_mesh(),
            _ => old(sun).spec_show_debug_mesh(),
        }),
{
    match action {
        SunSetting::SetPlaneTilt(v) => sun.set_plane_tilt(*v),
        SunSetting::SetPlaneYaw(v) => sun.set_plane_yaw(*v),
        SunSetting::SetPlaneHeight(v) => sun.set_plane_height(*v),
        SunSetting::ToggleDebugMesh => sun.toggle_debug_mesh(),
    }
}

} // verus!
