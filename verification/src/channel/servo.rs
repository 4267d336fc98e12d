//! The servo channel variant: a configured tick range and the conversion
//! between tick values and a normalized angular domain.
//!
//! A servo's usable pulse range is some sub-range `min..=max` of the chip's
//! 4096 ticks. That range is mapped linearly onto the fixed logical angle
//! domain -90 through +90 degrees. The two directions are not exact inverses:
//! converting degrees to ticks truncates, converting ticks to degrees rounds
//! to the nearest degree, so a full round trip is only approximate.

use vstd::prelude::*;

use vstd::arithmetic::div_mod::{
    lemma_fundamental_div_mod,
    lemma_fundamental_div_mod_converse,
    lemma_mod_bound,
};

use crate::channel::base::Channel;
use crate::channel::errors::{IndexRangeError, ValueRangeError};

verus! {

/// Division of `a` by `b` rounded to the nearest integer, halves rounding
/// upward; meaningful for `a >= 0` and `b > 0`.
pub open spec fn rounded_div(a: int, b: int) -> int {
    (2 * a + b) / (2 * b)
}

/// The tick value for a validated angle in -90 through 90: the angle is
/// shifted into 0 through 180, scaled linearly onto the configured tick
/// range, truncating downward, and offset from `min`.
pub open spec fn degrees_to_ticks(min: u16, max: u16, angle: int) -> int {
    min + ((angle + 90) * (max - min)) / 180
}

/// The angle for a validated tick value in `min` through `max`: the offset
/// into the configured tick range is scaled linearly onto 0 through 180,
/// rounded to the nearest degree, and shifted into -90 through 90. A
/// zero-width range holds only the tick `min`, which maps to the low end of
/// the angle domain.
pub open spec fn ticks_to_degrees(min: u16, max: u16, ticks: int) -> int {
    if max == min {
        -90
    } else {
        rounded_div((ticks - min) * 180, max - min) - 90
    }
}

/// A servo's configured pulse range: minimum and maximum tick, both within
/// the chip's 4096 ticks and in order.
#[derive(Clone, Copy, Debug)]
pub struct ServoSettings {
    min: u16,
    max: u16,
}

impl ServoSettings {
    #[verifier::type_invariant]
    spec fn wf(self) -> bool {
        self.min <= self.max <= 4095
    }

    /// The configured minimum tick.
    pub closed spec fn min_tick(&self) -> u16 {
        self.min
    }

    /// The configured maximum tick.
    pub closed spec fn max_tick(&self) -> u16 {
        self.max
    }

    /// Creates settings for the pulse range `min..=max`.
    pub fn new(min: u16, max: u16) -> (r: ServoSettings)
        requires
            min <= max <= 4095,
        ensures
            r.min_tick() == min,
            r.max_tick() == max,
    {
        ServoSettings { min, max }
    }

    /// Returns settings spanning the chip's whole tick range. These are not
    /// necessarily safe values for a given physical servo, which may allow
    /// only a narrower pulse range.
    pub fn defaults() -> (r: ServoSettings)
        ensures
            r.min_tick() == 0,
            r.max_tick() == 4095,
    {
        ServoSettings { min: 0, max: 4095 }
    }

    /// Returns the configured range as `(min, max)`.
    pub fn servo_range(self) -> (r: (u16, u16))
        ensures
            r.0 == self.min_tick(),
            r.1 == self.max_tick(),
    {
        (self.min, self.max)
    }
}

/// A channel driving a servo: a validated channel index together with the
/// servo's configured tick range.
#[derive(Clone, Copy, Debug)]
pub struct ServoChannel {
    channel_num: u8,
    settings: ServoSettings,
}

impl ServoChannel {
    /// The configured minimum tick.
    pub closed spec fn min_tick(&self) -> u16 {
        self.settings.min_tick()
    }

    /// The configured maximum tick.
    pub closed spec fn max_tick(&self) -> u16 {
        self.settings.max_tick()
    }

    /// Creates a `ServoChannel` at the given channel index with the default
    /// settings. Succeeds exactly when the index is one of the chip's sixteen
    /// channels.
    pub fn new(channel_num: u8) -> (r: Result<ServoChannel, IndexRangeError>)
        ensures
            channel_num <= 15 ==> (r matches Ok(c) && c.index() == channel_num && c.min_tick()
                == 0 && c.max_tick() == 4095),
            channel_num > 15 ==> r is Err,
    {
        if channel_num > 15 {
            return Err(IndexRangeError::new());
        }
        Ok(ServoChannel { channel_num, settings: ServoSettings::defaults() })
    }

    /// Creates a `ServoChannel` at the given channel index with the given
    /// settings in place of the defaults. Succeeds exactly when the index is
    /// one of the chip's sixteen channels.
    pub fn new_with_settings(channel_num: u8, settings: ServoSettings) -> (r: Result<
        ServoChannel,
        IndexRangeError,
    >)
        ensures
            channel_num <= 15 ==> (r matches Ok(c) && c.index() == channel_num && c.min_tick()
                == settings.min_tick() && c.max_tick() == settings.max_tick()),
            channel_num > 15 ==> r is Err,
    {
        let mut chan = match ServoChannel::new(channel_num) {
            Ok(c) => c,
            Err(e) => return Err(e),
        };
        chan.settings = settings;
        Ok(chan)
    }

    /// Checks a tick value against the configured range, returning the range
    /// error to surface when it falls outside.
    fn pulse_value_in_range(self, value: u16) -> (r: Option<ValueRangeError>)
        ensures
            self.min_tick() <= value <= self.max_tick() ==> r is None,
            !(self.min_tick() <= value <= self.max_tick()) ==> r == Some(
                ValueRangeError {
                    min: self.min_tick() as i32,
                    max: self.max_tick() as i32,
                    val: value as i32,
                },
            ),
    {
        let min = self.settings.min;
        let max = self.settings.max;
        if value < min || value > max {
            return Some(ValueRangeError::new(min as i32, max as i32, value as i32));
        }
        None
    }

    /// Returns the minimum tick value allowed for this channel.
    pub fn minimum_value(self) -> (r: u16)
        ensures
            r == self.min_tick(),
    {
        self.settings.min
    }

    /// Returns the maximum tick value allowed for this channel.
    pub fn maximum_value(self) -> (r: u16)
        ensures
            r == self.max_tick(),
    {
        self.settings.max
    }

    /// Converts a pulse tick value into the angle, in degrees on -90 through
    /// 90, that the servo moves to at that pulse width. Fails with a range
    /// error, carrying the configured bounds, exactly when the tick value
    /// falls outside the configured range.
    pub fn pulse_time_to_degrees(self, pulse: u16) -> (r: Result<i32, ValueRangeError>)
        ensures
            self.min_tick() <= pulse <= self.max_tick() ==> (r matches Ok(d) && d
                == ticks_to_degrees(self.min_tick(), self.max_tick(), pulse as int) && -90 <= d
                <= 90),
            !(self.min_tick() <= pulse <= self.max_tick()) ==> (r matches Err(e) && e == (
            ValueRangeError {
                min: self.min_tick() as i32,
                max: self.max_tick() as i32,
                val: pulse as i32,
            })),
    {
        proof {
            use_type_invariant(self.settings);
        }
        if let Some(e) = self.pulse_value_in_range(pulse) {
            return Err(e);
        }
        let (min, max) = self.settings.servo_range();
        if max == min {
            return Ok(-90);
        }
        let range: u32 = (max - min) as u32;
        let offset: u32 = (pulse - min) as u32;
        assert(offset * 180 <= 4095 * 180) by (nonlinear_arith)
            requires
                offset <= 4095,
        ;
        let scaled: u32 = (2 * (offset * 180) + range) / (2 * range);
        assert(scaled <= 180) by (nonlinear_arith)
            requires
                scaled == (2 * (offset * 180) + range) / (2 * range),
                offset <= range,
                0 < range,
        ;
        let angle: i32 = (scaled as i32) - 90;
        Ok(angle)
    }

    /// Converts an angle, in degrees on -90 through 90, into the pulse tick
    /// value that moves the servo to that angle. Fails with a range error,
    /// carrying the fixed angular bounds, exactly when the angle falls
    /// outside -90 through 90.
    pub fn degrees_to_pulse_time(self, angle: i32) -> (r: Result<u16, ValueRangeError>)
        ensures
            -90 <= angle <= 90 ==> (r matches Ok(t) && t == degrees_to_ticks(
                self.min_tick(),
                self.max_tick(),
                angle as int,
            ) && self.min_tick() <= t <= self.max_tick()),
            !(-90 <= angle <= 90) ==> (r matches Err(e) && e == (ValueRangeError {
                min: -90i32,
                max: 90i32,
                val: angle,
            })),
    {
        proof {
            use_type_invariant(self.settings);
        }
        if angle < -90 || angle > 90 {
            return Err(ValueRangeError::new(-90, 90, angle));
        }
        let (min, max) = self.settings.servo_range();
        let range: u32 = (max - min) as u32;
        let normalized: u32 = (angle + 90) as u32;
        assert(normalized * range <= 180 * 4095) by (nonlinear_arith)
            requires
                normalized <= 180,
                range <= 4095,
        ;
        let scaled: u32 = (normalized * range) / 180;
        assert(scaled <= range) by (nonlinear_arith)
            requires
                scaled == (normalized * range) / 180,
                normalized <= 180,
        ;
        let ticks: u16 = min + (scaled as u16);
        Ok(ticks)
    }
}

/// A full round trip from degrees to ticks and back is only approximate:
/// the forward conversion truncates while the backward one rounds, so the
/// angle that comes back is the original angle or the degree just below it
/// — never more than one degree away, and never above the original. This
/// holds whenever the configured range spans at least one tick per degree of
/// the 180-degree logical domain.
pub proof fn lemma_angle_round_trip(settings: ServoSettings, angle: int)
    requires
        -90 <= angle <= 90,
        settings.max_tick() - settings.min_tick() >= 180,
    ensures
        ({
            let ticks = degrees_to_ticks(settings.min_tick(), settings.max_tick(), angle);
            let back = ticks_to_degrees(settings.min_tick(), settings.max_tick(), ticks);
            &&& settings.min_tick() <= ticks <= settings.max_tick()
            &&& angle - 1 <= back <= angle
        }),
{
    let lo = settings.min_tick() as int;
    let hi = settings.max_tick() as int;
    let range = hi - lo;
    let n = angle + 90;
    let q = (n * range) / 180;
    let rem = (n * range) % 180;
    lemma_fundamental_div_mod(n * range, 180);
    lemma_mod_bound(n * range, 180);
    assert(0 <= n * range && n * range <= 180 * range) by (nonlinear_arith)
        requires
            0 <= n,
            n <= 180,
            0 <= range,
    ;
    let ticks = degrees_to_ticks(settings.min_tick(), settings.max_tick(), angle);
    assert(ticks == lo + q);
    assert(lo <= ticks <= hi);
    let back = ticks_to_degrees(settings.min_tick(), settings.max_tick(), ticks);
    assert(back == (2 * ((ticks - lo) * 180) + range) / (2 * range) - 90);
    if 2 * rem <= range {
        assert(2 * ((ticks - lo) * 180) + range == n * (2 * range) + (range - 2 * rem))
            by (nonlinear_arith)
            requires
                n * range == 180 * q + rem,
                ticks - lo == q,
        ;
        lemma_fundamental_div_mod_converse(
            2 * ((ticks - lo) * 180) + range,
            2 * range,
            n,
            range - 2 * rem,
        );
        assert(back == angle);
    } else {
        assert(2 * ((ticks - lo) * 180) + range == (n - 1) * (2 * range) + (3 * range - 2 * rem))
            by (nonlinear_arith)
            requires
                n * range == 180 * q + rem,
                ticks - lo == q,
        ;
        lemma_fundamental_div_mod_converse(
            2 * ((ticks - lo) * 180) + range,
            2 * range,
            n - 1,
            3 * range - 2 * rem,
        );
        assert(back == angle - 1);
    }
}

/// The opposite round trip, from a valid tick value to degrees and back, is
/// approximate in the same way: rounding onto whole degrees can move the
/// pulse by up to half a degree's worth of ticks either way, and truncation
/// can lose one tick more. The bound below is that tick-per-degree scale,
/// `range / 360`, plus one; for a configured range narrower than 360 ticks it
/// collapses to one tick.
pub proof fn lemma_tick_round_trip(settings: ServoSettings, ticks: int)
    requires
        settings.min_tick() <= ticks <= settings.max_tick(),
    ensures
        ({
            let range = settings.max_tick() - settings.min_tick();
            let back = ticks_to_degrees(settings.min_tick(), settings.max_tick(), ticks);
            let again = degrees_to_ticks(settings.min_tick(), settings.max_tick(), back);
            &&& -90 <= back <= 90
            &&& ticks - (range / 360 + 1) <= again <= ticks + range / 360
        }),
{
    let lo = settings.min_tick() as int;
    let hi = settings.max_tick() as int;
    let range = hi - lo;
    let back = ticks_to_degrees(settings.min_tick(), settings.max_tick(), ticks);
    let again = degrees_to_ticks(settings.min_tick(), settings.max_tick(), back);
    if range == 0 {
        assert(back == -90);
        assert(again == lo + (0 * 0) / 180);
        assert(again == ticks);
    } else {
        let o = ticks - lo;
        let y = o * 180;
        let rd = (2 * y + range) / (2 * range);
        let rem1 = (2 * y + range) % (2 * range);
        lemma_fundamental_div_mod(2 * y + range, 2 * range);
        lemma_mod_bound(2 * y + range, 2 * range);
        assert(0 <= y && y <= 180 * range) by (nonlinear_arith)
            requires
                y == o * 180,
                0 <= o,
                o <= range,
        ;
        assert(back == rd - 90);
        assert(0 <= rd && rd <= 180) by (nonlinear_arith)
            requires
                (2 * range) * rd == 2 * y + range - rem1,
                0 <= rem1 < 2 * range,
                0 <= y <= 180 * range,
                0 < range,
        ;
        let z = rd * range;
        assert(again == lo + ((back + 90) * range) / 180);
        assert((back + 90) * range == z);
        let w = z - y;
        assert(2 * z == 2 * y + range - rem1) by (nonlinear_arith)
            requires
                z == rd * range,
                (2 * range) * rd == 2 * y + range - rem1,
        ;
        let wq = w / 180;
        let wr = w % 180;
        lemma_fundamental_div_mod(w, 180);
        lemma_mod_bound(w, 180);
        assert(z == (o + wq) * 180 + wr);
        lemma_fundamental_div_mod_converse(z, 180, o + wq, wr);
        assert(z / 180 == o + wq);
        assert(again == ticks + wq);
        let g = range / 360;
        let gr = range % 360;
        lemma_fundamental_div_mod(range, 360);
        lemma_mod_bound(range, 360);
        assert(2 * w <= range);
        assert(1 - range <= 2 * w);
        assert(wq <= g);
        assert(-g - 1 <= wq);
    }
}

impl Channel for ServoChannel {
    closed spec fn index(&self) -> u8 {
        self.channel_num
    }

    fn channel_num(&self) -> (r: u8)
        ensures
            r == self.index(),
    {
        self.channel_num
    }
}

} // verus!
