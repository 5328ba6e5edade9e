//! Wall-clock arithmetic: elapsed time since boot, the epoch-duration
//! split the host needs when it converts a millisecond reading into a
//! system timestamp, and the time-of-day decomposition that drives the
//! clock-signal uniforms of the time-driven presentation variant.
//!
//! All instants are unsigned integers in milliseconds since the Unix
//! epoch; fractional clock fields are carried as exact integer
//! numerators over fixed denominators, so no value here needs floats.

use vstd::prelude::*;
use vstd::arithmetic::div_mod::{
    lemma_add_mod_noop,
    lemma_fundamental_div_mod,
    lemma_mod_mod,
    lemma_small_mod,
};

verus! {

pub const MS_PER_SECOND: u64 = 1_000;

pub const MS_PER_MINUTE: u64 = 60_000;

pub const MS_PER_HOUR: u64 = 3_600_000;

pub const MS_PER_DAY: u64 = 86_400_000;

/// The fixed display convention: clock fields are shown in UTC+6.
pub const UTC_OFFSET_HOURS: u64 = 6;

/// `UTC_OFFSET_HOURS`, in milliseconds.
pub const UTC_OFFSET_MS: u64 = 21_600_000;

/// Elapsed wall-clock time `now - boot`, meaningful when the host clock
/// has not gone backwards.
pub open spec fn elapsed_spec(now_ms: u64, boot_ms: u64) -> int {
    now_ms - boot_ms
}

/// Milliseconds elapsed since boot. A host clock reading that precedes
/// the boot instant indicates a broken clock and has no elapsed time;
/// use `try_elapsed_millis` to reject such a reading.
pub fn elapsed_millis(now_ms: u64, boot_ms: u64) -> (e: u64)
    requires
        boot_ms <= now_ms,
    ensures
        e == elapsed_spec(now_ms, boot_ms),
{
    now_ms - boot_ms
}

/// Checked elapsed time: `Some` exactly when the host clock has not
/// gone backwards past the boot instant.
pub fn try_elapsed_millis(now_ms: u64, boot_ms: u64) -> (e: Option<u64>)
    ensures
        boot_ms <= now_ms ==> e == Some((now_ms - boot_ms) as u64),
        now_ms < boot_ms ==> e is None,
{
    if boot_ms <= now_ms {
        Some(now_ms - boot_ms)
    } else {
        None
    }
}

/// Elapsed time is non-negative and monotone in the host clock: any
/// sample at or after boot yields a non-negative elapsed value, and a
/// later sample never yields a smaller one.
pub proof fn lemma_elapsed_monotonic(boot_ms: u64, t1: u64, t2: u64)
    requires
        boot_ms <= t1,
        t1 <= t2,
    ensures
        0 <= elapsed_spec(t1, boot_ms),
        elapsed_spec(t1, boot_ms) <= elapsed_spec(t2, boot_ms),
{
}

/// Split a millisecond count into whole seconds and the nanosecond
/// remainder, the two components of an epoch-relative duration.
pub fn split_millis(ms: u64) -> (r: (u64, u32))
    ensures
        r.0 == ms / MS_PER_SECOND,
        r.1 == (ms % MS_PER_SECOND) * 1_000_000,
        r.0 * MS_PER_SECOND + r.1 / 1_000_000 == ms,
{
    let secs = ms / MS_PER_SECOND;
    let nanos = ((ms % MS_PER_SECOND) as u32) * 1_000_000;
    proof {
        lemma_fundamental_div_mod(ms as int, MS_PER_SECOND as int);
    }
    (secs, nanos)
}

/// Milliseconds elapsed since the last local midnight under the UTC+6
/// display convention, for an instant given in milliseconds since the
/// Unix epoch.
pub open spec fn ms_of_day_spec(total_ms: u64) -> int {
    (total_ms + UTC_OFFSET_MS) % (MS_PER_DAY as int)
}

/// The calendar fields of one instant within a day.
#[derive(Clone, Copy, PartialEq, Eq, Structural, Debug)]
pub struct TimeOfDay {
    pub hour: u32,
    pub minute: u32,
    pub second: u32,
    pub millisecond: u32,
}

impl TimeOfDay {
    /// Each field stays within its calendar range.
    pub open spec fn wf(&self) -> bool {
        &&& self.hour < 24
        &&& self.minute < 60
        &&& self.second < 60
        &&& self.millisecond < 1000
    }

    /// The instant within the day that the four fields denote, in
    /// milliseconds after midnight.
    pub open spec fn as_ms_of_day(&self) -> int {
        self.hour as int * MS_PER_HOUR as int + self.minute as int * MS_PER_MINUTE as int
            + self.second as int * MS_PER_SECOND as int + self.millisecond as int
    }
}

/// The decomposition of an absolute instant into calendar fields under
/// the UTC+6 display convention.
pub open spec fn time_of_day_spec(total_ms: u64) -> TimeOfDay {
    TimeOfDay {
        hour: (ms_of_day_spec(total_ms) / (MS_PER_HOUR as int)) as u32,
        minute: ((ms_of_day_spec(total_ms) % (MS_PER_HOUR as int)) / (MS_PER_MINUTE as int)) as u32,
        second: ((ms_of_day_spec(total_ms) % (MS_PER_MINUTE as int)) / (MS_PER_SECOND as int)) as u32,
        millisecond: (ms_of_day_spec(total_ms) % (MS_PER_SECOND as int)) as u32,
    }
}

/// Decompose an absolute timestamp, in milliseconds since the Unix
/// epoch, into the calendar fields of that moment shown in UTC+6.
pub fn time_of_day(total_ms: u64) -> (t: TimeOfDay)
    ensures
        t == time_of_day_spec(total_ms),
        t.wf(),
{
    let day_ms = ((total_ms % MS_PER_DAY) + UTC_OFFSET_MS) % MS_PER_DAY;
    proof {
        lemma_add_mod_noop(total_ms as int, UTC_OFFSET_MS as int, MS_PER_DAY as int);
        lemma_small_mod(UTC_OFFSET_MS as nat, MS_PER_DAY as nat);
        assert(day_ms == ms_of_day_spec(total_ms));
    }
    let hour = (day_ms / MS_PER_HOUR) as u32;
    let minute = ((day_ms % MS_PER_HOUR) / MS_PER_MINUTE) as u32;
    let second = ((day_ms % MS_PER_MINUTE) / MS_PER_SECOND) as u32;
    let millisecond = (day_ms % MS_PER_SECOND) as u32;
    TimeOfDay { hour, minute, second, millisecond }
}

/// The clock uniforms of the time-driven presentation variant: each
/// fractional calendar field blends sub-unit precision from the next
/// finer fields (the fractional minute is
/// `minute + second / 60 + millisecond / 60000`), carried as an exact
/// integer numerator over a fixed denominator. The fractional hour is
/// `hour_num / MS_PER_HOUR`, the fractional minute
/// `minute_num / MS_PER_MINUTE`, the fractional second
/// `second_num / MS_PER_SECOND`; `millisecond` is the
/// millisecond-of-second, 0 to 999.
#[derive(Clone, Copy, PartialEq, Eq, Structural, Debug)]
pub struct ClockSignals {
    pub hour_num: u64,
    pub minute_num: u64,
    pub second_num: u64,
    pub millisecond: u32,
}

/// The blended clock signals of a set of calendar fields.
pub open spec fn clock_signals_spec(t: TimeOfDay) -> ClockSignals {
    ClockSignals {
        hour_num: (t.hour as int * MS_PER_HOUR as int + t.minute as int * MS_PER_MINUTE as int
            + t.second as int * MS_PER_SECOND as int + t.millisecond as int) as u64,
        minute_num: (t.minute as int * MS_PER_MINUTE as int
            + t.second as int * MS_PER_SECOND as int + t.millisecond as int) as u64,
        second_num: (t.second as int * MS_PER_SECOND as int + t.millisecond as int) as u64,
        millisecond: t.millisecond,
    }
}

/// Blend a decomposed moment into the clock-signal numerators the
/// presentation shader consumes.
pub fn clock_signals(t: TimeOfDay) -> (c: ClockSignals)
    requires
        t.wf(),
    ensures
        c == clock_signals_spec(t),
{
    let second_num: u64 = (t.second as u64) * MS_PER_SECOND + (t.millisecond as u64);
    let minute_num: u64 = (t.minute as u64) * MS_PER_MINUTE + second_num;
    let hour_num: u64 = (t.hour as u64) * MS_PER_HOUR + minute_num;
    ClockSignals { hour_num, minute_num, second_num, millisecond: t.millisecond }
}

/// The clock signals of the moment `offset + elapsed`: a wall-clock
/// offset captured at construction, advanced by the time elapsed since.
/// This is the whole uniform derivation of the time-driven presentation
/// variant, which keeps no state between frames.
pub fn clock_at(offset_ms: u64, elapsed_ms: u64) -> (c: ClockSignals)
    requires
        offset_ms + elapsed_ms <= u64::MAX,
    ensures
        c == clock_signals_spec(time_of_day_spec((offset_ms + elapsed_ms) as u64)),
{
    clock_signals(time_of_day(offset_ms + elapsed_ms))
}

/// The blended clock signals of any absolute instant encode that
/// instant exactly: the fractional-hour numerator is its
/// millisecond-of-day, the fractional-minute numerator its
/// millisecond-of-hour, the fractional-second numerator its
/// millisecond-of-minute. In particular, an instant at UTC midnight
/// yields a fractional hour of exactly 6 under the UTC+6 convention.
pub proof fn lemma_clock_signals_encode_instant(total_ms: u64)
    ensures
        clock_signals_spec(time_of_day_spec(total_ms)).hour_num == ms_of_day_spec(total_ms),
        clock_signals_spec(time_of_day_spec(total_ms)).minute_num == ms_of_day_spec(total_ms)
            % (MS_PER_HOUR as int),
        clock_signals_spec(time_of_day_spec(total_ms)).second_num == ms_of_day_spec(total_ms)
            % (MS_PER_MINUTE as int),
        clock_signals_spec(time_of_day_spec(total_ms)).millisecond == ms_of_day_spec(total_ms)
            % (MS_PER_SECOND as int),
{
    let x = ms_of_day_spec(total_ms);
    let h = MS_PER_HOUR as int;
    let m = MS_PER_MINUTE as int;
    let s = MS_PER_SECOND as int;
    assert(0 <= x < MS_PER_DAY as int) by {
        lemma_fundamental_div_mod((total_ms + UTC_OFFSET_MS) as int, MS_PER_DAY as int);
    }
    lemma_fundamental_div_mod(x, h);
    lemma_fundamental_div_mod(x % h, m);
    lemma_fundamental_div_mod(x % m, s);
    lemma_mod_mod(x, m, 60);
    lemma_mod_mod(x, s, 60);
}

/// Round trip of the time decomposition: recomposing the four calendar
/// fields of any absolute instant yields back exactly that instant's
/// millisecond-of-day. In particular an instant at UTC midnight
/// decomposes to hour 6, minute 0, second 0, millisecond 0 under the
/// UTC+6 convention.
pub proof fn lemma_time_decomposition_round_trip(total_ms: u64)
    ensures
        time_of_day_spec(total_ms).as_ms_of_day() == ms_of_day_spec(total_ms),
{
    let x = ms_of_day_spec(total_ms);
    let h = MS_PER_HOUR as int;
    let m = MS_PER_MINUTE as int;
    let s = MS_PER_SECOND as int;
    assert(0 <= x < MS_PER_DAY as int) by {
        lemma_fundamental_div_mod((total_ms + UTC_OFFSET_MS) as int, MS_PER_DAY as int);
    }
    lemma_fundamental_div_mod(x, h);
    lemma_fundamental_div_mod(x % h, m);
    lemma_fundamental_div_mod(x % m, s);
    // x % h % m == x % m, since an hour is a whole number of minutes
    lemma_mod_mod(x, m, 60);
    // x % m % s == x % s, since a minute is a whole number of seconds
    lemma_mod_mod(x, s, 60);
}

} // verus!
