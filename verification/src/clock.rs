//! Local time context for bonus calculations.
//!
//! Timestamps are UTC seconds since the unix epoch. A clock pairs the current
//! moment with the local timezone offset, and converts timestamps to local
//! day numbers.

use vstd::prelude::*;

verus! {

/// seconds in one day
pub const SECONDS_PER_DAY: i64 = 86400;

/// `t as i64`: the two's-complement reading of a `u64`
pub open spec fn signed_of(t: u64) -> int {
    if t <= i64::MAX { t as int } else { t as int - 0x1_0000_0000_0000_0000int }
}

/// `v as u64`: the value of an `i64` read back as a `u64`
pub open spec fn unsigned_of(v: int) -> int {
    if v >= 0 { v } else { v + 0x1_0000_0000_0000_0000int }
}

/// integer division rounding toward zero, as `/` does on signed integers
pub open spec fn trunc_div(a: int, d: int) -> int {
    if a >= 0 { a / d } else { -((-a) / d) }
}

/// whether a value fits in an `i64`
pub open spec fn fits_i64(v: int) -> bool {
    i64::MIN <= v <= i64::MAX
}

proof fn lemma_signed_low(t: u64)
    by (bit_vector)
    requires
        t <= 0x7fff_ffff_ffff_ffffu64,
    ensures
        (t as i64) as int == t as int,
{
}

proof fn lemma_signed_high(t: u64)
    by (bit_vector)
    requires
        t > 0x7fff_ffff_ffff_ffffu64,
    ensures
        (t as i64) as int == t as int - 0x1_0000_0000_0000_0000int,
{
}

proof fn lemma_unsigned_neg(v: i64)
    by (bit_vector)
    requires
        v < 0,
    ensures
        (v as u64) as int == v as int + 0x1_0000_0000_0000_0000int,
{
}

/// `t as i64`, proved equal to `signed_of(t)`
fn to_signed(t: u64) -> (r: i64)
    ensures
        r as int == signed_of(t),
{
    proof {
        if t <= 0x7fff_ffff_ffff_ffffu64 {
            lemma_signed_low(t);
        } else {
            lemma_signed_high(t);
        }
    }
    #[verifier::truncate]
    let r = t as i64;
    r
}

/// `v as u64`, proved equal to `unsigned_of(v)`
fn to_unsigned(v: i64) -> (r: u64)
    ensures
        r as int == unsigned_of(v as int),
{
    proof {
        if v < 0 {
            lemma_unsigned_neg(v);
        }
    }
    #[verifier::truncate]
    let r = v as u64;
    r
}

/// time context for bonus calculations
#[derive(Debug, Clone, Copy)]
pub struct Clock {
    pub now: u64,
    pub tz_offset_secs: i32,
}

impl Clock {
    /// local seconds of a utc timestamp, before any wrap into `i64`
    pub open spec fn local_seconds_of(self, timestamp: u64) -> int {
        signed_of(timestamp) + self.tz_offset_secs as int
    }

    /// whether converting `timestamp` to local time stays within `i64`
    pub open spec fn valid_timestamp(self, timestamp: u64) -> bool {
        fits_i64(self.local_seconds_of(timestamp))
    }

    /// the local day number of a utc timestamp
    pub open spec fn spec_day_of(self, timestamp: u64) -> int {
        trunc_div(self.local_seconds_of(timestamp), SECONDS_PER_DAY as int)
    }

    /// the local day number of `now`
    pub open spec fn spec_today(self) -> int {
        self.spec_day_of(self.now)
    }

    /// the utc timestamp at which a local day starts, before any wrap into `u64`
    pub open spec fn day_start_value(self, day_id: int) -> int {
        SECONDS_PER_DAY as int * day_id - self.tz_offset_secs as int
    }

    /// a clock at `now` in utc
    pub fn at(now: u64) -> (c: Self)
        ensures
            c.now == now,
            c.tz_offset_secs == 0,
    {
        Self { now, tz_offset_secs: 0 }
    }

    /// a clock at `now` with the given timezone offset
    pub fn with_offset(now: u64, tz_offset_secs: i32) -> (c: Self)
        ensures
            c.now == now,
            c.tz_offset_secs == tz_offset_secs,
    {
        Self { now, tz_offset_secs }
    }

    pub fn now(&self) -> (r: u64)
        ensures
            r == self.now,
    {
        self.now
    }

    pub fn tz_offset_secs(&self) -> (r: i32)
        ensures
            r == self.tz_offset_secs,
    {
        self.tz_offset_secs
    }

    /// convert a utc timestamp to local day number
    pub fn day_of(&self, timestamp: u64) -> (r: i64)
        requires
            self.valid_timestamp(timestamp),
        ensures
            r == self.spec_day_of(timestamp),
    {
        let local = to_signed(timestamp) + self.tz_offset_secs as i64;
        local / SECONDS_PER_DAY
    }

    /// convert a utc timestamp to local day number
    pub fn day_id_of(&self, timestamp: u64) -> (r: i64)
        requires
            self.valid_timestamp(timestamp),
        ensures
            r == self.spec_day_of(timestamp),
    {
        self.day_of(timestamp)
    }

    /// local day number for `now`
    pub fn today(&self) -> (r: i64)
        requires
            self.valid_timestamp(self.now),
        ensures
            r == self.spec_today(),
    {
        self.day_of(self.now)
    }

    /// local day number for `now`
    pub fn today_id(&self) -> (r: i64)
        requires
            self.valid_timestamp(self.now),
        ensures
            r == self.spec_today(),
    {
        self.day_of(self.now)
    }

    /// whether a utc timestamp falls on the same local day as `now`
    pub fn is_today(&self, timestamp: u64) -> (r: bool)
        requires
            self.valid_timestamp(timestamp),
            self.valid_timestamp(self.now),
        ensures
            r == (self.spec_day_of(timestamp) == self.spec_today()),
    {
        self.day_of(timestamp) == self.today()
    }

    /// the timestamp at the start of a given day
    pub fn day_start(&self, day_id: i64) -> (r: u64)
        requires
            fits_i64(SECONDS_PER_DAY as int * day_id),
            fits_i64(self.day_start_value(day_id as int)),
        ensures
            r as int == unsigned_of(self.day_start_value(day_id as int)),
    {
        let v = SECONDS_PER_DAY * day_id - self.tz_offset_secs as i64;
        to_unsigned(v)
    }

    /// the timestamp at the start of the current day
    pub fn today_start(&self) -> (r: u64)
        requires
            self.valid_timestamp(self.now),
        ensures
            r as int == unsigned_of(self.day_start_value(self.spec_today())),
    {
        let today_id = self.today();
        proof {
            // |today_id| * 86400 is no larger than |local seconds|, which fits in i64
            let l = self.local_seconds_of(self.now);
            if l >= 0 {
                assert(0 <= SECONDS_PER_DAY * (l / 86400) <= l) by (nonlinear_arith)
                    requires l >= 0;
            } else {
                assert(0 <= SECONDS_PER_DAY * ((-l) / 86400) <= -l) by (nonlinear_arith)
                    requires -l >= 0;
            }
        }
        self.day_start(today_id)
    }

    /// day of the week for `now`
    /// Thursday is 0, Friday is 1, etc
    pub fn day_of_week(&self) -> (r: i64)
        requires
            self.valid_timestamp(self.now),
        ensures
            r == self.spec_today() % 7,
            0 <= r < 7,
    {
        let d = self.today();
        let m = d % 7;
        if m < 0 {
            m + 7
        } else {
            m
        }
    }

    /// seconds elapsed since midnight in local time
    pub fn local_seconds_since_midnight(&self) -> (r: i64)
        requires
            self.valid_timestamp(self.now),
        ensures
            r == self.local_seconds_of(self.now) % 86400,
            0 <= r < 86400,
    {
        let local = to_signed(self.now) + self.tz_offset_secs as i64;
        let m = local % SECONDS_PER_DAY;
        if m < 0 {
            m + SECONDS_PER_DAY
        } else {
            m
        }
    }
}

impl Default for Clock {
    fn default() -> (c: Self)
        ensures
            c.now == 0,
            c.tz_offset_secs == 0,
    {
        Self { now: 0, tz_offset_secs: 0 }
    }
}

} // verus!
