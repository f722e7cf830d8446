use vstd::prelude::*;
use vstd::string::StringExecFns;

pub mod clock;

verus! {

/// Milliseconds in one day.
pub const DAY_MSECS: u32 = 86_400_000;

/// The in-game clock runs twenty times as fast as the real one.
pub const CLOCK_RATE: u32 = 20;

/// Offset of the reference wall clock (JST) from UTC, in milliseconds.
pub const JST_OFFSET_MSECS: u32 = 32_400_000;

/// A reading of the accelerated in-game clock: the time of day, stored
/// as milliseconds since the clock's midnight.
#[derive(Clone, Copy, Debug, PartialEq, Eq, Structural)]
pub struct AST {
    pub msecs: u32,
}

/// A plain wall-clock time of day.
#[derive(Clone, Copy, Debug, PartialEq, Eq, Structural)]
pub struct ClockTime {
    pub hour: u32,
    pub minute: u32,
    pub second: u32,
}

impl ClockTime {
    pub open spec fn wf(self) -> bool {
        self.hour < 24 && self.minute < 60 && self.second < 60
    }

    pub fn hour(&self) -> (r: u32)
        ensures
            r == self.hour,
    {
        self.hour
    }

    pub fn minute(&self) -> (r: u32)
        ensures
            r == self.minute,
    {
        self.minute
    }

    pub fn second(&self) -> (r: u32)
        ensures
            r == self.second,
    {
        self.second
    }
}

/// Whether the game world is in its day or its night phase.
#[derive(Clone, Copy, Debug, PartialEq, Eq, Structural)]
pub enum State {
    Day,
    Night,
}

impl State {
    /// The phase that follows this one.
    pub fn change(&self) -> (r: State)
        ensures
            *self == State::Day ==> r == State::Night,
            *self == State::Night ==> r == State::Day,
    {
        match self {
            State::Day => State::Night,
            State::Night => State::Day,
        }
    }

    /// The phase's display name.
    pub fn name(&self) -> (r: String)
        ensures
            *self == State::Day ==> r@ == "朝"@,
            *self == State::Night ==> r@ == "夜"@,
    {
        match self {
            State::Day => String::from_str("朝"),
            State::Night => String::from_str("夜"),
        }
    }
}

/// The in-game time of day that a real instant maps to, in milliseconds:
/// the reference wall clock's time of day, run twenty times as fast and
/// wrapped at midnight.
pub open spec fn ast_msecs_of_millis(utc_ms: int) -> int {
    (((utc_ms + JST_OFFSET_MSECS) % (DAY_MSECS as int)) * CLOCK_RATE) % (DAY_MSECS as int)
}

impl AST {
    pub open spec fn wf(self) -> bool {
        self.msecs < DAY_MSECS
    }

    /// Milliseconds since the in-game midnight.
    pub open spec fn view_msecs(self) -> int {
        self.msecs as int
    }

    pub open spec fn spec_hour(self) -> int {
        self.msecs as int / 3_600_000
    }

    pub open spec fn spec_minute(self) -> int {
        (self.msecs as int / 60_000) % 60
    }

    pub open spec fn spec_second(self) -> int {
        (self.msecs as int / 1000) % 60
    }

    /// Builds a reading from a wall-clock time with milliseconds,
    /// rejecting out-of-range fields.
    pub fn from_hms_milli(hour: u32, minute: u32, second: u32, milli: u32) -> (r: Option<AST>)
        ensures
            r is Some <==> hour < 24 && minute < 60 && second < 60 && milli < 1000,
            r matches Some(a) ==> a.wf() && a.view_msecs() == hour * 3_600_000 + minute * 60_000
                + second * 1000 + milli,
    {
        if hour < 24 && minute < 60 && second < 60 && milli < 1000 {
            Some(AST { msecs: hour * 3_600_000 + minute * 60_000 + second * 1000 + milli })
        } else {
            None
        }
    }

    /// The world phase at this reading: day from 06:00 inclusive to
    /// 18:00 exclusive, night otherwise.
    pub fn state(&self) -> (r: State)
        requires
            self.wf(),
        ensures
            (r == State::Day) <==> (6 <= self.spec_hour() < 18),
            (r == State::Night) <==> !(6 <= self.spec_hour() < 18),
    {
        let h = self.msecs / 3_600_000;
        if 6 <= h && h < 18 {
            State::Day
        } else {
            State::Night
        }
    }

    /// Real minutes until the phase changes, rounded to the nearest
    /// whole minute: the in-game clock covers one real minute in twenty
    /// in-game minutes.
    pub fn state_change_in(&self) -> (r: u32)
        requires
            self.wf(),
        ensures
            ({
                let h = self.spec_hour();
                let dh = (29 - h) % 12 + 1;
                r == (dh * 3600 - self.spec_minute() * 60 - self.spec_second() + 600) / 1200
            }),
    {
        let h = self.msecs / 3_600_000;
        let m = (self.msecs / 60_000) % 60;
        let s = (self.msecs / 1000) % 60;
        let dh = (29 - h) % 12 + 1;
        (dh * 3600 - m * 60 - s + 600) / 1200
    }

    /// The reading as a wall-clock time of day (milliseconds dropped).
    pub fn time(&self) -> (r: ClockTime)
        requires
            self.wf(),
        ensures
            r.hour == self.spec_hour(),
            r.minute == self.spec_minute(),
            r.second == self.spec_second(),
            r.wf(),
    {
        ClockTime {
            hour: self.msecs / 3_600_000,
            minute: (self.msecs / 60_000) % 60,
            second: (self.msecs / 1000) % 60,
        }
    }
}

/// The in-game reading at an instant given as seconds since the Unix
/// epoch. Total: every instant maps to a reading.
pub fn from_timestamp(sec_from_epoch: i64) -> (r: Option<AST>)
    ensures
        r matches Some(a) && a.wf() && a.view_msecs() == ast_msecs_of_millis(
            sec_from_epoch * 1000,
        ),
{
    let m0 = match sec_from_epoch.checked_rem_euclid(86_400) {
        Some(m) => m,
        None => 0,
    };
    let day_s: i64 = (m0 + 32_400) % 86_400;
    let ast_ms: i64 = (day_s * 20_000) % 86_400_000;
    proof {
        vstd::arithmetic::div_mod::lemma_mod_bound(sec_from_epoch as int, 86_400);
        vstd::arithmetic::div_mod::lemma_mod_bound(m0 + 32_400, 86_400);
        vstd::arithmetic::div_mod::lemma_add_mod_noop(sec_from_epoch as int, 32_400, 86_400);
        vstd::arithmetic::div_mod::lemma_small_mod(32_400nat, 86_400nat);
        vstd::arithmetic::div_mod::lemma_mod_bound(day_s * 20_000, 86_400_000);
        lemma_ast_of_secs(sec_from_epoch as int, day_s as int);
    }
    Some(AST { msecs: ast_ms as u32 })
}

/// The in-game reading at an instant given as milliseconds since the
/// Unix epoch. Total: every instant maps to a reading.
pub fn from_timestamp_millis(millis_from_epoch: i64) -> (r: Option<AST>)
    ensures
        r matches Some(a) && a.wf() && a.view_msecs() == ast_msecs_of_millis(
            millis_from_epoch as int,
        ),
{
    let m0 = match millis_from_epoch.checked_rem_euclid(86_400_000) {
        Some(m) => m,
        None => 0,
    };
    let day_ms: i64 = (m0 + 32_400_000) % 86_400_000;
    let ast_ms: i64 = (day_ms * 20) % 86_400_000;
    proof {
        vstd::arithmetic::div_mod::lemma_mod_bound(millis_from_epoch as int, 86_400_000);
        vstd::arithmetic::div_mod::lemma_mod_bound(m0 + 32_400_000, 86_400_000);
        vstd::arithmetic::div_mod::lemma_add_mod_noop(
            millis_from_epoch as int,
            32_400_000,
            86_400_000,
        );
        vstd::arithmetic::div_mod::lemma_small_mod(32_400_000nat, 86_400_000nat);
        vstd::arithmetic::div_mod::lemma_mod_bound(day_ms * 20, 86_400_000);
    }
    Some(AST { msecs: ast_ms as u32 })
}

/// Scaling carries through the day wrap: the time of day in a finer unit
/// is the time of day in the coarser one, scaled.
proof fn lemma_scale_mod(x: int, k: int)
    requires
        k >= 1,
    ensures
        (x * k) % (86_400 * k) == (x % 86_400) * k,
{
    vstd::arithmetic::div_mod::lemma_fundamental_div_mod(x, 86_400);
    let q = x / 86_400;
    let m = x % 86_400;
    vstd::arithmetic::div_mod::lemma_mod_bound(x, 86_400);
    assert(x * k == (86_400 * k) * q + m * k) by (nonlinear_arith)
        requires
            x == 86_400 * q + m,
    ;
    assert(0 <= m * k < 86_400 * k) by (nonlinear_arith)
        requires
            0 <= m < 86_400,
            k >= 1,
    ;
    vstd::arithmetic::div_mod::lemma_fundamental_div_mod_converse_mod(
        x * k,
        86_400 * k,
        q,
        m * k,
    );
}

/// The seconds-based computation agrees with the milliseconds-based
/// specification.
proof fn lemma_ast_of_secs(sec: int, day_s: int)
    requires
        day_s == (sec + 32_400) % 86_400,
    ensures
        (day_s * 20_000) % 86_400_000 == ast_msecs_of_millis(sec * 1000),
{
    lemma_scale_mod(sec + 32_400, 1000);
    assert((sec + 32_400) * 1000 == sec * 1000 + 32_400_000) by (nonlinear_arith);
    assert(ast_msecs_of_millis(sec * 1000) == ((day_s * 1000) * 20) % 86_400_000);
    assert((day_s * 1000) * 20 == day_s * 20_000) by (nonlinear_arith);
}

} // verus!
