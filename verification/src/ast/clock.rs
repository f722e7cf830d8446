use vstd::prelude::*;
use super::ClockTime;

verus! {

/// What comes next on the in-game clock: the phase about to begin and
/// the real minutes until it does.
pub struct Next {
    pub state: char,
    pub after_minutes: u32,
}

/// Converts a wall-clock time of day into the in-game time of day: the
/// clock runs twenty times as fast and wraps at midnight.
pub fn convert(t: ClockTime) -> (r: ClockTime)
    requires
        t.wf(),
    ensures
        ({
            let day_secs = t.hour * 3600 + t.minute * 60 + t.second;
            let ast_secs = (day_secs * 20) % 86_400;
            &&& r.hour == ast_secs / 3600
            &&& r.minute == (ast_secs / 60) % 60
            &&& r.second == ast_secs % 60
            &&& r.wf()
        }),
{
    let day_secs: u32 = t.hour * 3600 + t.minute * 60 + t.second;
    let ast_secs: u32 = (day_secs * 20) % 86_400;
    ClockTime { hour: ast_secs / 3600, minute: (ast_secs / 60) % 60, second: ast_secs % 60 }
}

/// The phase about to begin on the in-game clock and the real minutes
/// until it does, truncated to whole minutes: day runs from 06:00
/// inclusive to 18:00 exclusive.
pub fn calc_minutes_to_next(t: ClockTime) -> (r: Next)
    requires
        t.wf(),
    ensures
        (6 <= t.hour < 18) ==> r.state == '夜',
        !(6 <= t.hour < 18) ==> r.state == '朝',
        ({
            let dh = (29 - t.hour) % 12 + 1;
            r.after_minutes == (dh * 3600 - t.minute * 60 - t.second) / 1200
        }),
{
    let h = t.hour;
    let next: char = if 6 <= h && h < 18 {
        '夜'
    } else {
        '朝'
    };
    let dh = (29 - h) % 12 + 1;
    let minutes = (dh * 3600 - t.minute * 60 - t.second) / 1200;
    Next { state: next, after_minutes: minutes }
}

} // verus!
