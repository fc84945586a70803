//! Validation of battery charging time schedules.

use vstd::prelude::*;
use crate::error::FoxError;
use crate::models::dto::{ChargingTime, ChargingTimeSchedule};

verus! {

/// Whether an hour and a minute name a time of day, as
/// `NaiveTime::from_hms_opt(hour, minute, 0)` requires.
pub open spec fn valid_time(hour: u8, minute: u8) -> bool {
    hour < 24 && minute < 60
}

/// The minute of the day at which a time falls.
pub open spec fn minute_of_day(hour: u8, minute: u8) -> int {
    hour * 60 + minute
}

/// The fields of a charging schedule, without its serial number:
/// enable, start and end of the first window, then of the second.
pub type ScheduleFields = (bool, u8, u8, u8, u8, bool, u8, u8, u8, u8);

impl ChargingTimeSchedule {
    /// The fields of the schedule, without its serial number.
    pub open spec fn fields(&self) -> ScheduleFields {
        (
            self.enable_1, self.start_time_1.hour, self.start_time_1.minute,
            self.end_time_1.hour, self.end_time_1.minute,
            self.enable_2, self.start_time_2.hour, self.start_time_2.minute,
            self.end_time_2.hour, self.end_time_2.minute,
        )
    }
}

/// What validating two charging windows gives: the fields of the schedule, or
/// the message of the first inconsistency found.
///
/// Inconsistencies, in the order they are checked:
/// * an invalid start or end time of window 1, then its end before its start;
/// * the same for window 2;
/// * both windows enabled and sharing a minute (both ends inclusive).
///
/// A window that is not enabled, or whose start equals its end, is disabled
/// and zeroed.
pub open spec fn charge_schedule_outcome(
    enable_1: bool, start_hour_1: u8, start_minute_1: u8, end_hour_1: u8, end_minute_1: u8,
    enable_2: bool, start_hour_2: u8, start_minute_2: u8, end_hour_2: u8, end_minute_2: u8,
) -> Result<ScheduleFields, Seq<char>> {
    let s1 = minute_of_day(start_hour_1, start_minute_1);
    let e1 = minute_of_day(end_hour_1, end_minute_1);
    let s2 = minute_of_day(start_hour_2, start_minute_2);
    let e2 = minute_of_day(end_hour_2, end_minute_2);
    if !valid_time(start_hour_1, start_minute_1) {
        Err("charge schedule 1 start time error"@)
    } else if !valid_time(end_hour_1, end_minute_1) {
        Err("charge schedule 1 end time error"@)
    } else if e1 < s1 {
        Err("charge schedule 1 start time is after end time"@)
    } else if !valid_time(start_hour_2, start_minute_2) {
        Err("charge schedule 2 start time error"@)
    } else if !valid_time(end_hour_2, end_minute_2) {
        Err("charge schedule 2 end time error"@)
    } else if e2 < s2 {
        Err("charge schedule 2 start time is after end time"@)
    } else {
        let on_1 = enable_1 && e1 != s1;
        let on_2 = enable_2 && e2 != s2;
        if on_1 && on_2 && s2 <= e1 && s1 <= e2 {
            Err("overlapping charge schedules"@)
        } else {
            let w1: (u8, u8, u8, u8) = if on_1 {
                (start_hour_1, start_minute_1, end_hour_1, end_minute_1)
            } else {
                (0, 0, 0, 0)
            };
            let w2: (u8, u8, u8, u8) = if on_2 {
                (start_hour_2, start_minute_2, end_hour_2, end_minute_2)
            } else {
                (0, 0, 0, 0)
            };
            Ok((on_1, w1.0, w1.1, w1.2, w1.3, on_2, w2.0, w2.1, w2.2, w2.3))
        }
    }
}

/// Whether a result of building a schedule is what `outcome` describes, for
/// the serial number `sn`.
pub open spec fn schedule_result_matches(
    r: Result<ChargingTimeSchedule, FoxError>,
    sn: Seq<char>,
    outcome: Result<ScheduleFields, Seq<char>>,
) -> bool {
    match (r, outcome) {
        (Ok(s), Ok(f)) => s.sn@ == sn && s.fields() == f,
        (Err(FoxError::ScheduleBuildError(m)), Err(msg)) => m@ == msg,
        _ => false,
    }
}

/// Builds a charge time schedule after first checking for inconsistencies.
///
/// Inconsistencies include:
/// * Invalid time (e.g., hour outside 0-23 or minute outside 0-59).
/// * Start time after end time.
/// * Overlap between schedule 1 and 2 (times are inclusive on both ends).
///
/// Minor errors are corrected automatically:
/// * A schedule that is not enabled is set to zero start and end time.
/// * A schedule that is enabled but has the same start and end time is disabled and zeroed.
pub fn build_charge_time_schedule(
    sn: &str,
    enable_1: bool, start_hour_1: u8, start_minute_1: u8, end_hour_1: u8, end_minute_1: u8,
    enable_2: bool, start_hour_2: u8, start_minute_2: u8, end_hour_2: u8, end_minute_2: u8,
) -> (r: Result<ChargingTimeSchedule, FoxError>)
    ensures
        schedule_result_matches(r, sn@, charge_schedule_outcome(
            enable_1, start_hour_1, start_minute_1, end_hour_1, end_minute_1,
            enable_2, start_hour_2, start_minute_2, end_hour_2, end_minute_2,
        )),
{
    // Check schedule 1 for inconsistencies
    if !(start_hour_1 < 24 && start_minute_1 < 60) {
        return Err(FoxError::ScheduleBuildError("charge schedule 1 start time error".to_owned()));
    }
    if !(end_hour_1 < 24 && end_minute_1 < 60) {
        return Err(FoxError::ScheduleBuildError("charge schedule 1 end time error".to_owned()));
    }
    let start_1: u32 = start_hour_1 as u32 * 60 + start_minute_1 as u32;
    let end_1: u32 = end_hour_1 as u32 * 60 + end_minute_1 as u32;
    if end_1 < start_1 {
        return Err(FoxError::ScheduleBuildError(
            "charge schedule 1 start time is after end time".to_owned(),
        ));
    }
    let on_1 = enable_1 && end_1 != start_1;

    // Check schedule 2 for inconsistencies
    if !(start_hour_2 < 24 && start_minute_2 < 60) {
        return Err(FoxError::ScheduleBuildError("charge schedule 2 start time error".to_owned()));
    }
    if !(end_hour_2 < 24 && end_minute_2 < 60) {
        return Err(FoxError::ScheduleBuildError("charge schedule 2 end time error".to_owned()));
    }
    let start_2: u32 = start_hour_2 as u32 * 60 + start_minute_2 as u32;
    let end_2: u32 = end_hour_2 as u32 * 60 + end_minute_2 as u32;
    if end_2 < start_2 {
        return Err(FoxError::ScheduleBuildError(
            "charge schedule 2 start time is after end time".to_owned(),
        ));
    }
    let on_2 = enable_2 && end_2 != start_2;

    // Check if schedules are overlapping
    if on_1 && on_2 && start_2 <= end_1 && start_1 <= end_2 {
        return Err(FoxError::ScheduleBuildError("overlapping charge schedules".to_owned()));
    }

    let window_1 = if on_1 {
        (ChargingTime { hour: start_hour_1, minute: start_minute_1 },
         ChargingTime { hour: end_hour_1, minute: end_minute_1 })
    } else {
        (ChargingTime { hour: 0, minute: 0 }, ChargingTime { hour: 0, minute: 0 })
    };
    let window_2 = if on_2 {
        (ChargingTime { hour: start_hour_2, minute: start_minute_2 },
         ChargingTime { hour: end_hour_2, minute: end_minute_2 })
    } else {
        (ChargingTime { hour: 0, minute: 0 }, ChargingTime { hour: 0, minute: 0 })
    };

    // All checks seem fine, return schedule struct
    Ok(ChargingTimeSchedule {
        sn: sn.to_owned(),
        enable_1: on_1,
        start_time_1: window_1.0,
        end_time_1: window_1.1,
        enable_2: on_2,
        start_time_2: window_2.0,
        end_time_2: window_2.1,
    })
}

/// Whether the fields of a schedule are consistent: an enabled window has
/// valid times and starts before it ends; a disabled window is zeroed.
pub open spec fn schedule_well_formed(f: ScheduleFields) -> bool {
    &&& (f.0 ==> valid_time(f.1, f.2) && valid_time(f.3, f.4)
        && minute_of_day(f.1, f.2) < minute_of_day(f.3, f.4))
    &&& (!f.0 ==> f.1 == 0 && f.2 == 0 && f.3 == 0 && f.4 == 0)
    &&& (f.5 ==> valid_time(f.6, f.7) && valid_time(f.8, f.9)
        && minute_of_day(f.6, f.7) < minute_of_day(f.8, f.9))
    &&& (!f.5 ==> f.6 == 0 && f.7 == 0 && f.8 == 0 && f.9 == 0)
}

/// A schedule that validation accepts is consistent: enabled windows are
/// valid and non-empty, disabled windows are zeroed, and two enabled windows
/// share no minute.
pub proof fn lemma_schedule_well_formed(
    enable_1: bool, start_hour_1: u8, start_minute_1: u8, end_hour_1: u8, end_minute_1: u8,
    enable_2: bool, start_hour_2: u8, start_minute_2: u8, end_hour_2: u8, end_minute_2: u8,
)
    ensures
        charge_schedule_outcome(enable_1, start_hour_1, start_minute_1, end_hour_1, end_minute_1,
            enable_2, start_hour_2, start_minute_2, end_hour_2, end_minute_2) matches Ok(f) ==> {
            &&& schedule_well_formed(f)
            &&& (f.0 && f.5 ==> !(minute_of_day(f.6, f.7) <= minute_of_day(f.3, f.4)
                && minute_of_day(f.1, f.2) <= minute_of_day(f.8, f.9)))
        },
{
}

/// Two windows that validation accepts and enables do not overlap (both ends
/// inclusive): one ends before the other starts.
pub proof fn lemma_enabled_windows_disjoint(
    enable_1: bool, start_hour_1: u8, start_minute_1: u8, end_hour_1: u8, end_minute_1: u8,
    enable_2: bool, start_hour_2: u8, start_minute_2: u8, end_hour_2: u8, end_minute_2: u8,
)
    ensures
        charge_schedule_outcome(enable_1, start_hour_1, start_minute_1, end_hour_1, end_minute_1,
            enable_2, start_hour_2, start_minute_2, end_hour_2, end_minute_2) matches Ok(f) ==>
            (f.0 && f.5 ==> minute_of_day(f.3, f.4) < minute_of_day(f.6, f.7)
                || minute_of_day(f.8, f.9) < minute_of_day(f.1, f.2)),
{
}

/// Validation corrects a schedule once: validating the schedule that it
/// gives yields that schedule again.
pub proof fn lemma_schedule_validation_idempotent(
    enable_1: bool, start_hour_1: u8, start_minute_1: u8, end_hour_1: u8, end_minute_1: u8,
    enable_2: bool, start_hour_2: u8, start_minute_2: u8, end_hour_2: u8, end_minute_2: u8,
)
    ensures
        charge_schedule_outcome(enable_1, start_hour_1, start_minute_1, end_hour_1, end_minute_1,
            enable_2, start_hour_2, start_minute_2, end_hour_2, end_minute_2) matches Ok(f) ==>
            charge_schedule_outcome(f.0, f.1, f.2, f.3, f.4, f.5, f.6, f.7, f.8, f.9) == Ok::<ScheduleFields, Seq<char>>(f),
{
}

/// Validation accepts a schedule exactly when all four times are valid, each
/// window ends no earlier than it starts, and two enabled windows that are
/// not empty share no minute (both ends inclusive).
pub proof fn lemma_schedule_accepted_iff(
    enable_1: bool, start_hour_1: u8, start_minute_1: u8, end_hour_1: u8, end_minute_1: u8,
    enable_2: bool, start_hour_2: u8, start_minute_2: u8, end_hour_2: u8, end_minute_2: u8,
)
    ensures
        charge_schedule_outcome(enable_1, start_hour_1, start_minute_1, end_hour_1, end_minute_1,
            enable_2, start_hour_2, start_minute_2, end_hour_2, end_minute_2) is Ok <==> {
            let s1 = start_hour_1 * 60 + start_minute_1;
            let e1 = end_hour_1 * 60 + end_minute_1;
            let s2 = start_hour_2 * 60 + start_minute_2;
            let e2 = end_hour_2 * 60 + end_minute_2;
            &&& start_hour_1 <= 23 && start_minute_1 <= 59 && end_hour_1 <= 23 && end_minute_1 <= 59
            &&& start_hour_2 <= 23 && start_minute_2 <= 59 && end_hour_2 <= 23 && end_minute_2 <= 59
            &&& s1 <= e1 && s2 <= e2
            &&& !(enable_1 && s1 < e1 && enable_2 && s2 < e2 && s2 <= e1 && s1 <= e2)
        },
{
}

/// Validation accepts every pair of consistent windows: when both windows are
/// enabled, have valid times, start before they end, and share no minute
/// (one ends before the other starts), the schedule keeps both unchanged.
pub proof fn lemma_disjoint_windows_accepted(
    start_hour_1: u8, start_minute_1: u8, end_hour_1: u8, end_minute_1: u8,
    start_hour_2: u8, start_minute_2: u8, end_hour_2: u8, end_minute_2: u8,
)
    requires
        start_hour_1 < 24 && start_minute_1 < 60 && end_hour_1 < 24 && end_minute_1 < 60,
        start_hour_2 < 24 && start_minute_2 < 60 && end_hour_2 < 24 && end_minute_2 < 60,
        start_hour_1 * 60 + start_minute_1 < end_hour_1 * 60 + end_minute_1,
        start_hour_2 * 60 + start_minute_2 < end_hour_2 * 60 + end_minute_2,
        end_hour_1 * 60 + end_minute_1 < start_hour_2 * 60 + start_minute_2
            || end_hour_2 * 60 + end_minute_2 < start_hour_1 * 60 + start_minute_1,
    ensures
        charge_schedule_outcome(true, start_hour_1, start_minute_1, end_hour_1, end_minute_1,
            true, start_hour_2, start_minute_2, end_hour_2, end_minute_2)
            == Ok::<ScheduleFields, Seq<char>>((true, start_hour_1, start_minute_1, end_hour_1, end_minute_1,
                true, start_hour_2, start_minute_2, end_hour_2, end_minute_2)),
{
}

/// Validation reports an overlap only for two enabled windows, each with an
/// end after its start, that share a minute (both ends inclusive).
pub proof fn lemma_overlap_only_when_shared(
    enable_1: bool, start_hour_1: u8, start_minute_1: u8, end_hour_1: u8, end_minute_1: u8,
    enable_2: bool, start_hour_2: u8, start_minute_2: u8, end_hour_2: u8, end_minute_2: u8,
)
    ensures
        charge_schedule_outcome(enable_1, start_hour_1, start_minute_1, end_hour_1, end_minute_1,
            enable_2, start_hour_2, start_minute_2, end_hour_2, end_minute_2)
            == Err::<ScheduleFields, Seq<char>>("overlapping charge schedules"@) ==> {
            &&& enable_1 && enable_2
            &&& start_hour_1 * 60 + start_minute_1 < end_hour_1 * 60 + end_minute_1
            &&& start_hour_2 * 60 + start_minute_2 < end_hour_2 * 60 + end_minute_2
            &&& start_hour_2 * 60 + start_minute_2 <= end_hour_1 * 60 + end_minute_1
            &&& start_hour_1 * 60 + start_minute_1 <= end_hour_2 * 60 + end_minute_2
        },
{
    reveal_strlit("overlapping charge schedules");
    reveal_strlit("charge schedule 1 start time error");
    reveal_strlit("charge schedule 1 end time error");
    reveal_strlit("charge schedule 1 start time is after end time");
    reveal_strlit("charge schedule 2 start time error");
    reveal_strlit("charge schedule 2 end time error");
    reveal_strlit("charge schedule 2 start time is after end time");
    let overlap = "overlapping charge schedules"@;
    assert(overlap[0] == 'o');
    assert("charge schedule 1 start time error"@[0] == 'c');
    assert("charge schedule 1 end time error"@[0] == 'c');
    assert("charge schedule 1 start time is after end time"@[0] == 'c');
    assert("charge schedule 2 start time error"@[0] == 'c');
    assert("charge schedule 2 end time error"@[0] == 'c');
    assert("charge schedule 2 start time is after end time"@[0] == 'c');
}

} // verus!
