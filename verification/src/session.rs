//! Market-local time of day and the two session windows of the chart.

use chrono::TimeZone;
use chrono::Timelike;
use vstd::prelude::*;

verus! {

/// Minute of the day at which regular trading opens (09:30).
pub const REGULAR_OPEN_MINUTE: u32 = 570;

/// Minute of the day at which extended trading opens (04:00).
pub const EXTENDED_OPEN_MINUTE: u32 = 240;

/// Minute of the day in the middle of the regular session's axis (13:00).
pub const MIDDAY_MINUTE: u32 = 780;

/// Minute of the day at which both sessions close (16:00).
pub const CLOSE_MINUTE: u32 = 960;

/// Number of minutes in a day.
pub const MINUTES_PER_DAY: u32 = 1440;

/// Hour and minute shown by a wall clock in the US/Eastern time zone at the
/// instant `timestamp` seconds after the Unix epoch, or `None` for an instant
/// outside the range of dates that the calendar library represents.
pub uninterp spec fn eastern_wall_clock(timestamp: i64) -> Option<(u32, u32)>;

/// Calls chrono's `Utc.timestamp_opt(timestamp, 0)`, moves the instant to
/// chrono-tz's `US::Eastern` with `DateTime::with_timezone`, and reads
/// `Timelike::hour` and `Timelike::minute`. Trusted, not proved: the result
/// is a function of the timestamp alone, because the zone rules are compiled
/// into chrono-tz and nothing of the machine is asked; and the hour is at
/// most 23 and the minute at most 59, as chrono documents for `Timelike`.
/// `timestamp_opt` does not panic, and gives no instant for a timestamp
/// outside chrono's range of dates.
#[verifier::external_body]
fn eastern_hour_minute(timestamp: i64) -> (clock: Option<(u32, u32)>)
    ensures
        clock == eastern_wall_clock(timestamp),
        clock matches Some((hour, minute)) ==> hour < 24 && minute < 60,
{
    match chrono::Utc.timestamp_opt(timestamp, 0) {
        chrono::LocalResult::Single(utc) => {
            let local = utc.with_timezone(&chrono_tz::US::Eastern);
            Some((local.hour(), local.minute()))
        },
        chrono::LocalResult::Ambiguous(_, _) => None,
        chrono::LocalResult::None => None,
    }
}

/// Minutes since local midnight in the market's time zone at `timestamp`,
/// where the calendar can place the instant.
pub open spec fn minute_of_day(timestamp: i64) -> Option<u32> {
    match eastern_wall_clock(timestamp) {
        Some((hour, minute)) => if hour < 24 && minute < 60 {
            Some((hour * 60 + minute) as u32)
        } else {
            None
        },
        None => None,
    }
}

/// Computes the minutes since local midnight in the market's time zone.
pub fn local_minute_of_day(timestamp: i64) -> (minute: Option<u32>)
    ensures
        minute == minute_of_day(timestamp),
        minute matches Some(m) ==> m < MINUTES_PER_DAY,
{
    match eastern_hour_minute(timestamp) {
        Some((hour, minute)) => Some(hour * 60 + minute),
        None => None,
    }
}

/// Half of the day on a 12-hour clock.
#[derive(Debug, Clone, Copy, PartialEq, Eq, Structural)]
pub enum DayHalf {
    /// Before noon.
    Am,
    /// From noon on.
    Pm,
}

/// A time of day as a clock shows it.
#[derive(Debug, Clone, Copy, PartialEq, Eq, Structural)]
pub struct ClockLabel {
    /// 0 to 23 on a 24-hour clock, 1 to 12 on a 12-hour clock.
    pub hour: u32,
    pub minute: u32,
    /// The half of the day on a 12-hour clock, absent on a 24-hour clock.
    pub half: Option<DayHalf>,
}

/// What a clock shows at a minute of the day. On a 12-hour clock the hours
/// after midnight and after noon read 12.
pub open spec fn clock_of(minute_of_day: u32, use_24h: bool) -> ClockLabel {
    let hour = minute_of_day / 60;
    let minute = minute_of_day % 60;
    if use_24h {
        ClockLabel { hour, minute, half: None }
    } else {
        ClockLabel {
            hour: if hour % 12 == 0 {
                12
            } else {
                hour % 12
            },
            minute,
            half: Some(
                if hour % 24 < 12 {
                    DayHalf::Am
                } else {
                    DayHalf::Pm
                },
            ),
        }
    }
}

/// Reads a minute of the day as a clock shows it.
pub fn clock_label(minute_of_day: u32, use_24h: bool) -> (label: ClockLabel)
    ensures
        label == clock_of(minute_of_day, use_24h),
        label.minute < 60,
        !use_24h ==> 1 <= label.hour <= 12,
        use_24h && minute_of_day < MINUTES_PER_DAY ==> label.hour < 24,
{
    let hour: u32 = minute_of_day / 60;
    let minute: u32 = minute_of_day % 60;
    if use_24h {
        ClockLabel { hour, minute, half: None }
    } else {
        let half = if hour % 24 < 12 {
            DayHalf::Am
        } else {
            DayHalf::Pm
        };
        let shown: u32 = if hour % 12 == 0 {
            12
        } else {
            hour % 12
        };
        ClockLabel { hour: shown, minute, half: Some(half) }
    }
}

/// The span of market-local minutes during which chart points are shown.
#[derive(Debug, Clone, Copy, PartialEq, Eq, Structural)]
pub enum SessionWindow {
    /// Pre-market and regular hours, 04:00 to 16:00.
    Extended,
    /// Regular hours only, 09:30 to 16:00.
    Regular,
}

impl SessionWindow {
    /// First minute of the window.
    pub open spec fn start(self) -> u32 {
        match self {
            SessionWindow::Extended => EXTENDED_OPEN_MINUTE,
            SessionWindow::Regular => REGULAR_OPEN_MINUTE,
        }
    }

    /// Last minute of the window.
    pub open spec fn end(self) -> u32 {
        CLOSE_MINUTE
    }

    /// Whether a point at the given local minute lies inside the window. A
    /// point without a local time lies in no window.
    pub open spec fn includes(self, minute: Option<u32>) -> bool {
        minute matches Some(m) && self.start() <= m <= self.end()
    }

    /// The three minutes at which the time axis carries a label: both ends of
    /// the window and one anchor between them.
    pub open spec fn anchors(self) -> Seq<u32> {
        match self {
            SessionWindow::Extended => seq![EXTENDED_OPEN_MINUTE, REGULAR_OPEN_MINUTE, CLOSE_MINUTE],
            SessionWindow::Regular => seq![REGULAR_OPEN_MINUTE, MIDDAY_MINUTE, CLOSE_MINUTE],
        }
    }

    /// The window selected by the pre-market toggle.
    pub fn for_pre_market(show_pre_market: bool) -> (window: SessionWindow)
        ensures
            window == (if show_pre_market {
                SessionWindow::Extended
            } else {
                SessionWindow::Regular
            }),
    {
        if show_pre_market {
            SessionWindow::Extended
        } else {
            SessionWindow::Regular
        }
    }

    /// First minute of the window.
    pub fn start_minute(self) -> (minute: u32)
        ensures
            minute == self.start(),
    {
        match self {
            SessionWindow::Extended => EXTENDED_OPEN_MINUTE,
            SessionWindow::Regular => REGULAR_OPEN_MINUTE,
        }
    }

    /// Last minute of the window.
    pub fn end_minute(self) -> (minute: u32)
        ensures
            minute == self.end(),
    {
        CLOSE_MINUTE
    }

    /// Decides whether a point at the given local minute is shown.
    pub fn contains(self, minute: Option<u32>) -> (inside: bool)
        ensures
            inside == self.includes(minute),
    {
        match minute {
            Some(m) => self.start_minute() <= m && m <= self.end_minute(),
            None => false,
        }
    }

    /// The minutes at which the time axis carries a label.
    pub fn label_minutes(self) -> (labels: [u32; 3])
        ensures
            labels@ == self.anchors(),
    {
        match self {
            SessionWindow::Extended => [EXTENDED_OPEN_MINUTE, REGULAR_OPEN_MINUTE, CLOSE_MINUTE],
            SessionWindow::Regular => [REGULAR_OPEN_MINUTE, MIDDAY_MINUTE, CLOSE_MINUTE],
        }
    }
}

} // verus!
