//! Decisions of the reminder engine: when to nudge the user about their
//! health, and with which message.
use crate::events::UtcTimestamp;
use crate::sources::{parse_utc, parse_utc_time};
use crate::summarizer::utc_now;
use vstd::prelude::*;

verus! {

/// The title of a due-reminder notification.
pub fn reminder_title() -> (res: String)
    ensures
        res@ == "Meridian Reminder"@,
{
    String::from_str("Meridian Reminder")
}

/// The settings key that records the last health nudge.
pub fn last_nudge_key() -> (res: String)
    ensures
        res@ == "last_health_nudge"@,
{
    String::from_str("last_health_nudge")
}

/// Whether the local hour is within nudging hours (9 to 18 inclusive).
pub open spec fn in_nudge_hours(hour: u32) -> bool {
    9 <= hour <= 18
}

/// The time from `last` to `now` in nanoseconds.
pub open spec fn elapsed_nanos(last: UtcTimestamp, now: UtcTimestamp) -> int {
    (now.secs - last.secs) * 1_000_000_000 + (now.nanos - last.nanos)
}

/// Whether at least 90 whole minutes have passed since `last`.
pub open spec fn ninety_minutes_passed(last: UtcTimestamp, now: UtcTimestamp) -> bool {
    elapsed_nanos(last, now) >= 5_400_000_000_000
}

/// Whether a nudge is due: never nudged before (empty record), or at least 90
/// minutes since the recorded time (a record that does not parse counts as
/// just now).
pub open spec fn nudge_due(last_record: Seq<char>, now: UtcTimestamp) -> bool {
    if last_record.len() == 0 {
        true
    } else {
        match parse_utc_time(last_record) {
            Some(last) => ninety_minutes_passed(last, now),
            None => false,
        }
    }
}

/// Which of the three nudges to show at a given time: it changes every half
/// hour.
pub open spec fn nudge_index(now: UtcTimestamp) -> int {
    (now.secs / 1800) % 3
}

/// The three nudges: hydration, a break, posture.
pub open spec fn nudge_text(i: int) -> (Seq<char>, Seq<char>) {
    if i == 0 {
        ("💧 Stay Hydrated"@, "Time to drink some water. Hydration boosts focus by up to 30%."@)
    } else if i == 1 {
        ("🧘 Take a Break"@, "You've been at it for a while. Stand up and stretch for 2 minutes."@)
    } else {
        ("🪑 Check Posture"@, "Sit up straight, relax your shoulders. Your back will thank you."@)
    }
}

fn passed_ninety_minutes(last: UtcTimestamp, now: UtcTimestamp) -> (res: bool)
    ensures
        res == ninety_minutes_passed(last, now),
{
    let secs: i128 = now.secs as i128 - last.secs as i128;
    let nanos: i128 = now.nanos as i128 - last.nanos as i128;
    assert(-0x1_0000_0000_0000_0000 <= secs <= 0x1_0000_0000_0000_0000);
    let total: i128 = secs * 1_000_000_000 + nanos;
    total >= 5_400_000_000_000
}

/// With no recorded nudge, a nudge is due at once. With a recorded one, the
/// next is due exactly when at least 90 minutes of real time have passed
/// since it, counted in seconds and nanoseconds across days: more than 5400
/// whole seconds always suffice, fewer never do.
pub proof fn law_nudge_due_after_ninety_minutes(record: Seq<char>, last: UtcTimestamp, now: UtcTimestamp)
    ensures
        nudge_due(seq![], now),
        record.len() > 0 && parse_utc_time(record) == Some(last) ==> (nudge_due(record, now) <==> (
        now.secs - last.secs) * 1_000_000_000 + (now.nanos - last.nanos) >= 5_400_000_000_000),
        record.len() > 0 && parse_utc_time(record) == Some(last) && last.nanos < 1_000_000_000
            && now.secs - last.secs > 5400 ==> nudge_due(record, now),
        record.len() > 0 && parse_utc_time(record) == Some(last) && now.nanos < 1_000_000_000
            && now.secs - last.secs < 5400 ==> !nudge_due(record, now),
        record.len() > 0 && parse_utc_time(record) is None ==> !nudge_due(record, now),
{
}

/// The nudge to show, if any, given the local hour, the recorded time of the
/// last nudge (empty when there is none) and the current time.
pub fn health_nudge(hour: u32, last_record: &str, now: UtcTimestamp) -> (res: Option<(String, String)>)
    requires
        now.secs >= 0,
    ensures
        match res {
            Some((title, body)) => {
                &&& in_nudge_hours(hour)
                &&& nudge_due(last_record@, now)
                &&& (title@, body@) == nudge_text(nudge_index(now))
            },
            None => !in_nudge_hours(hour) || !nudge_due(last_record@, now),
        },
        hour < 9 || hour > 18 ==> res is None,
        9 <= hour <= 18 && last_record@.len() == 0 ==> res is Some,
        9 <= hour <= 18 && last_record@.len() > 0 && parse_utc_time(last_record@) is None ==> res is None,
        (9 <= hour <= 18 && last_record@.len() > 0) ==> (parse_utc_time(last_record@) matches Some(last)
            ==> (res is Some <==> (now.secs - last.secs) * 1_000_000_000 + (now.nanos - last.nanos)
            >= 5_400_000_000_000)),
        res matches Some((title, body)) ==> {
            &&& (now.secs / 1800) % 3 == 0 ==> title@ == "💧 Stay Hydrated"@ && body@
                == "Time to drink some water. Hydration boosts focus by up to 30%."@
            &&& (now.secs / 1800) % 3 == 1 ==> title@ == "🧘 Take a Break"@ && body@
                == "You've been at it for a while. Stand up and stretch for 2 minutes."@
            &&& (now.secs / 1800) % 3 == 2 ==> title@ == "🪑 Check Posture"@ && body@
                == "Sit up straight, relax your shoulders. Your back will thank you."@
        },
{
    if hour < 9 || hour > 18 {
        return None;
    }
    let due = if last_record.is_empty() {
        true
    } else {
        match parse_utc(last_record) {
            Some(last) => passed_ninety_minutes(last, now),
            None => false,
        }
    };
    if !due {
        return None;
    }
    let idx = now.secs / 1800 % 3;
    if idx == 0 {
        Some(
            (
                String::from_str("💧 Stay Hydrated"),
                String::from_str("Time to drink some water. Hydration boosts focus by up to 30%."),
            ),
        )
    } else if idx == 1 {
        Some(
            (
                String::from_str("🧘 Take a Break"),
                String::from_str("You've been at it for a while. Stand up and stretch for 2 minutes."),
            ),
        )
    } else {
        Some(
            (
                String::from_str("🪑 Check Posture"),
                String::from_str("Sit up straight, relax your shoulders. Your back will thank you."),
            ),
        )
    }
}

/// `chrono::Local::now().hour()`: the local hour, below 24. Nothing else is
/// promised of it.
#[verifier::external_body]
fn local_hour() -> (res: u32)
    ensures
        res < 24,
{
    chrono::Timelike::hour(&chrono::Local::now())
}

/// The nudge to show now, if any, with the current time (to record when a
/// nudge is shown) and the local hour that were read. A nudge is shown exactly
/// when the hour is within nudging hours and a nudge is due at that time; no
/// nudge is chosen when the clock reads before 1970.
pub fn health_nudge_now(last_record: &str) -> (res: (Option<(String, String)>, UtcTimestamp, u32))
    ensures
        res.2 < 24,
        res.1.secs < 0 ==> res.0 is None,
        res.1.secs >= 0 ==> (res.0 is Some <==> (in_nudge_hours(res.2) && nudge_due(
            last_record@,
            res.1,
        ))),
        res.0 matches Some((title, body)) ==> (title@, body@) == nudge_text(nudge_index(res.1)),
{
    let hour = local_hour();
    let now = utc_now();
    if now.secs < 0 {
        return (None, now, hour);
    }
    (health_nudge(hour, last_record, now), now, hour)
}

} // verus!
