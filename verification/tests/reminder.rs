use meridian::events::UtcTimestamp;
use meridian::reminder::{health_nudge, health_nudge_now, last_nudge_key, reminder_title};

const NOW: UtcTimestamp = UtcTimestamp { secs: 1_800 * 3 * 1000, nanos: 0 };

#[test]
fn keys_and_titles() {
    assert_eq!(last_nudge_key(), "last_health_nudge");
    assert_eq!(reminder_title(), "Meridian Reminder");
}

#[test]
fn nudges_only_in_working_hours() {
    assert!(health_nudge(8, "", NOW).is_none());
    assert!(health_nudge(19, "", NOW).is_none());
    assert!(health_nudge(9, "", NOW).is_some());
    assert!(health_nudge(18, "", NOW).is_some());
}

#[test]
fn nudge_rotates_every_half_hour() {
    let (t0, _) = health_nudge(10, "", NOW).unwrap();
    assert_eq!(t0, "💧 Stay Hydrated");
    let (t1, b1) = health_nudge(10, "", UtcTimestamp { secs: NOW.secs + 1800, nanos: 0 }).unwrap();
    assert_eq!(t1, "🧘 Take a Break");
    assert_eq!(b1, "You've been at it for a while. Stand up and stretch for 2 minutes.");
    let (t2, _) = health_nudge(10, "", UtcTimestamp { secs: NOW.secs + 3600, nanos: 0 }).unwrap();
    assert_eq!(t2, "🪑 Check Posture");
}

#[test]
fn nudge_waits_ninety_minutes() {
    // NOW is 1970-03-04T12:00:00Z (5_400_000 s after the epoch).
    assert!(health_nudge(10, "1970-03-04T10:30:00Z", NOW).is_some());
    assert!(health_nudge(10, "1970-03-04T10:30:01Z", NOW).is_none());
    assert!(health_nudge(10, "not a date", NOW).is_none());
}

#[test]
fn nudge_now_runs() {
    let (nudge, now, hour) = health_nudge_now("");
    assert!(now.secs > 1_600_000_000);
    assert!(hour < 24);
    // Never nudged before: the nudge depends on the hour alone, and is the one
    // the rule picks for that time.
    assert_eq!(nudge.is_some(), (9..=18).contains(&hour));
    if let Some(n) = nudge {
        assert_eq!(Some(n), health_nudge(hour, "", now));
    }
}
