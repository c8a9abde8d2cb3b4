use meridian::events::{UnifiedEvent, UtcTimestamp};
use meridian::summarizer::{
    basic_summary, compose_daily_summary, default_priorities, default_quote, events_from_sources,
    extract_json_array, priorities_from_answer, AiDigest, DailySummary,
};

fn ev(id: &str, source: &str, title: &str, priority: Option<&str>, url: Option<&str>) -> UnifiedEvent {
    UnifiedEvent {
        id: id.to_string(),
        source: source.to_string(),
        title: title.to_string(),
        body: format!("body of {id}"),
        sender: None,
        url: url.map(|u| u.to_string()),
        received_at: UtcTimestamp { secs: 1_700_000_000, nanos: 0 },
        priority: priority.map(|p| p.to_string()),
    }
}

const T0: UtcTimestamp = UtcTimestamp { secs: 1_700_000_000, nanos: 5 };

#[test]
fn default_quote_text() {
    assert_eq!(default_quote(), "Start each day with a clear mind and a focused plan.");
}

#[test]
fn empty_summary() {
    let s = DailySummary::empty_at(T0);
    assert_eq!(s.email_summary, "No new emails.");
    assert_eq!(s.slack_summary, "No new Slack messages.");
    assert_eq!(s.jira_summary, "No new Jira updates.");
    assert_eq!(s.zoom_summary, "No upcoming meetings.");
    assert_eq!(s.gchat_summary, "No new Google Chat messages.");
    assert!(s.top_priorities.is_empty());
    assert_eq!(s.raw_event_count, 0);
    assert_eq!(s.generated_at, T0);
    assert_eq!(DailySummary::empty().raw_event_count, 0);
}

#[test]
fn basic_summary_empty_and_lists_three() {
    assert_eq!(basic_summary("Slack", &[]), "No new Slack updates.");
    let evs: Vec<UnifiedEvent> = (0..5).map(|i| ev(&i.to_string(), "slack", &format!("T{i}"), None, None)).collect();
    assert_eq!(basic_summary("Slack", &evs), "5 new Slack item(s):\n• T0\n• T1\n• T2");
    assert_eq!(basic_summary("Jira", &evs[..1]), "1 new Jira item(s):\n• T0");
    let many: Vec<UnifiedEvent> = (0..12).map(|i| ev(&i.to_string(), "x", "t", None, None)).collect();
    assert!(basic_summary("email", &many).starts_with("12 new email item(s):\n"));
}

#[test]
fn grouping_by_source() {
    let evs = vec![
        ev("1", "gmail", "a", None, None),
        ev("2", "slack", "b", None, None),
        ev("3", "outlook", "c", None, None),
    ];
    let email = events_from_sources(&evs, "gmail", "outlook");
    assert_eq!(email.iter().map(|e| e.id.as_str()).collect::<Vec<_>>(), vec!["1", "3"]);
    assert_eq!(events_from_sources(&evs, "zoom", "zoom").len(), 0);
}

#[test]
fn default_priorities_takes_first_three_high() {
    let evs = vec![
        ev("1", "jira", "A", Some("high"), Some("u1")),
        ev("2", "jira", "B", Some("low"), None),
        ev("3", "gmail", "C", Some("high"), None),
        ev("4", "slack", "D", None, None),
        ev("5", "jira", "E", Some("high"), None),
        ev("6", "jira", "F", Some("high"), None),
    ];
    let p = default_priorities(&evs);
    assert_eq!(p.len(), 3);
    assert_eq!(p[0].title, "A");
    assert_eq!(p[0].url.as_deref(), Some("u1"));
    assert_eq!(p[1].title, "C");
    assert_eq!(p[2].title, "E");
    assert!(p.iter().all(|i| i.priority == "high" && i.action == "Review and respond"));
}

#[test]
fn extract_json_array_cases() {
    assert_eq!(extract_json_array("Sure! [1, 2] hope it helps"), "[1, 2]");
    assert_eq!(extract_json_array("no brackets"), "no brackets");
    assert_eq!(extract_json_array("tail]"), "tail]");
    assert_eq!(extract_json_array("] then ["), "[]");
    assert_eq!(extract_json_array("[a] and [b]"), "[a] and [b]");
}

#[test]
fn priorities_from_model_answer() {
    let evs = vec![ev("1", "jira", "X", None, Some("https://jira/1")), ev("2", "jira", "Y", None, Some("https://jira/2"))];
    let answer = "Here: [{\"title\":\"Fix bug\",\"source\":\"jira\",\"priority\":\"high\"},{\"source\":\"slack\"}] done";
    let p = priorities_from_answer(answer, &evs);
    assert_eq!(p.len(), 2);
    assert_eq!(p[0].title, "Fix bug");
    assert_eq!(p[0].url.as_deref(), Some("https://jira/1"));
    assert_eq!(p[0].priority, "high");
    assert_eq!(p[0].action, "Review this item");
    assert_eq!(p[1].title, "");
    assert_eq!(p[1].url, None);
    assert_eq!(p[1].priority, "medium");
    assert!(priorities_from_answer("not json", &evs).is_empty());
}

#[test]
fn compose_without_model_uses_fallbacks() {
    let evs = vec![
        ev("1", "gmail", "Invoice", Some("high"), None),
        ev("2", "zoom", "Standup", Some("medium"), None),
    ];
    let s = compose_daily_summary(&evs, None, T0);
    assert_eq!(s.email_summary, "1 new email item(s):\n• Invoice");
    assert_eq!(s.slack_summary, "No new Slack updates.");
    assert_eq!(s.zoom_summary, "1 new Zoom item(s):\n• Standup");
    assert_eq!(s.gchat_summary, "No new Google Chat updates.");
    assert_eq!(s.top_priorities.len(), 1);
    assert_eq!(s.motivational, default_quote());
    assert_eq!(s.raw_event_count, 2);
}

#[test]
fn compose_with_model_prefers_answers() {
    let evs = vec![ev("1", "slack", "Ping", Some("high"), None)];
    let ai = AiDigest {
        email: Some("No new emails.".to_string()),
        slack: None,
        jira: Some("Jira fine".to_string()),
        priorities: None,
        motivational: Some("Go!".to_string()),
    };
    let s = compose_daily_summary(&evs, Some(ai), T0);
    assert_eq!(s.email_summary, "No new emails.");
    assert_eq!(s.slack_summary, "1 new Slack item(s):\n• Ping");
    assert_eq!(s.jira_summary, "Jira fine");
    assert!(s.top_priorities.is_empty());
    assert_eq!(s.motivational, "Go!");
}

#[test]
fn compose_with_no_events_is_empty() {
    let s = compose_daily_summary(&[], None, T0);
    assert_eq!(s.email_summary, "No new emails.");
    assert_eq!(s.raw_event_count, 0);
}
