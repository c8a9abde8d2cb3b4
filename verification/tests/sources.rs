use meridian::events::UtcTimestamp;
use meridian::sources::{
    gchat_message_to_event, gmail_message_to_event, hdr, jira_issue_to_event, jira_priority_level,
    outlook_importance_level, outlook_message_to_event, replace_slashes, slack_message_to_event,
    time_or_now, zoom_meeting_to_event, GChatMessage, GmailHeader, GmailMessage, JiraIssue,
    OutlookMessage, SlackMessage, ZoomMeeting,
};

const NOW: UtcTimestamp = UtcTimestamp { secs: 1_700_000_000, nanos: 0 };

fn s(x: &str) -> String {
    x.to_string()
}

#[test]
fn gmail_headers_and_event() {
    let msg = GmailMessage {
        id: s("abc"),
        snippet: None,
        headers: vec![
            GmailHeader { name: s("from"), value: s("ann@example.com") },
            GmailHeader { name: s("SUBJECT"), value: s("Lunch") },
        ],
    };
    assert_eq!(hdr(&msg, "Subject").as_deref(), Some("Lunch"));
    assert_eq!(hdr(&msg, "To"), None);
    let e = gmail_message_to_event(msg, NOW);
    assert_eq!(e.id, "gmail_abc");
    assert_eq!(e.source, "gmail");
    assert_eq!(e.title, "Lunch");
    assert_eq!(e.body, "");
    assert_eq!(e.sender.as_deref(), Some("ann@example.com"));
    assert_eq!(e.url.as_deref(), Some("https://mail.google.com/mail/u/0/#inbox/abc"));
    assert_eq!(e.received_at, NOW);
    let bare = gmail_message_to_event(GmailMessage { id: s("x"), snippet: Some(s("hey")), headers: vec![] }, NOW);
    assert_eq!(bare.title, "(no subject)");
    assert_eq!(bare.sender.as_deref(), Some("Unknown"));
    assert_eq!(bare.body, "hey");
}

#[test]
fn jira_levels_and_event() {
    assert_eq!(jira_priority_level(&Some(s("Highest"))), "high");
    assert_eq!(jira_priority_level(&Some(s("High"))), "high");
    assert_eq!(jira_priority_level(&Some(s("Lowest"))), "low");
    assert_eq!(jira_priority_level(&Some(s("Medium"))), "medium");
    assert_eq!(jira_priority_level(&None), "medium");
    let e = jira_issue_to_event(
        JiraIssue { id: s("10"), key: s("MER-1"), summary: s("Crash"), status: s("Open"), priority: None },
        "https://acme.atlassian.net",
        NOW,
    );
    assert_eq!(e.id, "jira_10");
    assert_eq!(e.title, "[MER-1] Crash");
    assert_eq!(e.body, "Status: Open | Priority: Medium");
    assert_eq!(e.url.as_deref(), Some("https://acme.atlassian.net/browse/MER-1"));
    assert_eq!(e.priority.as_deref(), Some("medium"));
}

#[test]
fn outlook_levels_and_event() {
    assert_eq!(outlook_importance_level(&Some(s("high"))), "high");
    assert_eq!(outlook_importance_level(&Some(s("normal"))), "medium");
    assert_eq!(outlook_importance_level(&Some(s("low"))), "low");
    assert_eq!(outlook_importance_level(&None), "low");
    let e = outlook_message_to_event(
        OutlookMessage {
            id: s("m1"),
            subject: None,
            body_preview: Some(s("preview")),
            sender_address: Some(s("bob@example.com")),
            web_link: Some(s("https://outlook/1")),
            received_date_time: Some(s("2024-01-02T03:04:05Z")),
            importance: Some(s("high")),
        },
        NOW,
    );
    assert_eq!(e.id, "outlook_m1");
    assert_eq!(e.title, "(no subject)");
    assert_eq!(e.received_at, UtcTimestamp { secs: 1_704_164_645, nanos: 0 });
    assert_eq!(e.priority.as_deref(), Some("high"));
}

#[test]
fn times_parse_or_fall_back_to_now() {
    assert_eq!(time_or_now(&Some(s("2024-01-02T03:04:05+01:00")), NOW), UtcTimestamp { secs: 1_704_161_045, nanos: 0 });
    assert_eq!(time_or_now(&Some(s("garbage")), NOW), NOW);
    assert_eq!(time_or_now(&None, NOW), NOW);
}

#[test]
fn zoom_event() {
    let e = zoom_meeting_to_event(
        ZoomMeeting { id: s("123"), topic: s("Standup"), start_time: None, duration: Some(15), join_url: None },
        NOW,
    );
    assert_eq!(e.id, "zoom_123");
    assert_eq!(e.body, "Scheduled: TBD | Duration: 15 min");
    assert_eq!(e.priority.as_deref(), Some("medium"));
    assert_eq!(e.received_at, NOW);
}

#[test]
fn gchat_event() {
    assert_eq!(replace_slashes("spaces/A/messages/B"), "spaces_A_messages_B");
    let e = gchat_message_to_event(
        &None,
        GChatMessage { name: s("spaces/A/messages/B"), text: "y".repeat(70), sender_display_name: Some(s("Cy")), create_time: None },
        NOW,
    );
    assert_eq!(e.id, "gchat_spaces_A_messages_B");
    assert_eq!(e.title, format!("Chat — {}", "y".repeat(60)));
    assert_eq!(e.sender.as_deref(), Some("Cy"));
}

#[test]
fn slack_event() {
    let e = slack_message_to_event(
        SlackMessage { ts: s("1700000000.1"), text: s("hi @me"), username: None, permalink: Some(s("p")), channel_name: s("general") },
        NOW,
    );
    assert_eq!(e.id, "slack_1700000000.1");
    assert_eq!(e.title, "#general — hi @me");
    assert_eq!(e.url.as_deref(), Some("p"));
}
