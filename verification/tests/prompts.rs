use meridian::events::{UnifiedEvent, UtcTimestamp};
use meridian::prompts::{
    ask_prompt, check_previews, draft_email_prompt, group_prompt, motivational_prompt,
    priorities_prompt, rephrase_prompt, summarize_group, summarize_text_prompt, system_prompt,
    GroupRequest,
};

fn ev(sender: Option<&str>, title: &str, body: &str) -> UnifiedEvent {
    UnifiedEvent {
        id: "1".to_string(),
        source: "gmail".to_string(),
        title: title.to_string(),
        body: body.to_string(),
        sender: sender.map(|s| s.to_string()),
        url: None,
        received_at: UtcTimestamp { secs: 0, nanos: 0 },
        priority: None,
    }
}

#[test]
fn group_prompt_text() {
    let evs = vec![ev(Some("Ann"), "Hi", "hello"), ev(None, "Re", &"x".repeat(250))];
    let p = group_prompt("emails", &evs);
    let expected = format!(
        "Summarize these emails in 2-3 concise bullet points. Focus only on action items, decisions needed, or important updates:\n\n- From: Ann\n  Subject: Hi\n  Preview: hello\n- From: Unknown\n  Subject: Re\n  Preview: {}",
        "x".repeat(200)
    );
    assert_eq!(p, expected);
}

#[test]
fn summarize_group_empty_is_answered() {
    match summarize_group("Slack messages", &[]) {
        GroupRequest::Answered(t) => assert_eq!(t, "No new Slack messages."),
        GroupRequest::Ask(_) => panic!("expected an answer"),
    }
    match summarize_group("emails", &[ev(None, "a", "b")]) {
        GroupRequest::Ask(p) => assert!(p.ends_with("Preview: b")),
        GroupRequest::Answered(_) => panic!("expected a prompt"),
    }
}

#[test]
fn previews_must_cut_on_char_boundary() {
    let mut body = "a".repeat(199);
    body.push('é');
    let evs = vec![ev(None, "t", &body)];
    assert!(!check_previews(&evs, 15, 200));
    assert!(check_previews(&[ev(None, "t", "short é")], 15, 200));
}

#[test]
fn priorities_prompt_text() {
    let evs = vec![ev(None, "Title", "body")];
    let p = priorities_prompt(&evs);
    assert!(p.starts_with("From these work items, identify the TOP 3 that need immediate attention.\nReply ONLY with valid JSON array, no markdown:\n[{\"title\":\"...\""));
    assert!(p.ends_with("\n\nItems:\n[gmail] Title — body"));
}

#[test]
fn simple_prompts() {
    assert!(system_prompt().starts_with("You are Meridian, a concise executive assistant AI. You summarize"));
    assert!(motivational_prompt().contains("under 15 words) for a professional"));
    assert_eq!(
        draft_email_prompt("ctx", "be brief"),
        "Draft a professional email.\nContext: ctx\nInstructions: be brief\nWrite the email body only, starting with the greeting."
    );
    assert_eq!(
        rephrase_prompt("hi", "formal"),
        "Rephrase the following text with a formal tone. Keep the same meaning. Return only the rephrased text:\n\nhi"
    );
    assert_eq!(summarize_text_prompt("abc"), "Summarize this in 2-3 bullet points. Be concise:\n\nabc");
    assert_eq!(ask_prompt("Why?", ""), "Why?");
    assert_eq!(ask_prompt("Why?", "c"), "Context:\nc\n\nQuestion: Why?");
}
