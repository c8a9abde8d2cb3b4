//! How the items each service returns become unified events.
use crate::events::{clone_opt_string, UnifiedEvent, UtcTimestamp};
use crate::summarizer::{opt_text, or_default};
use crate::text::{
    byte_prefix, byte_prefix_of, chars_of, concat, cut_fits, decimal, decimal_spec,
    eq_ignore_ascii_case, eq_ignore_ascii_case_spec, push_char, str_eq,
};
use vstd::prelude::*;

verus! {

/// What `chrono` parses a text to as a UTC time (the text is RFC 3339 with
/// any offset, which is converted to UTC); `None` where it refuses the text.
pub uninterp spec fn parse_utc_time(text: Seq<char>) -> Option<UtcTimestamp>;

/// `text.parse::<DateTime<Utc>>()`, as seconds and nanoseconds; its result is named.
#[verifier::external_body]
pub(crate) fn parse_utc(text: &str) -> (res: Option<UtcTimestamp>)
    ensures
        res == parse_utc_time(text@),
{
    text.parse::<chrono::DateTime<chrono::Utc>>().ok().map(
        |t| UtcTimestamp { secs: t.timestamp(), nanos: t.timestamp_subsec_nanos() },
    )
}

/// The time of an item: its parsed timestamp, or `now` when it has none or
/// it does not parse.
pub open spec fn time_or(text: Option<String>, now: UtcTimestamp) -> UtcTimestamp {
    match text {
        Some(t) => match parse_utc_time(t@) {
            Some(x) => x,
            None => now,
        },
        None => now,
    }
}

/// The time of an item: its parsed timestamp, or `now`.
pub fn time_or_now(text: &Option<String>, now: UtcTimestamp) -> (res: UtcTimestamp)
    ensures
        res == time_or(*text, now),
{
    match text {
        Some(t) => match parse_utc(t.as_str()) {
            Some(x) => x,
            None => now,
        },
        None => now,
    }
}

fn text_or(o: Option<String>, d: &str) -> (res: String)
    ensures
        res@ == or_default(opt_text(o), d@),
{
    match o {
        Some(s) => s,
        None => String::from_str(d),
    }
}

// ── Gmail ───────────────────────────────────────────────────────────────────

/// A message header.
#[derive(Debug, Clone)]
pub struct GmailHeader {
    pub name: String,
    pub value: String,
}

/// A Gmail message's metadata.
#[derive(Debug, Clone)]
pub struct GmailMessage {
    pub id: String,
    pub snippet: Option<String>,
    pub headers: Vec<GmailHeader>,
}

/// The value of the first header with the given name (ASCII case ignored).
pub open spec fn header_value(headers: Seq<GmailHeader>, name: Seq<char>) -> Option<Seq<char>>
    decreases headers.len(),
{
    if headers.len() == 0 {
        None
    } else if eq_ignore_ascii_case_spec(headers[0].name@, name) {
        Some(headers[0].value@)
    } else {
        header_value(headers.skip(1), name)
    }
}

/// The value of the first header with the given name (ASCII case ignored).
pub fn hdr(msg: &GmailMessage, name: &str) -> (res: Option<String>)
    ensures
        opt_text(res) == header_value(msg.headers@, name@),
{
    let mut i: usize = 0;
    assert(msg.headers@.skip(0) =~= msg.headers@);
    while i < msg.headers.len()
        invariant
            0 <= i <= msg.headers@.len(),
            header_value(msg.headers@, name@) == header_value(msg.headers@.skip(i as int), name@),
        decreases msg.headers@.len() - i,
    {
        let ghost rest = msg.headers@.skip(i as int);
        assert(rest[0] == msg.headers@[i as int]);
        assert(rest.skip(1) =~= msg.headers@.skip(i + 1));
        if eq_ignore_ascii_case(msg.headers[i].name.as_str(), name) {
            return Some(msg.headers[i].value.clone());
        }
        i = i + 1;
    }
    None
}

/// The event for a Gmail message fetched at `now`.
pub open spec fn is_gmail_event(e: UnifiedEvent, msg: GmailMessage, now: UtcTimestamp) -> bool {
    &&& e.id@ == "gmail_"@ + msg.id@
    &&& e.source@ == "gmail"@
    &&& e.title@ == or_default(header_value(msg.headers@, "Subject"@), "(no subject)"@)
    &&& e.body@ == or_default(opt_text(msg.snippet), ""@)
    &&& opt_text(e.sender) == Some(or_default(header_value(msg.headers@, "From"@), "Unknown"@))
    &&& opt_text(e.url) == Some("https://mail.google.com/mail/u/0/#inbox/"@ + msg.id@)
    &&& e.received_at == now
    &&& e.priority is None
}

/// The event for a Gmail message fetched at `now`.
pub fn gmail_message_to_event(msg: GmailMessage, now: UtcTimestamp) -> (res: UnifiedEvent)
    ensures
        is_gmail_event(res, msg, now),
{
    let subject = text_or(hdr(&msg, "Subject"), "(no subject)");
    let from = text_or(hdr(&msg, "From"), "Unknown");
    UnifiedEvent {
        id: concat("gmail_", msg.id.as_str()),
        source: String::from_str("gmail"),
        title: subject,
        body: text_or(clone_opt_string(&msg.snippet), ""),
        sender: Some(from),
        url: Some(concat("https://mail.google.com/mail/u/0/#inbox/", msg.id.as_str())),
        received_at: now,
        priority: None,
    }
}

// ── Jira ────────────────────────────────────────────────────────────────────

/// A Jira issue as the search returns it.
#[derive(Debug, Clone)]
pub struct JiraIssue {
    pub id: String,
    pub key: String,
    pub summary: String,
    pub status: String,
    pub priority: Option<String>,
}

/// Meridian's priority for a Jira priority name: `Highest` and `High` are
/// high, `Low` and `Lowest` are low, anything else is medium.
pub open spec fn jira_level(p: Option<Seq<char>>) -> Seq<char> {
    match p {
        Some(n) => if n == "Highest"@ || n == "High"@ {
            "high"@
        } else if n == "Low"@ || n == "Lowest"@ {
            "low"@
        } else {
            "medium"@
        },
        None => "medium"@,
    }
}

/// Meridian's priority for a Jira priority name.
pub fn jira_priority_level(p: &Option<String>) -> (res: String)
    ensures
        res@ == jira_level(opt_text(*p)),
        p matches Some(n) && (n@ == "Highest"@ || n@ == "High"@) ==> res@ == "high"@,
        p matches Some(n) && (n@ == "Low"@ || n@ == "Lowest"@) ==> res@ == "low"@,
        p matches Some(n) && !(n@ == "Highest"@ || n@ == "High"@ || n@ == "Low"@ || n@
            == "Lowest"@) ==> res@ == "medium"@,
        p is None ==> res@ == "medium"@,
{
    proof {
        lemma_jira_names_differ();
    }
    match p {
        Some(n) => if str_eq(n.as_str(), "Highest") || str_eq(n.as_str(), "High") {
            String::from_str("high")
        } else if str_eq(n.as_str(), "Low") || str_eq(n.as_str(), "Lowest") {
            String::from_str("low")
        } else {
            String::from_str("medium")
        },
        None => String::from_str("medium"),
    }
}

proof fn lemma_jira_names_differ()
    ensures
        "Highest"@ != "High"@,
        "Highest"@ != "Low"@,
        "Highest"@ != "Lowest"@,
        "High"@ != "Low"@,
        "High"@ != "Lowest"@,
        "Low"@ != "Lowest"@,
        "high"@ != "low"@,
        "high"@ != "medium"@,
        "low"@ != "medium"@,
{
    reveal_strlit("Highest");
    reveal_strlit("High");
    reveal_strlit("Low");
    reveal_strlit("Lowest");
    reveal_strlit("high");
    reveal_strlit("low");
    reveal_strlit("medium");
    assert("Highest"@.len() != "High"@.len());
    assert("Highest"@.len() != "Low"@.len());
    assert("Highest"@.len() != "Lowest"@.len());
    assert("High"@[0] != "Low"@[0]);
    assert("High"@.len() != "Lowest"@.len());
    assert("Low"@.len() != "Lowest"@.len());
    assert("high"@[0] != "low"@[0]);
    assert("high"@[0] != "medium"@[0]);
    assert("low"@[0] != "medium"@[0]);
}

/// Jira's priority names map to Meridian's levels: `Highest` and `High` to
/// high, `Low` and `Lowest` to low, any other name (or none) to medium.
pub proof fn law_jira_levels(n: Seq<char>)
    ensures
        (n == "Highest"@ || n == "High"@) ==> jira_level(Some(n)) == "high"@,
        (n == "Low"@ || n == "Lowest"@) ==> jira_level(Some(n)) == "low"@,
        !(n == "Highest"@ || n == "High"@ || n == "Low"@ || n == "Lowest"@) ==> jira_level(Some(n))
            == "medium"@,
        jira_level(None) == "medium"@,
{
    lemma_jira_names_differ();
}

/// The event of a Jira issue carries the level of the issue's priority: low
/// for `Low` and `Lowest`, high for `High` and `Highest`, medium otherwise.
pub proof fn law_jira_event_priority(e: UnifiedEvent, issue: JiraIssue, site_url: Seq<char>, now: UtcTimestamp)
    requires
        is_jira_event(e, issue, site_url, now),
    ensures
        issue.priority matches Some(n) && (n@ == "Low"@ || n@ == "Lowest"@) ==> (e.priority matches Some(
            p,
        ) && p@ == "low"@),
        issue.priority matches Some(n) && (n@ == "High"@ || n@ == "Highest"@) ==> (e.priority matches Some(
            p,
        ) && p@ == "high"@),
        issue.priority matches Some(n) && !(n@ == "Highest"@ || n@ == "High"@ || n@ == "Low"@ || n@
            == "Lowest"@) ==> (e.priority matches Some(p) && p@ == "medium"@),
        issue.priority is None ==> (e.priority matches Some(p) && p@ == "medium"@),
{
    lemma_jira_names_differ();
}

/// The event for a Jira issue on the given site, fetched at `now`.
pub open spec fn is_jira_event(e: UnifiedEvent, issue: JiraIssue, site_url: Seq<char>, now: UtcTimestamp) -> bool {
    &&& e.id@ == "jira_"@ + issue.id@
    &&& e.source@ == "jira"@
    &&& e.title@ == "["@ + issue.key@ + "] "@ + issue.summary@
    &&& e.body@ == "Status: "@ + issue.status@ + " | Priority: "@ + or_default(
        opt_text(issue.priority),
        "Medium"@,
    )
    &&& e.sender is None
    &&& opt_text(e.url) == Some(site_url + "/browse/"@ + issue.key@)
    &&& e.received_at == now
    &&& opt_text(e.priority) == Some(jira_level(opt_text(issue.priority)))
}

/// The event for a Jira issue on the given site, fetched at `now`.
pub fn jira_issue_to_event(issue: JiraIssue, site_url: &str, now: UtcTimestamp) -> (res: UnifiedEvent)
    ensures
        is_jira_event(res, issue, site_url@, now),
{
    let level = jira_priority_level(&issue.priority);
    let mut title = String::from_str("[");
    title.append(issue.key.as_str());
    title.append("] ");
    title.append(issue.summary.as_str());
    let mut body = String::from_str("Status: ");
    body.append(issue.status.as_str());
    body.append(" | Priority: ");
    match &issue.priority {
        Some(p) => body.append(p.as_str()),
        None => body.append("Medium"),
    }
    let mut url = String::from_str(site_url);
    url.append("/browse/");
    url.append(issue.key.as_str());
    UnifiedEvent {
        id: concat("jira_", issue.id.as_str()),
        source: String::from_str("jira"),
        title,
        body,
        sender: None,
        url: Some(url),
        received_at: now,
        priority: Some(level),
    }
}

// ── Outlook ─────────────────────────────────────────────────────────────────

/// An Outlook message as Microsoft Graph returns it.
#[derive(Debug, Clone)]
pub struct OutlookMessage {
    pub id: String,
    pub subject: Option<String>,
    pub body_preview: Option<String>,
    pub sender_address: Option<String>,
    pub web_link: Option<String>,
    pub received_date_time: Option<String>,
    pub importance: Option<String>,
}

/// Meridian's priority for an Outlook importance: `high` is high, `normal`
/// is medium, anything else (or none) is low.
pub open spec fn outlook_level(p: Option<Seq<char>>) -> Seq<char> {
    match p {
        Some(n) => if n == "high"@ {
            "high"@
        } else if n == "normal"@ {
            "medium"@
        } else {
            "low"@
        },
        None => "low"@,
    }
}

/// Meridian's priority for an Outlook importance.
pub fn outlook_importance_level(p: &Option<String>) -> (res: String)
    ensures
        res@ == outlook_level(opt_text(*p)),
        p matches Some(n) && n@ == "high"@ ==> res@ == "high"@,
        p matches Some(n) && n@ == "normal"@ ==> res@ == "medium"@,
        p matches Some(n) && n@ != "high"@ && n@ != "normal"@ ==> res@ == "low"@,
        p is None ==> res@ == "low"@,
{
    proof {
        lemma_outlook_names_differ();
    }
    match p {
        Some(n) => if str_eq(n.as_str(), "high") {
            String::from_str("high")
        } else if str_eq(n.as_str(), "normal") {
            String::from_str("medium")
        } else {
            String::from_str("low")
        },
        None => String::from_str("low"),
    }
}

proof fn lemma_outlook_names_differ()
    ensures
        "high"@ != "normal"@,
        "high"@ != "medium"@,
        "high"@ != "low"@,
        "medium"@ != "low"@,
{
    reveal_strlit("high");
    reveal_strlit("normal");
    reveal_strlit("medium");
    reveal_strlit("low");
    assert("high"@[0] != "normal"@[0]);
    assert("high"@[0] != "medium"@[0]);
    assert("high"@[0] != "low"@[0]);
    assert("medium"@[0] != "low"@[0]);
}

/// Outlook's importance maps to Meridian's levels: `high` to high, `normal`
/// to medium, anything else (or none) to low.
pub proof fn law_outlook_levels(n: Seq<char>)
    ensures
        n == "high"@ ==> outlook_level(Some(n)) == "high"@,
        n == "normal"@ ==> outlook_level(Some(n)) == "medium"@,
        n != "high"@ && n != "normal"@ ==> outlook_level(Some(n)) == "low"@,
        outlook_level(None) == "low"@,
{
    lemma_outlook_names_differ();
}

/// The event for an Outlook message, fetched at `now`.
pub open spec fn is_outlook_event(e: UnifiedEvent, m: OutlookMessage, now: UtcTimestamp) -> bool {
    &&& e.id@ == "outlook_"@ + m.id@
    &&& e.source@ == "outlook"@
    &&& e.title@ == or_default(opt_text(m.subject), "(no subject)"@)
    &&& e.body@ == or_default(opt_text(m.body_preview), ""@)
    &&& e.sender == m.sender_address
    &&& e.url == m.web_link
    &&& e.received_at == time_or(m.received_date_time, now)
    &&& opt_text(e.priority) == Some(outlook_level(opt_text(m.importance)))
}

/// The event of an Outlook message carries the level of its importance:
/// high for `high`, medium for `normal`, low otherwise.
pub proof fn law_outlook_event_priority(e: UnifiedEvent, m: OutlookMessage, now: UtcTimestamp)
    requires
        is_outlook_event(e, m, now),
    ensures
        m.importance matches Some(n) && n@ == "high"@ ==> (e.priority matches Some(p) && p@ == "high"@),
        m.importance matches Some(n) && n@ == "normal"@ ==> (e.priority matches Some(p) && p@
            == "medium"@),
        m.importance matches Some(n) && n@ != "high"@ && n@ != "normal"@ ==> (e.priority matches Some(
            p,
        ) && p@ == "low"@),
        m.importance is None ==> (e.priority matches Some(p) && p@ == "low"@),
{
    lemma_outlook_names_differ();
}

/// The event for an Outlook message, fetched at `now`.
pub fn outlook_message_to_event(m: OutlookMessage, now: UtcTimestamp) -> (res: UnifiedEvent)
    ensures
        is_outlook_event(res, m, now),
{
    let received_at = time_or_now(&m.received_date_time, now);
    let level = outlook_importance_level(&m.importance);
    UnifiedEvent {
        id: concat("outlook_", m.id.as_str()),
        source: String::from_str("outlook"),
        title: text_or(m.subject, "(no subject)"),
        body: text_or(m.body_preview, ""),
        sender: m.sender_address,
        url: m.web_link,
        received_at,
        priority: Some(level),
    }
}

// ── Zoom ────────────────────────────────────────────────────────────────────

/// A scheduled Zoom meeting; `id` is the meeting id as its JSON text.
#[derive(Debug, Clone)]
pub struct ZoomMeeting {
    pub id: String,
    pub topic: String,
    pub start_time: Option<String>,
    pub duration: Option<u32>,
    pub join_url: Option<String>,
}

/// The event for a Zoom meeting, fetched at `now`.
pub open spec fn is_zoom_event(e: UnifiedEvent, m: ZoomMeeting, now: UtcTimestamp) -> bool {
    &&& e.id@ == "zoom_"@ + m.id@
    &&& e.source@ == "zoom"@
    &&& e.title == m.topic
    &&& e.body@ == "Scheduled: "@ + or_default(opt_text(m.start_time), "TBD"@) + " | Duration: "@
        + decimal_spec(
        match m.duration {
            Some(d) => d as nat,
            None => 0,
        },
    ) + " min"@
    &&& e.sender is None
    &&& e.url == m.join_url
    &&& e.received_at == time_or(m.start_time, now)
    &&& opt_text(e.priority) == Some("medium"@)
}

/// The event for a Zoom meeting, fetched at `now`.
pub fn zoom_meeting_to_event(m: ZoomMeeting, now: UtcTimestamp) -> (res: UnifiedEvent)
    ensures
        is_zoom_event(res, m, now),
{
    let received_at = time_or_now(&m.start_time, now);
    let mut body = String::from_str("Scheduled: ");
    match &m.start_time {
        Some(t) => body.append(t.as_str()),
        None => body.append("TBD"),
    }
    body.append(" | Duration: ");
    let minutes: u32 = match m.duration {
        Some(d) => d,
        None => 0,
    };
    let digits = decimal(minutes as u64);
    body.append(digits.as_str());
    body.append(" min");
    UnifiedEvent {
        id: concat("zoom_", m.id.as_str()),
        source: String::from_str("zoom"),
        title: m.topic,
        body,
        sender: None,
        url: m.join_url,
        received_at,
        priority: Some(String::from_str("medium")),
    }
}

// ── Google Chat ─────────────────────────────────────────────────────────────

/// A Google Chat message.
#[derive(Debug, Clone)]
pub struct GChatMessage {
    pub name: String,
    pub text: String,
    pub sender_display_name: Option<String>,
    pub create_time: Option<String>,
}

/// The text with every `/` replaced by `_`.
pub open spec fn slashes_to_underscores(s: Seq<char>) -> Seq<char> {
    s.map_values(|c: char| if c == '/' { '_' } else { c })
}

/// The text with every `/` replaced by `_`.
pub fn replace_slashes(s: &str) -> (res: String)
    ensures
        res@ == slashes_to_underscores(s@),
{
    let v = chars_of(s);
    let mut out = String::new();
    let mut i: usize = 0;
    while i < v.len()
        invariant
            v@ == s@,
            0 <= i <= v@.len(),
            out@ == slashes_to_underscores(v@.take(i as int)),
        decreases v@.len() - i,
    {
        let c = if v[i] == '/' {
            '_'
        } else {
            v[i]
        };
        push_char(&mut out, c);
        assert(slashes_to_underscores(v@.take(i + 1)) =~= slashes_to_underscores(v@.take(i as int)).push(c));
        i = i + 1;
    }
    assert(v@.take(v@.len() as int) =~= v@);
    out
}

/// The event for a Google Chat message in a space, fetched at `now`.
pub open spec fn is_gchat_event(
    e: UnifiedEvent,
    space_name: Option<Seq<char>>,
    m: GChatMessage,
    now: UtcTimestamp,
) -> bool {
    &&& e.id@ == "gchat_"@ + slashes_to_underscores(m.name@)
    &&& e.source@ == "gchat"@
    &&& e.title@ == or_default(space_name, "Chat"@) + " — "@ + byte_prefix(m.text@, 60)
    &&& e.body == m.text
    &&& e.sender == m.sender_display_name
    &&& e.url is None
    &&& e.received_at == time_or(m.create_time, now)
    &&& e.priority is None
}

/// The event for a Google Chat message in a space, fetched at `now`.
pub fn gchat_message_to_event(space_name: &Option<String>, m: GChatMessage, now: UtcTimestamp) -> (res:
    UnifiedEvent)
    requires
        cut_fits(m.text@, 60),
    ensures
        is_gchat_event(res, opt_text(*space_name), m, now),
{
    let received_at = time_or_now(&m.create_time, now);
    let ids = replace_slashes(m.name.as_str());
    let mut title = match space_name {
        Some(n) => n.clone(),
        None => String::from_str("Chat"),
    };
    title.append(" — ");
    title.append(byte_prefix_of(m.text.as_str(), 60));
    UnifiedEvent {
        id: concat("gchat_", ids.as_str()),
        source: String::from_str("gchat"),
        title,
        body: m.text,
        sender: m.sender_display_name,
        url: None,
        received_at,
        priority: None,
    }
}

// ── Slack ───────────────────────────────────────────────────────────────────

/// A Slack message found by the mention search.
#[derive(Debug, Clone)]
pub struct SlackMessage {
    pub ts: String,
    pub text: String,
    pub username: Option<String>,
    pub permalink: Option<String>,
    pub channel_name: String,
}

/// The event for a Slack message received at the given time.
pub open spec fn is_slack_event(e: UnifiedEvent, m: SlackMessage, received_at: UtcTimestamp) -> bool {
    &&& e.id@ == "slack_"@ + m.ts@
    &&& e.source@ == "slack"@
    &&& e.title@ == "#"@ + m.channel_name@ + " — "@ + byte_prefix(m.text@, 60)
    &&& e.body == m.text
    &&& e.sender == m.username
    &&& e.url == m.permalink
    &&& e.received_at == received_at
    &&& e.priority is None
}

/// The event for a Slack message received at the given time.
pub fn slack_message_to_event(m: SlackMessage, received_at: UtcTimestamp) -> (res: UnifiedEvent)
    requires
        cut_fits(m.text@, 60),
    ensures
        is_slack_event(res, m, received_at),
{
    let mut title = String::from_str("#");
    title.append(m.channel_name.as_str());
    title.append(" — ");
    title.append(byte_prefix_of(m.text.as_str(), 60));
    UnifiedEvent {
        id: concat("slack_", m.ts.as_str()),
        source: String::from_str("slack"),
        title,
        body: m.text,
        sender: m.username,
        url: m.permalink,
        received_at,
        priority: None,
    }
}

} // verus!
