//! The daily briefing: grouping events by source, the summaries written when
//! no language model is available, and the parts that read the model's answers.
use crate::events::{clone_opt_string, UnifiedEvent, UtcTimestamp};
use crate::text::{chars_of, concat, decimal, decimal_spec, str_eq, string_from_chars};
use vstd::prelude::*;

verus! {

/// An item the briefing asks the user to look at first.
#[derive(Debug, Clone)]
pub struct PriorityItem {
    pub title: String,
    pub source: String,
    pub url: Option<String>,
    pub priority: String,
    pub action: String,
}

/// The morning briefing.
#[derive(Debug, Clone)]
pub struct DailySummary {
    pub generated_at: UtcTimestamp,
    pub email_summary: String,
    pub slack_summary: String,
    pub jira_summary: String,
    pub zoom_summary: String,
    pub gchat_summary: String,
    pub top_priorities: Vec<PriorityItem>,
    pub motivational: String,
    pub raw_event_count: usize,
}

/// The quote used when no language model is available.
pub open spec fn default_quote_spec() -> Seq<char> {
    "Start each day with a clear mind and a focused plan."@
}

/// The quote used when no language model is available.
pub fn default_quote() -> (res: String)
    ensures
        res@ == default_quote_spec(),
{
    String::from_str("Start each day with a clear mind and a focused plan.")
}

/// The briefing for a day without events.
pub open spec fn is_empty_summary(s: DailySummary, generated_at: UtcTimestamp) -> bool {
    &&& s.generated_at == generated_at
    &&& s.email_summary@ == "No new emails."@
    &&& s.slack_summary@ == "No new Slack messages."@
    &&& s.jira_summary@ == "No new Jira updates."@
    &&& s.zoom_summary@ == "No upcoming meetings."@
    &&& s.gchat_summary@ == "No new Google Chat messages."@
    &&& s.top_priorities@.len() == 0
    &&& s.motivational@ == default_quote_spec()
    &&& s.raw_event_count == 0
}

/// `chrono::Utc::now()` as seconds and nanoseconds. Nothing is promised of
/// the time.
#[verifier::external_body]
pub(crate) fn utc_now() -> (res: UtcTimestamp) {
    let now = chrono::Utc::now();
    UtcTimestamp { secs: now.timestamp(), nanos: now.timestamp_subsec_nanos() }
}

impl DailySummary {
    /// The briefing for a day without events, stamped with the given time.
    pub fn empty_at(generated_at: UtcTimestamp) -> (res: DailySummary)
        ensures
            is_empty_summary(res, generated_at),
    {
        DailySummary {
            generated_at,
            email_summary: String::from_str("No new emails."),
            slack_summary: String::from_str("No new Slack messages."),
            jira_summary: String::from_str("No new Jira updates."),
            zoom_summary: String::from_str("No upcoming meetings."),
            gchat_summary: String::from_str("No new Google Chat messages."),
            top_priorities: Vec::new(),
            motivational: default_quote(),
            raw_event_count: 0,
        }
    }

    /// The briefing for a day without events, stamped now.
    pub fn empty() -> (res: DailySummary)
        ensures
            is_empty_summary(res, res.generated_at),
    {
        DailySummary::empty_at(utc_now())
    }
}

/// The bullet lines `• <title>` of the events, one per line.
pub open spec fn bullet_list(events: Seq<UnifiedEvent>) -> Seq<char>
    decreases events.len(),
{
    if events.len() == 0 {
        seq![]
    } else if events.len() == 1 {
        "• "@ + events[0].title@
    } else {
        bullet_list(events.drop_last()) + "\n"@ + "• "@ + events.last().title@
    }
}

/// The number of events a fallback summary lists.
pub open spec fn listed_count(n: nat) -> nat {
    if n < 3 {
        n
    } else {
        3
    }
}

/// The summary of a group of events written without a language model: a count
/// and the titles of the first three.
pub open spec fn basic_summary_spec(source: Seq<char>, events: Seq<UnifiedEvent>) -> Seq<char> {
    if events.len() == 0 {
        "No new "@ + source + " updates."@
    } else {
        decimal_spec(events.len()) + " new "@ + source + " item(s):\n"@ + bullet_list(
            events.take(listed_count(events.len()) as int),
        )
    }
}

/// The summary of a group of events written without a language model.
pub fn basic_summary(source: &str, events: &[UnifiedEvent]) -> (res: String)
    ensures
        res@ == basic_summary_spec(source@, events@),
{
    if events.len() == 0 {
        let mut s = String::from_str("No new ");
        s.append(source);
        s.append(" updates.");
        return s;
    }
    let mut s = decimal(events.len() as u64);
    s.append(" new ");
    s.append(source);
    s.append(" item(s):\n");
    let ghost head = s@;
    let k: usize = if events.len() < 3 {
        events.len()
    } else {
        3
    };
    let mut i: usize = 0;
    while i < k
        invariant
            0 <= i <= k,
            k == listed_count(events@.len() as nat),
            k <= events@.len(),
            s@ == head + bullet_list(events@.take(i as int)),
        decreases k - i,
    {
        assert(events@.take(i + 1).drop_last() =~= events@.take(i as int));
        if i > 0 {
            s.append("\n");
        }
        s.append("• ");
        s.append(events[i].title.as_str());
        i = i + 1;
    }
    s
}

/// Whether an event is marked as high priority.
pub open spec fn is_high(e: UnifiedEvent) -> bool {
    e.priority matches Some(p) && p@ == "high"@
}

/// The first `n` high-priority events, in order.
pub open spec fn first_high(events: Seq<UnifiedEvent>, n: nat) -> Seq<UnifiedEvent>
    decreases events.len(),
{
    if n == 0 || events.len() == 0 {
        seq![]
    } else if is_high(events[0]) {
        seq![events[0]] + first_high(events.skip(1), (n - 1) as nat)
    } else {
        first_high(events.skip(1), n)
    }
}

/// The fallback top priorities are at most `n` events, each of them marked
/// high priority and taken from the list.
pub proof fn lemma_first_high_bounded(events: Seq<UnifiedEvent>, n: nat)
    ensures
        first_high(events, n).len() <= n,
        first_high(events, n).len() <= events.len(),
        forall|j: int|
            0 <= j < first_high(events, n).len() ==> is_high(#[trigger] first_high(events, n)[j])
                && events.contains(first_high(events, n)[j]),
    decreases events.len(),
{
    if n == 0 || events.len() == 0 {
    } else {
        let rest = events.skip(1);
        if is_high(events[0]) {
            lemma_first_high_bounded(rest, (n - 1) as nat);
            let f = first_high(events, n);
            assert forall|j: int| 0 <= j < f.len() implies is_high(#[trigger] f[j]) && events.contains(f[j]) by {
                if j == 0 {
                    assert(events[0] == f[0]);
                } else {
                    assert(f[j] == first_high(rest, (n - 1) as nat)[j - 1]);
                    let k = choose|k: int| 0 <= k < rest.len() && rest[k] == f[j];
                    assert(events[k + 1] == f[j]);
                }
            }
        } else {
            lemma_first_high_bounded(rest, n);
            let f = first_high(events, n);
            assert forall|j: int| 0 <= j < f.len() implies is_high(#[trigger] f[j]) && events.contains(f[j]) by {
                let k = choose|k: int| 0 <= k < rest.len() && rest[k] == f[j];
                assert(events[k + 1] == f[j]);
            }
        }
    }
}

/// The priority item the fallback briefing makes of a high-priority event.
pub open spec fn is_default_priority_item(item: PriorityItem, e: UnifiedEvent) -> bool {
    &&& item.title == e.title
    &&& item.source == e.source
    &&& item.url == e.url
    &&& item.priority@ == "high"@
    &&& item.action@ == "Review and respond"@
}

fn is_high_event(e: &UnifiedEvent) -> (res: bool)
    ensures
        res == is_high(*e),
{
    match &e.priority {
        Some(p) => str_eq(p.as_str(), "high"),
        None => false,
    }
}

/// The top priorities when no language model is available: the first three
/// high-priority events, to review and respond to.
pub fn default_priorities(events: &[UnifiedEvent]) -> (res: Vec<PriorityItem>)
    ensures
        res@.len() == first_high(events@, 3).len(),
        forall|j: int|
            0 <= j < res@.len() ==> is_default_priority_item(
                #[trigger] res@[j],
                first_high(events@, 3)[j],
            ),
{
    let mut out: Vec<PriorityItem> = Vec::new();
    let ghost mut picked: Seq<UnifiedEvent> = seq![];
    let mut i: usize = 0;
    assert(events@.skip(0) =~= events@);
    assert(picked + first_high(events@.skip(0), 3) =~= first_high(events@, 3));
    while i < events.len() && out.len() < 3
        invariant
            0 <= i <= events@.len(),
            out@.len() == picked.len(),
            picked.len() <= 3,
            first_high(events@, 3) == picked + first_high(events@.skip(i as int), (3 - picked.len()) as nat),
            forall|j: int| 0 <= j < out@.len() ==> is_default_priority_item(#[trigger] out@[j], picked[j]),
        decreases events@.len() - i,
    {
        let ghost rest = events@.skip(i as int);
        assert(rest[0] == events@[i as int]);
        assert(rest.skip(1) =~= events@.skip(i + 1));
        let e = &events[i];
        if is_high_event(e) {
            out.push(PriorityItem {
                title: e.title.clone(),
                source: e.source.clone(),
                url: clone_opt_string(&e.url),
                priority: String::from_str("high"),
                action: String::from_str("Review and respond"),
            });
            proof {
                assert(first_high(rest, (3 - picked.len()) as nat) == seq![rest[0]] + first_high(
                    rest.skip(1),
                    (3 - picked.len() - 1) as nat,
                ));
                assert(picked.push(*e) + first_high(events@.skip(i + 1), (3 - picked.len() - 1) as nat)
                    =~= picked + (seq![rest[0]] + first_high(rest.skip(1), (3 - picked.len() - 1) as nat)));
                picked = picked.push(*e);
            }
        }
        i = i + 1;
    }
    proof {
        if picked.len() < 3 {
            assert(events@.skip(i as int).len() == 0);
        }
        assert(picked + first_high(events@.skip(i as int), (3 - picked.len()) as nat) =~= picked);
    }
    out
}

/// The events whose source is `a` or `b`, in order.
pub open spec fn from_sources(events: Seq<UnifiedEvent>, a: Seq<char>, b: Seq<char>) -> Seq<
    UnifiedEvent,
>
    decreases events.len(),
{
    if events.len() == 0 {
        seq![]
    } else {
        let rest = from_sources(events.drop_last(), a, b);
        if events.last().source@ == a || events.last().source@ == b {
            rest.push(events.last())
        } else {
            rest
        }
    }
}

/// Copies of the events whose source is `a` or `b`, in order.
pub fn events_from_sources(events: &[UnifiedEvent], a: &str, b: &str) -> (res: Vec<UnifiedEvent>)
    ensures
        res@ == from_sources(events@, a@, b@),
        res@ == events@.filter(source_in(a@, b@)),
{
    proof {
        lemma_from_sources_is_filter(events@, a@, b@);
    }
    let mut out: Vec<UnifiedEvent> = Vec::new();
    let mut i: usize = 0;
    while i < events.len()
        invariant
            0 <= i <= events@.len(),
            out@ == from_sources(events@.take(i as int), a@, b@),
        decreases events@.len() - i,
    {
        assert(events@.take(i + 1).drop_last() =~= events@.take(i as int));
        let e = &events[i];
        if str_eq(e.source.as_str(), a) || str_eq(e.source.as_str(), b) {
            out.push(e.copy());
        }
        i = i + 1;
    }
    assert(events@.take(events@.len() as int) =~= events@);
    out
}

/// Whether an event comes from source `a` or source `b`.
pub open spec fn source_in(a: Seq<char>, b: Seq<char>) -> spec_fn(UnifiedEvent) -> bool {
    |e: UnifiedEvent| e.source@ == a || e.source@ == b
}

/// Grouping by source keeps exactly the events from either source, in their
/// order: it is the filter of the list by source.
pub proof fn lemma_from_sources_is_filter(events: Seq<UnifiedEvent>, a: Seq<char>, b: Seq<char>)
    ensures
        from_sources(events, a, b) == events.filter(source_in(a, b)),
    decreases events.len(),
{
    reveal(Seq::filter);
    if events.len() > 0 {
        lemma_from_sources_is_filter(events.drop_last(), a, b);
    }
}

/// The index of the first `c` at or after position `i`.
pub open spec fn first_index_from(s: Seq<char>, c: char, i: int) -> Option<int>
    decreases s.len() - i,
{
    if i < 0 || i >= s.len() {
        None
    } else if s[i] == c {
        Some(i)
    } else {
        first_index_from(s, c, i + 1)
    }
}

/// The index of the last `c` before position `j`.
pub open spec fn last_index_before(s: Seq<char>, c: char, j: int) -> Option<int>
    decreases j,
{
    if j <= 0 || j > s.len() {
        None
    } else if s[j - 1] == c {
        Some(j - 1)
    } else {
        last_index_before(s, c, j - 1)
    }
}

/// The span from the first `[` to the last `]` of a text (from its start when
/// there is no `[`, to its end when there is no `]`), or `[]` when that span
/// is empty.
pub open spec fn extract_json_array_spec(s: Seq<char>) -> Seq<char> {
    let start = match first_index_from(s, '[', 0) {
        Some(i) => i,
        None => 0,
    };
    let end = match last_index_before(s, ']', s.len() as int) {
        Some(j) => j + 1,
        None => s.len() as int,
    };
    if start < end {
        s.subrange(start, end)
    } else {
        "[]"@
    }
}

/// Cuts the JSON array out of a language model's answer.
pub fn extract_json_array(text: &str) -> (res: String)
    ensures
        res@ == extract_json_array_spec(text@),
{
    let v = chars_of(text);
    let n = v.len();
    let mut i: usize = 0;
    while i < n && v[i] != '['
        invariant
            v@ == text@,
            n == v@.len(),
            0 <= i <= n,
            first_index_from(text@, '[', 0) == first_index_from(text@, '[', i as int),
        decreases n - i,
    {
        i = i + 1;
    }
    let start: usize = if i < n {
        i
    } else {
        0
    };
    let mut j: usize = n;
    while j > 0 && v[j - 1] != ']'
        invariant
            v@ == text@,
            n == v@.len(),
            0 <= j <= n,
            last_index_before(text@, ']', n as int) == last_index_before(text@, ']', j as int),
        decreases j,
    {
        j = j - 1;
    }
    let end: usize = if j > 0 {
        j
    } else {
        n
    };
    if start < end {
        string_from_chars(&v.as_slice()[start..end])
    } else {
        String::from_str("[]")
    }
}

/// The view of an optional text.
pub open spec fn opt_text(o: Option<String>) -> Option<Seq<char>> {
    match o {
        Some(s) => Some(s@),
        None => None,
    }
}

/// The text fields a language model gave for one priority item (each `None`
/// where the field is missing or not a string).
#[derive(Debug, Clone)]
pub struct PriorityDraft {
    pub title: Option<String>,
    pub source: Option<String>,
    pub priority: Option<String>,
    pub action: Option<String>,
}

/// The fields of a draft, by view.
pub open spec fn draft_fields(d: PriorityDraft) -> (
    Option<Seq<char>>,
    Option<Seq<char>>,
    Option<Seq<char>>,
    Option<Seq<char>>,
) {
    (opt_text(d.title), opt_text(d.source), opt_text(d.priority), opt_text(d.action))
}

/// What `serde_json` reads from a text as a JSON array of objects: for each
/// element, its `title`, `source`, `priority` and `action` string fields (an
/// empty sequence when the text is not a JSON array).
pub uninterp spec fn json_priority_fields(text: Seq<char>) -> Seq<
    (Option<Seq<char>>, Option<Seq<char>>, Option<Seq<char>>, Option<Seq<char>>),
>;

/// `serde_json::from_str::<Vec<Value>>` (empty on error) and, for each
/// element, the string fields `title`, `source`, `priority`, `action`.
#[verifier::external_body]
fn parse_priority_drafts(json: &str) -> (res: Vec<PriorityDraft>)
    ensures
        res@.len() == json_priority_fields(json@).len(),
        forall|i: int|
            0 <= i < res@.len() ==> draft_fields(#[trigger] res@[i]) == json_priority_fields(
                json@,
            )[i],
{
    let values: Vec<serde_json::Value> = serde_json::from_str(json).unwrap_or_default();
    let field = |v: &serde_json::Value, k: &str| v[k].as_str().map(|s| s.to_string());
    values.iter().map(
        |v| PriorityDraft {
            title: field(v, "title"),
            source: field(v, "source"),
            priority: field(v, "priority"),
            action: field(v, "action"),
        },
    ).collect()
}

/// The link of the first event from the given source (`None` when there is
/// none, or when that event has no link).
pub open spec fn first_source_url(events: Seq<UnifiedEvent>, source: Seq<char>) -> Option<Seq<char>>
    decreases events.len(),
{
    if events.len() == 0 {
        None
    } else if events[0].source@ == source {
        opt_text(events[0].url)
    } else {
        first_source_url(events.skip(1), source)
    }
}

/// A field of a draft, or a default.
pub open spec fn or_default(o: Option<Seq<char>>, d: Seq<char>) -> Seq<char> {
    match o {
        Some(s) => s,
        None => d,
    }
}

/// The priority item made of a draft: missing fields take defaults, and the
/// link is that of the first event from the named source.
pub open spec fn is_item_for_draft(
    item: PriorityItem,
    fields: (Option<Seq<char>>, Option<Seq<char>>, Option<Seq<char>>, Option<Seq<char>>),
    events: Seq<UnifiedEvent>,
) -> bool {
    &&& item.title@ == or_default(fields.0, ""@)
    &&& item.source@ == or_default(fields.1, ""@)
    &&& opt_text(item.url) == first_source_url(events, or_default(fields.1, ""@))
    &&& item.priority@ == or_default(fields.2, "medium"@)
    &&& item.action@ == or_default(fields.3, "Review this item"@)
}

fn text_or(o: &Option<String>, d: &str) -> (res: String)
    ensures
        res@ == or_default(opt_text(*o), d@),
{
    match o {
        Some(s) => s.clone(),
        None => String::from_str(d),
    }
}

fn find_source_url(events: &[UnifiedEvent], source: &str) -> (res: Option<String>)
    ensures
        opt_text(res) == first_source_url(events@, source@),
{
    let mut i: usize = 0;
    assert(events@.skip(0) =~= events@);
    while i < events.len()
        invariant
            0 <= i <= events@.len(),
            first_source_url(events@, source@) == first_source_url(events@.skip(i as int), source@),
        decreases events@.len() - i,
    {
        let ghost rest = events@.skip(i as int);
        assert(rest[0] == events@[i as int]);
        assert(rest.skip(1) =~= events@.skip(i + 1));
        if str_eq(events[i].source.as_str(), source) {
            return clone_opt_string(&events[i].url);
        }
        i = i + 1;
    }
    None
}

/// The priority items for the drafts a language model gave.
pub fn priorities_from_drafts(drafts: &[PriorityDraft], events: &[UnifiedEvent]) -> (res: Vec<
    PriorityItem,
>)
    ensures
        res@.len() == drafts@.len(),
        forall|i: int|
            0 <= i < res@.len() ==> is_item_for_draft(
                #[trigger] res@[i],
                draft_fields(drafts@[i]),
                events@,
            ),
        forall|i: int|
            0 <= i < res@.len() ==> {
                &&& (drafts@[i].title matches Some(t) ==> (#[trigger] res@[i]).title@ == t@)
                &&& (drafts@[i].title is None ==> res@[i].title@ == ""@)
                &&& (drafts@[i].source matches Some(src) ==> res@[i].source@ == src@)
                &&& (drafts@[i].source is None ==> res@[i].source@ == ""@)
                &&& (drafts@[i].priority matches Some(p) ==> res@[i].priority@ == p@)
                &&& (drafts@[i].priority is None ==> res@[i].priority@ == "medium"@)
                &&& (drafts@[i].action matches Some(a) ==> res@[i].action@ == a@)
                &&& (drafts@[i].action is None ==> res@[i].action@ == "Review this item"@)
            },
{
    let mut out: Vec<PriorityItem> = Vec::new();
    let mut i: usize = 0;
    while i < drafts.len()
        invariant
            0 <= i <= drafts@.len(),
            out@.len() == i,
            forall|j: int|
                0 <= j < i ==> is_item_for_draft(#[trigger] out@[j], draft_fields(drafts@[j]), events@),
            forall|j: int|
                0 <= j < i ==> {
                    &&& (drafts@[j].title matches Some(t) ==> (#[trigger] out@[j]).title@ == t@)
                    &&& (drafts@[j].title is None ==> out@[j].title@ == ""@)
                    &&& (drafts@[j].source matches Some(src) ==> out@[j].source@ == src@)
                    &&& (drafts@[j].source is None ==> out@[j].source@ == ""@)
                    &&& (drafts@[j].priority matches Some(p) ==> out@[j].priority@ == p@)
                    &&& (drafts@[j].priority is None ==> out@[j].priority@ == "medium"@)
                    &&& (drafts@[j].action matches Some(a) ==> out@[j].action@ == a@)
                    &&& (drafts@[j].action is None ==> out@[j].action@ == "Review this item"@)
                },
        decreases drafts@.len() - i,
    {
        let d = &drafts[i];
        let source = text_or(&d.source, "");
        let url = find_source_url(events, source.as_str());
        out.push(
            PriorityItem {
                title: text_or(&d.title, ""),
                source,
                url,
                priority: text_or(&d.priority, "medium"),
                action: text_or(&d.action, "Review this item"),
            },
        );
        i = i + 1;
    }
    out
}

/// The priority items read from a language model's answer: the JSON array cut
/// out of the answer, each element made into an item.
pub fn priorities_from_answer(answer: &str, events: &[UnifiedEvent]) -> (res: Vec<PriorityItem>)
    ensures
        res@.len() == json_priority_fields(extract_json_array_spec(answer@)).len(),
        forall|i: int|
            0 <= i < res@.len() ==> is_item_for_draft(
                #[trigger] res@[i],
                json_priority_fields(extract_json_array_spec(answer@))[i],
                events@,
            ),
        forall|i: int|
            0 <= i < res@.len() ==> {
                let f = json_priority_fields(extract_json_array_spec(answer@))[i];
                &&& (f.0 matches Some(t) ==> (#[trigger] res@[i]).title@ == t)
                &&& (f.1 matches Some(src) ==> res@[i].source@ == src)
                &&& (f.2 matches Some(p) ==> res@[i].priority@ == p)
                &&& (f.2 is None ==> res@[i].priority@ == "medium"@)
                &&& (f.3 matches Some(a) ==> res@[i].action@ == a)
                &&& (f.3 is None ==> res@[i].action@ == "Review this item"@)
            },
{
    let json = extract_json_array(answer);
    let drafts = parse_priority_drafts(json.as_str());
    priorities_from_drafts(drafts.as_slice(), events)
}

/// The answers the language model gave while the briefing was prepared;
/// `None` where a request failed.
pub struct AiDigest {
    pub email: Option<String>,
    pub slack: Option<String>,
    pub jira: Option<String>,
    pub priorities: Option<Vec<PriorityItem>>,
    pub motivational: Option<String>,
}

/// A section of the briefing: the model's answer if there is one, else the
/// fallback summary.
pub open spec fn section(ai: Option<AiDigest>, answer: Option<String>, fallback: Seq<char>) -> Seq<
    char,
> {
    match ai {
        Some(_) => or_default(opt_text(answer), fallback),
        None => fallback,
    }
}

/// Whether the items are the fallback top priorities of the events.
pub open spec fn is_default_priorities(items: Seq<PriorityItem>, events: Seq<UnifiedEvent>) -> bool {
    &&& items.len() == first_high(events, 3).len()
    &&& forall|j: int|
        0 <= j < items.len() ==> is_default_priority_item(#[trigger] items[j], first_high(events, 3)[j])
}

/// The briefing for a non-empty list of events, given what the model answered
/// (`ai` is `None` when the model was not available).
pub open spec fn is_composed_summary(
    s: DailySummary,
    events: Seq<UnifiedEvent>,
    ai: Option<AiDigest>,
    generated_at: UtcTimestamp,
) -> bool {
    let email = from_sources(events, "gmail"@, "outlook"@);
    let slack = from_sources(events, "slack"@, "slack"@);
    let jira = from_sources(events, "jira"@, "jira"@);
    let zoom = from_sources(events, "zoom"@, "zoom"@);
    let gchat = from_sources(events, "gchat"@, "gchat"@);
    &&& s.generated_at == generated_at
    &&& s.email_summary@ == section(
        ai,
        match ai {
            Some(d) => d.email,
            None => None,
        },
        basic_summary_spec("email"@, email),
    )
    &&& s.slack_summary@ == section(
        ai,
        match ai {
            Some(d) => d.slack,
            None => None,
        },
        basic_summary_spec("Slack"@, slack),
    )
    &&& s.jira_summary@ == section(
        ai,
        match ai {
            Some(d) => d.jira,
            None => None,
        },
        basic_summary_spec("Jira"@, jira),
    )
    &&& s.zoom_summary@ == basic_summary_spec("Zoom"@, zoom)
    &&& s.gchat_summary@ == basic_summary_spec("Google Chat"@, gchat)
    &&& match ai {
        Some(d) => match d.priorities {
            Some(p) => s.top_priorities@ == p@,
            None => s.top_priorities@.len() == 0,
        },
        None => is_default_priorities(s.top_priorities@, events),
    }
    &&& s.motivational@ == section(
        ai,
        match ai {
            Some(d) => d.motivational,
            None => None,
        },
        default_quote_spec(),
    )
    &&& s.raw_event_count == events.len()
}

fn answer_or_fallback(answer: Option<String>, fallback: String) -> (res: String)
    ensures
        res@ == or_default(opt_text(answer), fallback@),
{
    match answer {
        Some(t) => t,
        None => fallback,
    }
}

/// Assembles the briefing. With no events it is the empty briefing. Otherwise
/// each section is the model's answer where there is one, and the summary
/// written without the model where there is not; Zoom and Google Chat are
/// always summarised without the model.
pub fn compose_daily_summary(
    events: &[UnifiedEvent],
    ai: Option<AiDigest>,
    generated_at: UtcTimestamp,
) -> (res: DailySummary)
    ensures
        events@.len() == 0 ==> is_empty_summary(res, generated_at),
        events@.len() > 0 ==> is_composed_summary(res, events@, ai, generated_at),
        events@.len() > 0 ==> res.email_summary@ == section(
            ai,
            match ai {
                Some(d) => d.email,
                None => None,
            },
            basic_summary_spec("email"@, events@.filter(source_in("gmail"@, "outlook"@))),
        ),
        events@.len() > 0 ==> res.slack_summary@ == section(
            ai,
            match ai {
                Some(d) => d.slack,
                None => None,
            },
            basic_summary_spec("Slack"@, events@.filter(source_in("slack"@, "slack"@))),
        ),
        events@.len() > 0 ==> res.jira_summary@ == section(
            ai,
            match ai {
                Some(d) => d.jira,
                None => None,
            },
            basic_summary_spec("Jira"@, events@.filter(source_in("jira"@, "jira"@))),
        ),
        events@.len() > 0 ==> res.zoom_summary@ == basic_summary_spec(
            "Zoom"@,
            events@.filter(source_in("zoom"@, "zoom"@)),
        ),
        events@.len() > 0 ==> res.gchat_summary@ == basic_summary_spec(
            "Google Chat"@,
            events@.filter(source_in("gchat"@, "gchat"@)),
        ),
        res.raw_event_count == events@.len(),
{
    proof {
        lemma_from_sources_is_filter(events@, "gmail"@, "outlook"@);
        lemma_from_sources_is_filter(events@, "slack"@, "slack"@);
        lemma_from_sources_is_filter(events@, "jira"@, "jira"@);
        lemma_from_sources_is_filter(events@, "zoom"@, "zoom"@);
        lemma_from_sources_is_filter(events@, "gchat"@, "gchat"@);
    }
    if events.len() == 0 {
        return DailySummary::empty_at(generated_at);
    }
    let email = events_from_sources(events, "gmail", "outlook");
    let slack = events_from_sources(events, "slack", "slack");
    let jira = events_from_sources(events, "jira", "jira");
    let zoom = events_from_sources(events, "zoom", "zoom");
    let gchat = events_from_sources(events, "gchat", "gchat");
    let email_basic = basic_summary("email", email.as_slice());
    let slack_basic = basic_summary("Slack", slack.as_slice());
    let jira_basic = basic_summary("Jira", jira.as_slice());
    let zoom_summary = basic_summary("Zoom", zoom.as_slice());
    let gchat_summary = basic_summary("Google Chat", gchat.as_slice());
    match ai {
        Some(d) => {
            let top_priorities = match d.priorities {
                Some(p) => p,
                None => Vec::new(),
            };
            DailySummary {
                generated_at,
                email_summary: answer_or_fallback(d.email, email_basic),
                slack_summary: answer_or_fallback(d.slack, slack_basic),
                jira_summary: answer_or_fallback(d.jira, jira_basic),
                zoom_summary,
                gchat_summary,
                top_priorities,
                motivational: answer_or_fallback(d.motivational, default_quote()),
                raw_event_count: events.len(),
            }
        },
        None => DailySummary {
            generated_at,
            email_summary: email_basic,
            slack_summary: slack_basic,
            jira_summary: jira_basic,
            zoom_summary,
            gchat_summary,
            top_priorities: default_priorities(events),
            motivational: default_quote(),
            raw_event_count: events.len(),
        },
    }
}


/// In a briefing composed without a language model, each section summarises
/// exactly the events of its sources, in order: email is every Gmail and
/// Outlook event, then Slack, Jira, Zoom and Google Chat each their own; the
/// count covers every event.
pub proof fn law_briefing_sections(s: DailySummary, events: Seq<UnifiedEvent>, generated_at: UtcTimestamp)
    requires
        events.len() > 0,
        is_composed_summary(s, events, None, generated_at),
    ensures
        s.email_summary@ == basic_summary_spec("email"@, events.filter(source_in("gmail"@, "outlook"@))),
        s.slack_summary@ == basic_summary_spec("Slack"@, events.filter(source_in("slack"@, "slack"@))),
        s.jira_summary@ == basic_summary_spec("Jira"@, events.filter(source_in("jira"@, "jira"@))),
        s.zoom_summary@ == basic_summary_spec("Zoom"@, events.filter(source_in("zoom"@, "zoom"@))),
        s.gchat_summary@ == basic_summary_spec(
            "Google Chat"@,
            events.filter(source_in("gchat"@, "gchat"@)),
        ),
        s.raw_event_count == events.len(),
{
    lemma_from_sources_is_filter(events, "gmail"@, "outlook"@);
    lemma_from_sources_is_filter(events, "slack"@, "slack"@);
    lemma_from_sources_is_filter(events, "jira"@, "jira"@);
    lemma_from_sources_is_filter(events, "zoom"@, "zoom"@);
    lemma_from_sources_is_filter(events, "gchat"@, "gchat"@);
}

/// A priority item read from the model keeps each field the model gave (its
/// title, source, priority and action); only a missing field takes its
/// default: an empty title or source, `medium`, `Review this item`.
pub proof fn law_item_keeps_draft_fields(
    item: PriorityItem,
    fields: (Option<Seq<char>>, Option<Seq<char>>, Option<Seq<char>>, Option<Seq<char>>),
    events: Seq<UnifiedEvent>,
)
    requires
        is_item_for_draft(item, fields, events),
    ensures
        fields.0 matches Some(t) ==> item.title@ == t,
        fields.0 is None ==> item.title@ == ""@,
        fields.1 matches Some(src) ==> item.source@ == src,
        fields.1 is None ==> item.source@ == ""@,
        fields.2 matches Some(p) ==> item.priority@ == p,
        fields.2 is None ==> item.priority@ == "medium"@,
        fields.3 matches Some(a) ==> item.action@ == a,
        fields.3 is None ==> item.action@ == "Review this item"@,
{
}

} // verus!
