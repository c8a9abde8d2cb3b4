//! The requests Meridian sends to the local language model.
use crate::events::UnifiedEvent;
use crate::summarizer::or_default;
use crate::summarizer::opt_text;
use crate::text::{byte_prefix, byte_prefix_of, can_cut, concat, cut_fits, join_spec, lemma_join_push};
use vstd::prelude::*;

verus! {

/// The system prompt of every chat request.
pub open spec fn system_prompt_spec() -> Seq<char> {
    "You are Meridian, a concise executive assistant AI. You summarize work activity clearly and professionally. Be direct, use bullet points where helpful, avoid filler words. Never invent information not in the provided data."@
}

/// The system prompt of every chat request.
pub fn system_prompt() -> (res: String)
    ensures
        res@ == system_prompt_spec(),
{
    String::from_str(
        "You are Meridian, a concise executive assistant AI. You summarize work activity clearly and professionally. Be direct, use bullet points where helpful, avoid filler words. Never invent information not in the provided data.",
    )
}

/// The smaller of `n` and `k`.
pub open spec fn at_most(n: nat, k: nat) -> nat {
    if n < k {
        n
    } else {
        k
    }
}

/// Whether the first `count` event bodies can be cut at `max` bytes.
pub open spec fn previews_fit(events: Seq<UnifiedEvent>, count: nat, max: nat) -> bool {
    forall|i: int| 0 <= i < at_most(events.len(), count) ==> cut_fits(#[trigger] events[i].body@, max)
}

/// Whether the first `count` event bodies can be cut at `max` bytes.
pub fn check_previews(events: &[UnifiedEvent], count: usize, max: usize) -> (res: bool)
    ensures
        res == previews_fit(events@, count as nat, max as nat),
{
    let mut i: usize = 0;
    while i < events.len() && i < count
        invariant
            0 <= i <= events@.len(),
            i <= count,
            forall|j: int| 0 <= j < i ==> cut_fits(#[trigger] events@[j].body@, max as nat),
        decreases events@.len() - i,
    {
        if !can_cut(events[i].body.as_str(), max) {
            return false;
        }
        i = i + 1;
    }
    true
}

/// One line of a group prompt: sender, subject and a 200-byte preview.
pub open spec fn group_line(e: UnifiedEvent) -> Seq<char> {
    "- From: "@ + or_default(opt_text(e.sender), "Unknown"@) + "\n  Subject: "@ + e.title@
        + "\n  Preview: "@ + byte_prefix(e.body@, 200)
}

/// The lines of a group prompt for the first `n` events.
pub open spec fn group_lines(events: Seq<UnifiedEvent>, n: nat) -> Seq<Seq<char>> {
    Seq::new(n, |j: int| group_line(events[j]))
}

/// The request to summarise a group of events (at most fifteen of them).
pub open spec fn group_prompt_spec(category: Seq<char>, events: Seq<UnifiedEvent>) -> Seq<char> {
    "Summarize these "@ + category
        + " in 2-3 concise bullet points. Focus only on action items, decisions needed, or important updates:\n\n"@
        + join_spec(group_lines(events, at_most(events.len(), 15)), "\n"@)
}

/// The request to summarise a group of events (at most fifteen of them).
pub fn group_prompt(category: &str, events: &[UnifiedEvent]) -> (res: String)
    requires
        previews_fit(events@, 15, 200),
    ensures
        res@ == group_prompt_spec(category@, events@),
{
    let mut s = String::from_str("Summarize these ");
    s.append(category);
    s.append(
        " in 2-3 concise bullet points. Focus only on action items, decisions needed, or important updates:\n\n",
    );
    let ghost head = s@;
    let k: usize = if events.len() < 15 {
        events.len()
    } else {
        15
    };
    let mut i: usize = 0;
    while i < k
        invariant
            0 <= i <= k,
            k == at_most(events@.len(), 15),
            k <= events@.len(),
            previews_fit(events@, 15, 200),
            s@ == head + join_spec(group_lines(events@, i as nat), "\n"@),
        decreases k - i,
    {
        let e = &events[i];
        let ghost before = s@;
        proof {
            assert(group_lines(events@, (i + 1) as nat) =~= group_lines(events@, i as nat).push(
                group_line(events@[i as int]),
            ));
            lemma_join_push(group_lines(events@, i as nat), "\n"@, group_line(events@[i as int]));
            assert(cut_fits(events@[i as int].body@, 200));
        }
        if i > 0 {
            s.append("\n");
        }
        s.append("- From: ");
        match &e.sender {
            Some(sender) => s.append(sender.as_str()),
            None => s.append("Unknown"),
        }
        s.append("\n  Subject: ");
        s.append(e.title.as_str());
        s.append("\n  Preview: ");
        s.append(byte_prefix_of(e.body.as_str(), 200));
        proof {
            if i == 0 {
                assert(s@ =~= head + group_line(events@[i as int]));
            } else {
                assert(s@ =~= before + "\n"@ + group_line(events@[i as int]));
            }
        }
        i = i + 1;
    }
    s
}

/// What a group summary needs: either the answer is known without asking the
/// model, or a prompt to send.
#[derive(Debug, Clone)]
pub enum GroupRequest {
    Answered(String),
    Ask(String),
}

/// The summary request for a group: `No new <category>.` for an empty group,
/// else the group prompt.
pub fn summarize_group(category: &str, events: &[UnifiedEvent]) -> (res: GroupRequest)
    requires
        previews_fit(events@, 15, 200),
    ensures
        events@.len() == 0 ==> (res matches GroupRequest::Answered(t) && t@ == "No new "@ + category@
            + "."@),
        events@.len() > 0 ==> (res matches GroupRequest::Ask(p) && p@ == group_prompt_spec(
            category@,
            events@,
        )),
{
    if events.len() == 0 {
        let mut t = String::from_str("No new ");
        t.append(category);
        t.append(".");
        GroupRequest::Answered(t)
    } else {
        GroupRequest::Ask(group_prompt(category, events))
    }
}

/// One line of the priorities prompt: source, title and a 100-byte preview.
pub open spec fn priority_line(e: UnifiedEvent) -> Seq<char> {
    "["@ + e.source@ + "] "@ + e.title@ + " — "@ + byte_prefix(e.body@, 100)
}

/// The lines of the priorities prompt for the first `n` events.
pub open spec fn priority_lines(events: Seq<UnifiedEvent>, n: nat) -> Seq<Seq<char>> {
    Seq::new(n, |j: int| priority_line(events[j]))
}

/// The request to pick the three most urgent items (from at most twenty-five).
pub open spec fn priorities_prompt_spec(events: Seq<UnifiedEvent>) -> Seq<char> {
    "From these work items, identify the TOP 3 that need immediate attention.\nReply ONLY with valid JSON array, no markdown:\n[{\"title\":\"...\",\"source\":\"...\",\"priority\":\"high|medium|low\",\"action\":\"what to do\"}]\n\nItems:\n"@
        + join_spec(priority_lines(events, at_most(events.len(), 25)), "\n"@)
}

/// The request to pick the three most urgent items (from at most twenty-five).
pub fn priorities_prompt(events: &[UnifiedEvent]) -> (res: String)
    requires
        previews_fit(events@, 25, 100),
    ensures
        res@ == priorities_prompt_spec(events@),
{
    let mut s = String::from_str(
        "From these work items, identify the TOP 3 that need immediate attention.\nReply ONLY with valid JSON array, no markdown:\n[{\"title\":\"...\",\"source\":\"...\",\"priority\":\"high|medium|low\",\"action\":\"what to do\"}]\n\nItems:\n",
    );
    let ghost head = s@;
    let k: usize = if events.len() < 25 {
        events.len()
    } else {
        25
    };
    let mut i: usize = 0;
    while i < k
        invariant
            0 <= i <= k,
            k == at_most(events@.len(), 25),
            k <= events@.len(),
            previews_fit(events@, 25, 100),
            s@ == head + join_spec(priority_lines(events@, i as nat), "\n"@),
        decreases k - i,
    {
        let e = &events[i];
        let ghost before = s@;
        proof {
            assert(priority_lines(events@, (i + 1) as nat) =~= priority_lines(events@, i as nat).push(
                priority_line(events@[i as int]),
            ));
            lemma_join_push(priority_lines(events@, i as nat), "\n"@, priority_line(events@[i as int]));
            assert(cut_fits(events@[i as int].body@, 100));
        }
        if i > 0 {
            s.append("\n");
        }
        s.append("[");
        s.append(e.source.as_str());
        s.append("] ");
        s.append(e.title.as_str());
        s.append(" — ");
        s.append(byte_prefix_of(e.body.as_str(), 100));
        proof {
            if i == 0 {
                assert(s@ =~= head + priority_line(events@[i as int]));
            } else {
                assert(s@ =~= before + "\n"@ + priority_line(events@[i as int]));
            }
        }
        i = i + 1;
    }
    s
}

/// The request for a motivational quote.
pub fn motivational_prompt() -> (res: String)
    ensures
        res@ == "Give me one short motivational quote (one sentence, under 15 words) for a professional starting their workday. No attribution needed."@,
{
    String::from_str(
        "Give me one short motivational quote (one sentence, under 15 words) for a professional starting their workday. No attribution needed.",
    )
}

/// The request to draft an email.
pub fn draft_email_prompt(context: &str, instructions: &str) -> (res: String)
    ensures
        res@ == "Draft a professional email.\nContext: "@ + context@ + "\nInstructions: "@
            + instructions@ + "\nWrite the email body only, starting with the greeting."@,
{
    let mut s = String::from_str("Draft a professional email.\nContext: ");
    s.append(context);
    s.append("\nInstructions: ");
    s.append(instructions);
    s.append("\nWrite the email body only, starting with the greeting.");
    s
}

/// The request to rephrase a text in a given tone.
pub fn rephrase_prompt(text: &str, tone: &str) -> (res: String)
    ensures
        res@ == "Rephrase the following text with a "@ + tone@
            + " tone. Keep the same meaning. Return only the rephrased text:\n\n"@ + text@,
{
    let mut s = String::from_str("Rephrase the following text with a ");
    s.append(tone);
    s.append(" tone. Keep the same meaning. Return only the rephrased text:\n\n");
    s.append(text);
    s
}

/// The request to summarise a text.
pub fn summarize_text_prompt(text: &str) -> (res: String)
    ensures
        res@ == "Summarize this in 2-3 bullet points. Be concise:\n\n"@ + text@,
{
    concat("Summarize this in 2-3 bullet points. Be concise:\n\n", text)
}

/// The request for a question: the question alone without context, else the
/// context followed by the question.
pub fn ask_prompt(question: &str, context: &str) -> (res: String)
    ensures
        context@.len() == 0 ==> res@ == question@,
        context@.len() > 0 ==> res@ == "Context:\n"@ + context@ + "\n\nQuestion: "@ + question@,
{
    if context.is_empty() {
        String::from_str(question)
    } else {
        let mut s = String::from_str("Context:\n");
        s.append(context);
        s.append("\n\nQuestion: ");
        s.append(question);
        s
    }
}

} // verus!
