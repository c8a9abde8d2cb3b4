//! Logic around the local language-model server: which installed model is
//! ours, and reading its streamed (newline-delimited) progress reports.
use crate::settings::ModelInfo;
use crate::summarizer::first_index_from;
use crate::text::{chars_of, starts_with, str_eq, string_from_chars};
use vstd::prelude::*;

verus! {

/// Whether a model name matches the wanted model (it starts with it, so that
/// `phi3:mini` matches `phi3:mini-4k`).
pub open spec fn model_matches(name: Seq<char>, model: Seq<char>) -> bool {
    model.len() <= name.len() && name.take(model.len() as int) == model
}

/// Whether the wanted model is among the installed ones.
pub fn model_available(models: &[ModelInfo], model: &str) -> (res: bool)
    ensures
        res == exists|i: int| 0 <= i < models@.len() && model_matches(#[trigger] models@[i].name@, model@),
{
    let mut i: usize = 0;
    while i < models.len()
        invariant
            0 <= i <= models@.len(),
            forall|j: int| 0 <= j < i ==> !model_matches(#[trigger] models@[j].name@, model@),
        decreases models@.len() - i,
    {
        if starts_with(models[i].name.as_str(), model) {
            return true;
        }
        i = i + 1;
    }
    false
}

/// Whether a character is white space in the sense of `char::is_whitespace`
/// (the Unicode `White_Space` property).
pub open spec fn is_white_space(c: char) -> bool {
    ('\u{9}' <= c && c <= '\u{d}') || c == ' ' || c == '\u{85}' || c == '\u{a0}' || c == '\u{1680}'
        || ('\u{2000}' <= c && c <= '\u{200a}') || c == '\u{2028}' || c == '\u{2029}' || c
        == '\u{202f}' || c == '\u{205f}' || c == '\u{3000}'
}

fn white_space(c: char) -> (res: bool)
    ensures
        res == is_white_space(c),
{
    ('\u{9}' <= c && c <= '\u{d}') || c == ' ' || c == '\u{85}' || c == '\u{a0}' || c == '\u{1680}'
        || ('\u{2000}' <= c && c <= '\u{200a}') || c == '\u{2028}' || c == '\u{2029}' || c
        == '\u{202f}' || c == '\u{205f}' || c == '\u{3000}'
}

/// The text without its leading white space.
pub open spec fn trim_start_spec(s: Seq<char>) -> Seq<char>
    decreases s.len(),
{
    if s.len() > 0 && is_white_space(s[0]) {
        trim_start_spec(s.skip(1))
    } else {
        s
    }
}

/// The text without its trailing white space.
pub open spec fn trim_end_spec(s: Seq<char>) -> Seq<char>
    decreases s.len(),
{
    if s.len() > 0 && is_white_space(s.last()) {
        trim_end_spec(s.drop_last())
    } else {
        s
    }
}

/// The text without leading and trailing white space (as `str::trim`).
pub open spec fn trim_spec(s: Seq<char>) -> Seq<char> {
    trim_end_spec(trim_start_spec(s))
}

/// The characters `v[from..to]` without leading and trailing white space.
fn trim_chars(v: &Vec<char>, from: usize, to: usize) -> (res: String)
    requires
        from <= to <= v@.len(),
    ensures
        res@ == trim_spec(v@.subrange(from as int, to as int)),
{
    let ghost s = v@.subrange(from as int, to as int);
    let mut a = from;
    while a < to && white_space(v[a])
        invariant
            from <= a <= to,
            to <= v@.len(),
            s == v@.subrange(from as int, to as int),
            trim_start_spec(s) == trim_start_spec(v@.subrange(a as int, to as int)),
        decreases to - a,
    {
        assert(v@.subrange(a as int, to as int).skip(1) =~= v@.subrange(a + 1, to as int));
        a = a + 1;
    }
    assert(trim_start_spec(v@.subrange(a as int, to as int)) == v@.subrange(a as int, to as int));
    let mut b = to;
    while b > a && white_space(v[b - 1])
        invariant
            from <= a <= b <= to,
            to <= v@.len(),
            trim_spec(s) == trim_end_spec(v@.subrange(a as int, b as int)),
        decreases b - a,
    {
        assert(v@.subrange(a as int, b as int).drop_last() =~= v@.subrange(a as int, b - 1));
        b = b - 1;
    }
    string_from_chars(&v.as_slice()[a..b])
}

/// The white-space-trimmed text (as `str::trim`).
pub fn trim(s: &str) -> (res: String)
    ensures
        res@ == trim_spec(s@),
{
    let v = chars_of(s);
    assert(v@.subrange(0, v@.len() as int) =~= v@);
    trim_chars(&v, 0, v.len())
}

/// The first complete line of a stream buffer, trimmed, and the rest of the
/// buffer after its newline; `None` while no newline has arrived.
pub open spec fn take_line_spec(buf: Seq<char>) -> Option<(Seq<char>, Seq<char>)> {
    match first_index_from(buf, '\n', 0) {
        Some(nl) => Some((trim_spec(buf.take(nl)), buf.skip(nl + 1))),
        None => None,
    }
}

/// Takes the first complete line out of a stream buffer.
pub fn take_line(buf: &str) -> (res: Option<(String, String)>)
    ensures
        match take_line_spec(buf@) {
            Some((line, rest)) => res matches Some((l, r)) && l@ == line && r@ == rest,
            None => res is None,
        },
{
    let v = chars_of(buf);
    let n = v.len();
    let mut i: usize = 0;
    while i < n && v[i] != '\n'
        invariant
            v@ == buf@,
            n == v@.len(),
            0 <= i <= n,
            first_index_from(buf@, '\n', 0) == first_index_from(buf@, '\n', i as int),
        decreases n - i,
    {
        i = i + 1;
    }
    if i == n {
        return None;
    }
    let line = trim_chars(&v, 0, i);
    let rest = string_from_chars(&v.as_slice()[i + 1..n]);
    assert(v@.subrange(0, i as int) =~= buf@.take(i as int));
    assert(v@.subrange(i + 1, n as int) =~= buf@.skip(i + 1));
    Some((line, rest))
}

/// Whether a pull-progress status says the pull is complete.
pub fn pull_done(status: &str) -> (res: bool)
    ensures
        res == (status@ == "success"@),
{
    str_eq(status, "success")
}

} // verus!
