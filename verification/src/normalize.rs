//! From what a tool wrote to a sequence of decoded records.

use vstd::prelude::*;
use vstd::string::*;
use crate::error::{ErrorKind, ErrorView};
use crate::execution::{utf8_lossy, ExecutionResult};
use crate::json::{decode, json_decoding, JsonTree, JsonValue};
use crate::text::{
    blank, chars_of, contains, includes, is_blank, is_space, lemma_blank_trimmed,
    lemma_leading_spaces, lemma_trailing_spaces, leading_spaces, lines, lines_of, slice_of, split,
    split_on, text_of, trailing_spaces, trim, trimmed, trimmed_start, views,
};

verus! {

// ---------------------------------------------------------------------------
// The payload between the outermost brackets
// ---------------------------------------------------------------------------

pub open spec fn is_opener(c: char) -> bool {
    c == '[' || c == '{'
}

/// The bracket that closes what `c` opened.
pub open spec fn closer_of(c: char) -> char {
    if c == '[' {
        ']'
    } else {
        '}'
    }
}

/// The position of the first opening bracket of `s`, or the length of `s`.
pub open spec fn first_opener(s: Seq<char>) -> int
    decreases s.len(),
{
    if s.len() == 0 || is_opener(s[0]) {
        0
    } else {
        1 + first_opener(s.drop_first())
    }
}

/// The position of the last `c` in `s`, or -1.
pub open spec fn last_index(s: Seq<char>, c: char) -> int
    decreases s.len(),
{
    if s.len() == 0 {
        -1
    } else if s.last() == c {
        s.len() - 1
    } else {
        last_index(s.drop_last(), c)
    }
}

/// The part of `s` from its first opening bracket to the last bracket that
/// closes one of that kind; all of `s` where there is no such pair.
pub open spec fn payload(s: Seq<char>) -> Seq<char> {
    let start = first_opener(s);
    if start < s.len() {
        let end = last_index(s, closer_of(s[start]));
        if end > start {
            s.subrange(start, end + 1)
        } else {
            s
        }
    } else {
        s
    }
}

proof fn lemma_first_opener(s: Seq<char>)
    ensures
        0 <= first_opener(s) <= s.len(),
        forall|i: int| 0 <= i < first_opener(s) ==> !is_opener(#[trigger] s[i]),
        first_opener(s) < s.len() ==> is_opener(s[first_opener(s)]),
    decreases s.len(),
{
    if !(s.len() == 0 || is_opener(s[0])) {
        let t = s.drop_first();
        lemma_first_opener(t);
        assert forall|i: int| 0 <= i < first_opener(s) implies !is_opener(#[trigger] s[i]) by {
            if i > 0 {
                assert(s[i] == t[i - 1]);
            }
        }
        if first_opener(s) < s.len() {
            assert(s[first_opener(s)] == t[first_opener(t)]);
        }
    }
}

proof fn lemma_first_opener_is(s: Seq<char>, k: int)
    requires
        0 <= k <= s.len(),
        forall|i: int| 0 <= i < k ==> !is_opener(#[trigger] s[i]),
        k < s.len() ==> is_opener(s[k]),
    ensures
        first_opener(s) == k,
    decreases s.len(),
{
    if k > 0 {
        let t = s.drop_first();
        assert(!is_opener(s[0]));
        assert forall|i: int| 0 <= i < k - 1 implies !is_opener(#[trigger] t[i]) by {
            assert(t[i] == s[i + 1]);
        }
        lemma_first_opener_is(t, k - 1);
    }
}

proof fn lemma_last_index(s: Seq<char>, c: char)
    ensures
        -1 <= last_index(s, c) < s.len(),
        forall|i: int| last_index(s, c) < i < s.len() ==> #[trigger] s[i] != c,
        last_index(s, c) >= 0 ==> s[last_index(s, c)] == c,
    decreases s.len(),
{
    if s.len() > 0 && s.last() != c {
        let t = s.drop_last();
        lemma_last_index(t, c);
        assert forall|i: int| last_index(s, c) < i < s.len() implies #[trigger] s[i] != c by {
            if i < s.len() - 1 {
                assert(s[i] == t[i]);
            }
        }
        if last_index(s, c) >= 0 {
            assert(s[last_index(s, c)] == t[last_index(t, c)]);
        }
    }
}

proof fn lemma_last_index_is(s: Seq<char>, c: char, k: int)
    requires
        -1 <= k < s.len(),
        forall|i: int| k < i < s.len() ==> #[trigger] s[i] != c,
        k >= 0 ==> s[k] == c,
    ensures
        last_index(s, c) == k,
    decreases s.len(),
{
    if s.len() > 0 && k < s.len() - 1 {
        let t = s.drop_last();
        assert(s[s.len() - 1] != c);
        assert forall|i: int| k < i < t.len() implies #[trigger] t[i] != c by {
            assert(t[i] == s[i]);
        }
        if k >= 0 {
            assert(t[k] == s[k]);
        }
        lemma_last_index_is(t, c, k);
    }
}

/// Text that starts with an opening bracket and ends with the bracket that
/// closes it is its own payload.
proof fn lemma_payload_of_bracketed(s: Seq<char>)
    requires
        s.len() >= 2,
        is_opener(s[0]),
        s.last() == closer_of(s[0]),
    ensures
        payload(s) == s,
{
    lemma_first_opener_is(s, 0);
    lemma_last_index_is(s, closer_of(s[0]), s.len() - 1);
    assert(s.subrange(0, s.len() as int) == s);
}

/// Extracting the payload of a payload changes nothing.
pub proof fn law_payload_idempotent(s: Seq<char>)
    ensures
        payload(payload(s)) == payload(s),
{
    let start = first_opener(s);
    lemma_first_opener(s);
    if start < s.len() {
        let end = last_index(s, closer_of(s[start]));
        lemma_last_index(s, closer_of(s[start]));
        if end > start {
            let p = s.subrange(start, end + 1);
            assert(p[0] == s[start]);
            assert(p.last() == s[end]);
            lemma_payload_of_bracketed(p);
        }
    }
}

/// Where a bracketed payload stands between text that holds no opening
/// bracket before it and no bracket of its closing kind after it, the
/// payload is what is extracted.
pub proof fn law_payload_ignores_noise(before: Seq<char>, core: Seq<char>, after: Seq<char>)
    requires
        core.len() >= 2,
        is_opener(core[0]),
        core.last() == closer_of(core[0]),
        forall|i: int| 0 <= i < before.len() ==> !is_opener(#[trigger] before[i]),
        forall|i: int| 0 <= i < after.len() ==> #[trigger] after[i] != closer_of(core[0]),
    ensures
        payload(before + core + after) == core,
{
    let s = before + core + after;
    let start = before.len() as int;
    let end = start + core.len() - 1;
    assert forall|i: int| 0 <= i < start implies !is_opener(#[trigger] s[i]) by {
        assert(s[i] == before[i]);
    }
    assert(s[start] == core[0]);
    lemma_first_opener_is(s, start);
    assert(s[end] == core.last());
    assert forall|i: int| end < i < s.len() implies #[trigger] s[i] != closer_of(core[0]) by {
        assert(s[i] == after[i - end - 1]);
    }
    lemma_last_index_is(s, closer_of(core[0]), end);
    assert(s.subrange(start, end + 1) =~= core);
}

fn find_opener(v: &Vec<char>) -> (k: usize)
    ensures
        k == first_opener(v@),
        k <= v.len(),
{
    let mut k: usize = 0;
    while k < v.len() && !(v[k] == '[' || v[k] == '{')
        invariant
            k <= v.len(),
            forall|i: int| 0 <= i < k ==> !is_opener(#[trigger] v@[i]),
        decreases v.len() - k,
    {
        k += 1;
    }
    proof {
        lemma_first_opener_is(v@, k as int);
    }
    k
}

/// The position after the last `c` in `v`, or 0 where there is none.
fn find_last(v: &Vec<char>, c: char) -> (k: usize)
    ensures
        k == last_index(v@, c) + 1,
        k <= v.len(),
{
    let mut k: usize = v.len();
    while k > 0 && v[k - 1] != c
        invariant
            k <= v.len(),
            forall|i: int| k <= i < v.len() ==> #[trigger] v@[i] != c,
        decreases k,
    {
        k -= 1;
    }
    proof {
        lemma_last_index_is(v@, c, k - 1);
    }
    k
}

/// The payload between the outermost brackets of `v`.
pub fn extract_payload(v: &Vec<char>) -> (r: Vec<char>)
    ensures
        r@ == payload(v@),
{
    let start = find_opener(v);
    if start < v.len() {
        let closer = if v[start] == '[' {
            ']'
        } else {
            '}'
        };
        let after = find_last(v, closer);
        if after > start + 1 {
            return slice_of(v, start, after);
        }
    }
    assert(v@.subrange(0, v.len() as int) == v@);
    slice_of(v, 0, v.len())
}

// ---------------------------------------------------------------------------
// The last line that holds something
// ---------------------------------------------------------------------------

/// The last of `ls` that is not blank; the empty text where all are.
pub open spec fn last_filled(ls: Seq<Seq<char>>) -> Seq<char>
    decreases ls.len(),
{
    if ls.len() == 0 {
        Seq::empty()
    } else if !is_blank(ls.last()) {
        ls.last()
    } else {
        last_filled(ls.drop_last())
    }
}

/// The last line of `s` that is not blank; the empty text where all are.
pub open spec fn last_filled_line(s: Seq<char>) -> Seq<char> {
    last_filled(lines(trimmed(s)))
}

pub fn last_line(text: &str) -> (r: String)
    ensures
        r@ == last_filled_line(text@),
{
    let v = trim(&chars_of(text));
    let ls = lines_of(&v);
    let mut k: usize = ls.len();
    let ghost all = views(ls@);
    assert(all.subrange(0, ls.len() as int) == all);
    while k > 0 && blank(&ls[k - 1])
        invariant
            k <= ls.len(),
            all == views(ls@),
            last_filled(all) == last_filled(all.subrange(0, k as int)),
        decreases k,
    {
        proof {
            let cur = all.subrange(0, k as int);
            assert(cur.last() == ls@[k - 1]@);
            assert(cur.drop_last() == all.subrange(0, k - 1));
        }
        k -= 1;
    }
    proof {
        assert(all.subrange(0, ls.len() as int) == all);
        let cur = all.subrange(0, k as int);
        if k > 0 {
            assert(cur.last() == ls@[k - 1]@);
        }
    }
    if k == 0 {
        String::new()
    } else {
        text_of(&ls[k - 1])
    }
}

/// The last piece of the trimmed text after its last line feed, trimmed.
pub open spec fn cleaned_output(s: Seq<char>) -> Seq<char> {
    trimmed(split(trimmed(s), '\n').last())
}

/// What is left of a shell's output when the lines before the last are
/// taken as diagnostics.
pub fn clean_powershell_output(output: &str) -> (r: String)
    ensures
        r@ == cleaned_output(output@),
{
    let v = trim(&chars_of(output));
    let pieces = split_on(&v, '\n');
    let last = &pieces[pieces.len() - 1];
    assert(views(pieces@).last() == last@);
    text_of(&trim(last))
}

// ---------------------------------------------------------------------------
// Records
// ---------------------------------------------------------------------------

/// The records that a decoded value holds: the items of an array, nothing
/// for null, the value itself otherwise.
pub open spec fn records(tree: JsonTree) -> Seq<JsonTree> {
    match tree {
        JsonTree::Array(items) => items,
        JsonTree::Null => Seq::empty(),
        _ => seq![tree],
    }
}

pub fn records_of(value: JsonValue) -> (r: Vec<JsonValue>)
    ensures
        views(r@) == records(value@),
{
    match value {
        JsonValue::Array(items) => {
            assert(views(items@) =~= records(value@));
            items
        },
        JsonValue::Null => {
            let r: Vec<JsonValue> = Vec::new();
            assert(views(r@) =~= records(value@));
            r
        },
        other => {
            let mut r: Vec<JsonValue> = Vec::new();
            r.push(other);
            assert(views(r@) =~= records(value@));
            r
        },
    }
}

/// The number of characters of a decode failure that are reported.
pub const SNIPPET_LENGTH: usize = 200;

/// The first characters of `s`, at most `SNIPPET_LENGTH` of them.
pub open spec fn snippet(s: Seq<char>) -> Seq<char> {
    if s.len() <= SNIPPET_LENGTH {
        s
    } else {
        s.subrange(0, SNIPPET_LENGTH as int)
    }
}

/// What a tool writes to its error stream when it found nothing to list.
pub const NOTHING_FOUND: &'static str = "No events were found";

/// Whether a tool's error text says that it found nothing, which is no
/// failure.
pub open spec fn is_benign(stderr: Seq<char>) -> bool {
    contains(stderr, NOTHING_FOUND@)
}

/// The records in a tool's output text, or the failure that the text
/// amounts to.
pub open spec fn decoded_records(stdout: Seq<char>) -> Result<Seq<JsonTree>, ErrorView> {
    if is_blank(stdout) {
        Ok(Seq::empty())
    } else {
        let body = payload(trimmed(stdout));
        match json_decoding(body) {
            Some(tree) => Ok(records(tree)),
            None => Err(ErrorView::MalformedOutput { raw_snippet: snippet(body) }),
        }
    }
}

/// What a finished process amounts to: its records, or its failure.
pub open spec fn normalized(exit_success: bool, stdout: Seq<char>, stderr: Seq<char>) -> Result<
    Seq<JsonTree>,
    ErrorView,
> {
    if !exit_success {
        if is_benign(stderr) {
            Ok(Seq::empty())
        } else {
            Err(ErrorView::ExternalToolFailed { stderr })
        }
    } else {
        decoded_records(stdout)
    }
}

/// The records that a decoding of the payload gives.
pub fn records_of_decoding(decoding: Option<JsonValue>, body: &Vec<char>) -> (r: Result<
    Vec<JsonValue>,
    ErrorKind,
>)
    ensures
        match r {
            Ok(v) => decoding matches Some(value) && views(v@) == records(value@),
            Err(e) => decoding is None && e@ == (ErrorView::MalformedOutput {
                raw_snippet: snippet(body@),
            }),
        },
{
    match decoding {
        Some(value) => Ok(records_of(value)),
        None => {
            let shown = if body.len() <= SNIPPET_LENGTH {
                assert(body@.subrange(0, body.len() as int) == body@);
                slice_of(body, 0, body.len())
            } else {
                slice_of(body, 0, SNIPPET_LENGTH)
            };
            Err(ErrorKind::MalformedOutput { raw_snippet: text_of(&shown) })
        },
    }
}

/// The records in a tool's output text.
pub fn decode_records(stdout: &str) -> (r: Result<Vec<JsonValue>, ErrorKind>)
    ensures
        match r {
            Ok(v) => decoded_records(stdout@) == Ok::<Seq<JsonTree>, ErrorView>(views(v@)),
            Err(e) => decoded_records(stdout@) == Err::<Seq<JsonTree>, ErrorView>(e@),
        },
{
    let out = chars_of(stdout);
    if blank(&out) {
        let r: Vec<JsonValue> = Vec::new();
        assert(views(r@) =~= Seq::<JsonTree>::empty());
        return Ok(r);
    }
    let body = extract_payload(&trim(&out));
    let body_text = text_of(&body);
    records_of_decoding(decode(body_text.as_str()), &body)
}

/// What a finished process amounts to, given the texts of its two streams.
pub fn normalize_text(exit_success: bool, stdout: &str, stderr: &str) -> (r: Result<
    Vec<JsonValue>,
    ErrorKind,
>)
    ensures
        match r {
            Ok(v) => normalized(exit_success, stdout@, stderr@) == Ok::<Seq<JsonTree>, ErrorView>(
                views(v@),
            ),
            Err(e) => normalized(exit_success, stdout@, stderr@) == Err::<
                Seq<JsonTree>,
                ErrorView,
            >(e@),
        },
{
    if !exit_success {
        let err = chars_of(stderr);
        if includes(&err, &chars_of(NOTHING_FOUND)) {
            let r: Vec<JsonValue> = Vec::new();
            assert(views(r@) =~= Seq::<JsonTree>::empty());
            return Ok(r);
        }
        return Err(ErrorKind::ExternalToolFailed { stderr: String::from_str(stderr) });
    }
    decode_records(stdout)
}

/// What a finished process amounts to: its records, or its failure.
pub fn normalize(raw: &ExecutionResult) -> (r: Result<Vec<JsonValue>, ErrorKind>)
    ensures
        match r {
            Ok(v) => normalized(raw.exit_success, utf8_lossy(raw.stdout@), utf8_lossy(raw.stderr@))
                == Ok::<Seq<JsonTree>, ErrorView>(views(v@)),
            Err(e) => normalized(
                raw.exit_success,
                utf8_lossy(raw.stdout@),
                utf8_lossy(raw.stderr@),
            ) == Err::<Seq<JsonTree>, ErrorView>(e@),
        },
{
    let out = raw.stdout_text();
    let err = raw.stderr_text();
    normalize_text(raw.exit_success, out.as_str(), err.as_str())
}

// ---------------------------------------------------------------------------
// Laws
// ---------------------------------------------------------------------------

/// Output that is empty or holds only white space gives no record and no
/// failure.
pub proof fn law_blank_output_is_empty(stdout: Seq<char>, stderr: Seq<char>)
    requires
        is_blank(stdout),
    ensures
        normalized(true, stdout, stderr) == Ok::<Seq<JsonTree>, ErrorView>(Seq::empty()),
{
}

/// Output that is one bare JSON object, with nothing but white space around
/// it, gives that object as the only record.
pub proof fn law_bare_object_is_one_record(stdout: Seq<char>, stderr: Seq<char>, tree: JsonTree)
    requires
        trimmed(stdout).len() >= 2,
        trimmed(stdout)[0] == '{',
        trimmed(stdout).last() == '}',
        json_decoding(trimmed(stdout)) == Some(tree),
        tree is Object,
    ensures
        normalized(true, stdout, stderr) == Ok::<Seq<JsonTree>, ErrorView>(seq![tree]),
{
    lemma_blank_trimmed(stdout);
    lemma_payload_of_bracketed(trimmed(stdout));
}

/// Output that is one bare JSON array, with nothing but white space around
/// it, gives the items of that array as the records.
pub proof fn law_bare_array_is_itself(stdout: Seq<char>, stderr: Seq<char>, items: Seq<JsonTree>)
    requires
        trimmed(stdout).len() >= 2,
        trimmed(stdout)[0] == '[',
        trimmed(stdout).last() == ']',
        json_decoding(trimmed(stdout)) == Some(JsonTree::Array(items)),
    ensures
        normalized(true, stdout, stderr) == Ok::<Seq<JsonTree>, ErrorView>(items),
{
    lemma_blank_trimmed(stdout);
    lemma_payload_of_bracketed(trimmed(stdout));
}

/// Diagnostic text around a bracketed payload changes nothing: the output
/// gives what the payload alone gives, and feeding the payload again gives
/// the same once more.
pub proof fn law_noise_around_payload(
    before: Seq<char>,
    core: Seq<char>,
    after: Seq<char>,
    stderr: Seq<char>,
)
    requires
        core.len() >= 2,
        is_opener(core[0]),
        core.last() == closer_of(core[0]),
        forall|i: int| 0 <= i < before.len() ==> !is_opener(#[trigger] before[i]),
        forall|i: int| 0 <= i < after.len() ==> #[trigger] after[i] != closer_of(core[0]),
    ensures
        normalized(true, before + core + after, stderr) == normalized(true, core, stderr),
        payload(trimmed(before + core + after)) == core,
        payload(trimmed(core)) == core,
{
    lemma_noise(before, core, after);
    lemma_noise(Seq::empty(), core, Seq::empty());
    assert(Seq::<char>::empty() + core + Seq::<char>::empty() =~= core);
    assert(!is_blank(core)) by {
        assert(!is_space(core[core.len() - 1]));
    }
    let s = before + core + after;
    assert(!is_blank(s)) by {
        assert(s[before.len() + core.len() - 1] == core.last());
    }
}

proof fn lemma_noise(before: Seq<char>, core: Seq<char>, after: Seq<char>)
    requires
        core.len() >= 2,
        is_opener(core[0]),
        core.last() == closer_of(core[0]),
        forall|i: int| 0 <= i < before.len() ==> !is_opener(#[trigger] before[i]),
        forall|i: int| 0 <= i < after.len() ==> #[trigger] after[i] != closer_of(core[0]),
    ensures
        payload(trimmed(before + core + after)) == core,
        !is_space(core.last()),
{
    assert(!is_space(']') && !is_space('}') && !is_space('[') && !is_space('{'));
    let s = before + core + after;
    let lead = leading_spaces(s) as int;
    lemma_leading_spaces(s);
    let t = trimmed_start(s);
    lemma_trailing_spaces(t);
    let trail = trailing_spaces(t) as int;
    let b = before.len() as int;
    let e = b + core.len() - 1;
    assert(s[b] == core[0]);
    assert(s[e] == core.last());
    // An opening bracket is no white space, so the leading run ends before it.
    assert(lead <= b) by {
        if lead > b {
            assert(is_space(s[b]));
        }
    }
    // The closing bracket is no white space, so the trailing run starts after it.
    assert(t.len() - trail > e - lead) by {
        if t.len() - trail <= e - lead {
            assert(t[e - lead] == s[e]);
            assert(is_space(t[e - lead]));
        }
    }
    let tt = trimmed(s);
    let before2 = before.subrange(lead, b);
    let after2 = after.subrange(0, t.len() - trail - (e - lead) - 1);
    assert(tt =~= before2 + core + after2);
    law_payload_ignores_noise(before2, core, after2);
}

} // verus!
