//! Quoting of caller-supplied text for the shells that receive it, and what
//! those shells read back from the quoted text.

use vstd::prelude::*;
use vstd::string::*;
use crate::text::{chars_of, extend_chars, is_space, text_of};

verus! {

// ---------------------------------------------------------------------------
// Single-quoted literals
// ---------------------------------------------------------------------------

/// The characters that open and close a single-quoted literal, and end
/// it from within: the apostrophe and the four typographic single quotes.
pub open spec fn is_single_quote(c: char) -> bool {
    c == '\'' || c == '\u{2018}' || c == '\u{2019}' || c == '\u{201a}' || c == '\u{201b}'
}

pub fn single_quote(c: char) -> (r: bool)
    ensures
        r == is_single_quote(c),
{
    c == '\'' || c == '\u{2018}' || c == '\u{2019}' || c == '\u{201a}' || c == '\u{201b}'
}

/// `s` with every single quote, of any form, doubled.
pub open spec fn single_quote_escaped(s: Seq<char>) -> Seq<char>
    decreases s.len(),
{
    if s.len() == 0 {
        s
    } else if is_single_quote(s[0]) {
        seq![s[0], s[0]] + single_quote_escaped(s.drop_first())
    } else {
        seq![s[0]] + single_quote_escaped(s.drop_first())
    }
}

/// The single-quoted literal whose value is `s`.
pub open spec fn single_quoted(s: Seq<char>) -> Seq<char> {
    seq!['\''] + single_quote_escaped(s) + seq!['\'']
}

/// What a shell reads after an opening single quote: the value of the
/// literal, and how many characters it took up to and including the closing
/// quote. A single quote of any form closes the literal, unless another
/// follows at once: then the first of the two is read as itself. `None`
/// where the literal never closes.
pub open spec fn read_single_quoted_body(t: Seq<char>) -> Option<(Seq<char>, nat)>
    decreases t.len(),
{
    if t.len() == 0 {
        None
    } else if is_single_quote(t[0]) {
        if t.len() >= 2 && is_single_quote(t[1]) {
            match read_single_quoted_body(t.subrange(2, t.len() as int)) {
                Some((value, used)) => Some((seq![t[0]] + value, used + 2)),
                None => None,
            }
        } else {
            Some((Seq::empty(), 1))
        }
    } else {
        match read_single_quoted_body(t.drop_first()) {
            Some((value, used)) => Some((seq![t[0]] + value, used + 1)),
            None => None,
        }
    }
}

/// What a shell reads from text that starts with a single-quoted literal.
pub open spec fn read_single_quoted(t: Seq<char>) -> Option<(Seq<char>, nat)> {
    if t.len() > 0 && is_single_quote(t[0]) {
        match read_single_quoted_body(t.drop_first()) {
            Some((value, used)) => Some((value, used + 1)),
            None => None,
        }
    } else {
        None
    }
}

proof fn lemma_single_body(s: Seq<char>, rest: Seq<char>)
    requires
        rest.len() == 0 || !is_single_quote(rest[0]),
    ensures
        read_single_quoted_body(single_quote_escaped(s) + seq!['\''] + rest) == Some(
            (s, single_quote_escaped(s).len() + 1),
        ),
    decreases s.len(),
{
    let t = single_quote_escaped(s) + seq!['\''] + rest;
    if s.len() == 0 {
        assert(t[0] == '\'');
        if t.len() >= 2 {
            assert(t[1] == rest[0]);
        }
    } else {
        let tail = s.drop_first();
        let t2 = single_quote_escaped(tail) + seq!['\''] + rest;
        lemma_single_body(tail, rest);
        if is_single_quote(s[0]) {
            assert(t[0] == s[0] && t[1] == s[0]);
            assert(t.subrange(2, t.len() as int) =~= t2);
            assert(seq![s[0]] + tail =~= s);
        } else {
            assert(t[0] == s[0]);
            assert(t.drop_first() =~= t2);
            assert(seq![s[0]] + tail =~= s);
        }
    }
}

/// A shell that reads the single-quoted literal made for `s` gets `s` back,
/// whole, and the literal ends where it was closed, whatever follows it,
/// unless a further single quote, of any form, follows at once.
pub proof fn law_single_quoted_reads_back(s: Seq<char>, rest: Seq<char>)
    requires
        rest.len() == 0 || !is_single_quote(rest[0]),
    ensures
        read_single_quoted(single_quoted(s) + rest) == Some((s, single_quoted(s).len())),
{
    let t = single_quoted(s) + rest;
    lemma_single_body(s, rest);
    assert(t.drop_first() =~= single_quote_escaped(s) + seq!['\''] + rest);
}

pub fn escape_single_quotes(s: &str) -> (r: String)
    ensures
        r@ == single_quote_escaped(s@),
{
    let v = chars_of(s);
    let mut r: Vec<char> = Vec::new();
    let mut i: usize = 0;
    assert(v@.subrange(0, v.len() as int) == v@);
    assert(r@ + single_quote_escaped(v@) =~= single_quote_escaped(v@));
    while i < v.len()
        invariant
            i <= v.len(),
            r@ + single_quote_escaped(v@.subrange(i as int, v.len() as int))
                == single_quote_escaped(v@),
        decreases v.len() - i,
    {
        let ghost rest = v@.subrange(i as int, v.len() as int);
        let ghost before = r@;
        assert(rest[0] == v@[i as int]);
        assert(rest.drop_first() == v@.subrange(i + 1, v.len() as int));
        if single_quote(v[i]) {
            r.push(v[i]);
            r.push(v[i]);
            assert(r@ + single_quote_escaped(rest.drop_first()) =~= before
                + single_quote_escaped(rest));
        } else {
            r.push(v[i]);
            assert(r@ + single_quote_escaped(rest.drop_first()) =~= before
                + single_quote_escaped(rest));
        }
        i += 1;
    }
    assert(v@.subrange(v.len() as int, v.len() as int).len() == 0);
    assert(r@ + Seq::<char>::empty() =~= r@);
    text_of(&r)
}

/// The single-quoted literal whose value is `s`.
pub fn quote_single(s: &str) -> (r: String)
    ensures
        r@ == single_quoted(s@),
{
    let body = escape_single_quotes(s);
    let mut r: Vec<char> = Vec::new();
    r.push('\'');
    extend_chars(&mut r, &chars_of(body.as_str()));
    r.push('\'');
    assert(r@ =~= single_quoted(s@));
    text_of(&r)
}

// ---------------------------------------------------------------------------
// Double-quoted literals
// ---------------------------------------------------------------------------

/// The characters that open and close a double-quoted literal, and end
/// it from within: the quotation mark and the three typographic double
/// quotes.
pub open spec fn is_double_quote(c: char) -> bool {
    c == '"' || c == '\u{201c}' || c == '\u{201d}' || c == '\u{201e}'
}

pub fn double_quote(c: char) -> (r: bool)
    ensures
        r == is_double_quote(c),
{
    c == '"' || c == '\u{201c}' || c == '\u{201d}' || c == '\u{201e}'
}

/// What stands for one character inside a double-quoted literal: a double
/// quote, of any form, is doubled; a backtick and a dollar sign get a
/// backtick in front.
pub open spec fn double_quote_escape_of(c: char) -> Seq<char> {
    if is_double_quote(c) {
        seq![c, c]
    } else if c == '`' {
        seq!['`', '`']
    } else if c == '$' {
        seq!['`', '$']
    } else {
        seq![c]
    }
}

pub open spec fn double_quote_escaped(s: Seq<char>) -> Seq<char>
    decreases s.len(),
{
    if s.len() == 0 {
        s
    } else {
        double_quote_escape_of(s[0]) + double_quote_escaped(s.drop_first())
    }
}

/// The double-quoted literal whose value is `s`.
pub open spec fn double_quoted(s: Seq<char>) -> Seq<char> {
    seq!['"'] + double_quote_escaped(s) + seq!['"']
}

/// What a shell reads after an opening double quote: the value of the
/// literal and how many characters it took up to and including the closing
/// quote. A backtick makes the next character literal. A double quote of
/// any form closes the literal, unless another follows at once: then the
/// first of the two is read as itself. `None` where the literal never
/// closes, or where a bare dollar sign would have the shell substitute
/// something.
pub open spec fn read_double_quoted_body(t: Seq<char>) -> Option<(Seq<char>, nat)>
    decreases t.len(),
{
    if t.len() == 0 {
        None
    } else if t[0] == '$' {
        None
    } else if t[0] == '`' {
        if t.len() >= 2 {
            match read_double_quoted_body(t.subrange(2, t.len() as int)) {
                Some((value, used)) => Some((seq![t[1]] + value, used + 2)),
                None => None,
            }
        } else {
            None
        }
    } else if is_double_quote(t[0]) {
        if t.len() >= 2 && is_double_quote(t[1]) {
            match read_double_quoted_body(t.subrange(2, t.len() as int)) {
                Some((value, used)) => Some((seq![t[0]] + value, used + 2)),
                None => None,
            }
        } else {
            Some((Seq::empty(), 1))
        }
    } else {
        match read_double_quoted_body(t.drop_first()) {
            Some((value, used)) => Some((seq![t[0]] + value, used + 1)),
            None => None,
        }
    }
}

/// What a shell reads from text that starts with a double-quoted literal.
pub open spec fn read_double_quoted(t: Seq<char>) -> Option<(Seq<char>, nat)> {
    if t.len() > 0 && is_double_quote(t[0]) {
        match read_double_quoted_body(t.drop_first()) {
            Some((value, used)) => Some((value, used + 1)),
            None => None,
        }
    } else {
        None
    }
}

proof fn lemma_double_body(s: Seq<char>, rest: Seq<char>)
    requires
        rest.len() == 0 || !is_double_quote(rest[0]),
    ensures
        read_double_quoted_body(double_quote_escaped(s) + seq!['"'] + rest) == Some(
            (s, double_quote_escaped(s).len() + 1),
        ),
    decreases s.len(),
{
    let t = double_quote_escaped(s) + seq!['"'] + rest;
    if s.len() == 0 {
        assert(t[0] == '"');
        if t.len() >= 2 {
            assert(t[1] == rest[0]);
        }
    } else {
        let tail = s.drop_first();
        let t2 = double_quote_escaped(tail) + seq!['"'] + rest;
        lemma_double_body(tail, rest);
        assert(seq![s[0]] + tail =~= s);
        if is_double_quote(s[0]) || s[0] == '`' || s[0] == '$' {
            assert(t[0] == double_quote_escape_of(s[0])[0]);
            assert(t[1] == double_quote_escape_of(s[0])[1]);
            assert(t.subrange(2, t.len() as int) =~= t2);
        } else {
            assert(t[0] == s[0]);
            assert(t.drop_first() =~= t2);
        }
    }
}

/// A shell that reads the double-quoted literal made for `s` gets `s` back,
/// whole, with nothing substituted, and the literal ends where it was
/// closed, unless a further double quote, of any form, follows at once.
pub proof fn law_double_quoted_reads_back(s: Seq<char>, rest: Seq<char>)
    requires
        rest.len() == 0 || !is_double_quote(rest[0]),
    ensures
        read_double_quoted(double_quoted(s) + rest) == Some((s, double_quoted(s).len())),
{
    let t = double_quoted(s) + rest;
    lemma_double_body(s, rest);
    assert(t.drop_first() =~= double_quote_escaped(s) + seq!['"'] + rest);
}

/// Where the double-quoted literal made for a parameter stands in a script,
/// a shell that has come to its place reads the parameter back, whole and
/// with nothing substituted, and goes on with what the script holds after
/// the literal: the parameter can neither end its literal early nor reach
/// past it.
pub proof fn law_parameter_reads_back(before: Seq<char>, value: Seq<char>, after: Seq<char>)
    requires
        after.len() == 0 || !is_double_quote(after[0]),
    ensures
        ({
            let script = before + double_quoted(value) + after;
            read_double_quoted(script.subrange(before.len() as int, script.len() as int))
                == Some((value, double_quoted(value).len()))
        }),
{
    let script = before + double_quoted(value) + after;
    assert(script.subrange(before.len() as int, script.len() as int) =~= double_quoted(value)
        + after);
    law_double_quoted_reads_back(value, after);
}

pub fn escape_double_quotes(s: &str) -> (r: String)
    ensures
        r@ == double_quote_escaped(s@),
{
    let v = chars_of(s);
    let mut r: Vec<char> = Vec::new();
    let mut i: usize = 0;
    assert(v@.subrange(0, v.len() as int) == v@);
    assert(r@ + double_quote_escaped(v@) =~= double_quote_escaped(v@));
    while i < v.len()
        invariant
            i <= v.len(),
            r@ + double_quote_escaped(v@.subrange(i as int, v.len() as int))
                == double_quote_escaped(v@),
        decreases v.len() - i,
    {
        let ghost rest = v@.subrange(i as int, v.len() as int);
        let ghost before = r@;
        assert(rest[0] == v@[i as int]);
        assert(rest.drop_first() == v@.subrange(i + 1, v.len() as int));
        let c = v[i];
        if double_quote(c) {
            r.push(c);
            r.push(c);
        } else if c == '`' {
            r.push('`');
            r.push('`');
        } else if c == '$' {
            r.push('`');
            r.push('$');
        } else {
            r.push(c);
        }
        assert(r@ =~= before + double_quote_escape_of(c));
        assert(r@ + double_quote_escaped(rest.drop_first()) =~= before + double_quote_escaped(
            rest,
        ));
        i += 1;
    }
    assert(v@.subrange(v.len() as int, v.len() as int).len() == 0);
    assert(r@ + Seq::<char>::empty() =~= r@);
    text_of(&r)
}

/// The double-quoted literal whose value is `s`.
pub fn quote_double(s: &str) -> (r: String)
    ensures
        r@ == double_quoted(s@),
{
    let body = escape_double_quotes(s);
    let mut r: Vec<char> = Vec::new();
    r.push('"');
    extend_chars(&mut r, &chars_of(body.as_str()));
    r.push('"');
    assert(r@ =~= double_quoted(s@));
    text_of(&r)
}

// ---------------------------------------------------------------------------
// Wildcards
// ---------------------------------------------------------------------------

/// The characters that a pattern match treats as wildcards.
pub open spec fn is_wildcard(c: char) -> bool {
    c == '*' || c == '?'
}

/// `s` without its wildcard characters.
pub open spec fn without_wildcards(s: Seq<char>) -> Seq<char> {
    s.filter(|c: char| !is_wildcard(c))
}

pub fn strip_wildcards(s: &str) -> (r: String)
    ensures
        r@ == without_wildcards(s@),
{
    let v = chars_of(s);
    let mut r: Vec<char> = Vec::new();
    let mut i: usize = 0;
    while i < v.len()
        invariant
            i <= v.len(),
            r@ == without_wildcards(v@.subrange(0, i as int)),
        decreases v.len() - i,
    {
        proof {
            let next = v@.subrange(0, i + 1);
            assert(next.drop_last() == v@.subrange(0, i as int));
            assert(next.last() == v@[i as int]);
            reveal(Seq::filter);
        }
        if !(v[i] == '*' || v[i] == '?') {
            r.push(v[i]);
        }
        i += 1;
    }
    assert(v@.subrange(0, v.len() as int) == v@);
    text_of(&r)
}

/// Text without wildcards is left as it is.
pub proof fn law_strip_keeps_plain_text(s: Seq<char>)
    requires
        forall|i: int| 0 <= i < s.len() ==> !is_wildcard(#[trigger] s[i]),
    ensures
        without_wildcards(s) == s,
    decreases s.len(),
{
    reveal(Seq::filter);
    if s.len() > 0 {
        law_strip_keeps_plain_text(s.drop_last());
        assert(s.drop_last().push(s.last()) =~= s);
    }
}

/// The pattern that matches every text which holds the filter's plain
/// characters in a row: the filter without its wildcards, between two stars,
/// as a double-quoted literal.
pub open spec fn like_pattern(filter: Seq<char>) -> Seq<char> {
    double_quoted(seq!['*'] + without_wildcards(filter) + seq!['*'])
}

pub fn quote_like_pattern(filter: &str) -> (r: String)
    ensures
        r@ == like_pattern(filter@),
{
    let plain = strip_wildcards(filter);
    let mut inner: Vec<char> = Vec::new();
    inner.push('*');
    extend_chars(&mut inner, &chars_of(plain.as_str()));
    inner.push('*');
    assert(inner@ =~= seq!['*'] + without_wildcards(filter@) + seq!['*']);
    let inner_text = text_of(&inner);
    quote_double(inner_text.as_str())
}

/// A shell that reads the pattern made for a filter gets the filter's plain
/// characters between two stars: none of the filter's own wildcards, and
/// nothing cut off.
pub proof fn law_like_pattern_reads_back(filter: Seq<char>, rest: Seq<char>)
    requires
        rest.len() == 0 || !is_double_quote(rest[0]),
    ensures
        read_double_quoted(like_pattern(filter) + rest) == Some(
            (seq!['*'] + without_wildcards(filter) + seq!['*'], like_pattern(filter).len()),
        ),
{
    law_double_quoted_reads_back(seq!['*'] + without_wildcards(filter) + seq!['*'], rest);
}

// ---------------------------------------------------------------------------
// Single-quoted words of a Bourne shell
// ---------------------------------------------------------------------------

/// What stands for one character inside a single-quoted word of a Bourne
/// shell: a single quote closes the quotes, stands escaped, and opens them
/// again.
pub open spec fn bash_escape_of(c: char) -> Seq<char> {
    if c == '\'' {
        seq!['\'', '\\', '\'', '\'']
    } else {
        seq![c]
    }
}

pub open spec fn bash_escaped(s: Seq<char>) -> Seq<char>
    decreases s.len(),
{
    if s.len() == 0 {
        s
    } else {
        bash_escape_of(s[0]) + bash_escaped(s.drop_first())
    }
}

/// The word of a Bourne shell whose value is `s`.
pub open spec fn bash_quoted(s: Seq<char>) -> Seq<char> {
    seq!['\''] + bash_escaped(s) + seq!['\'']
}

/// What a Bourne shell reads of a word: its value and how many characters
/// it took. `open` says whether the text starts inside single quotes.
/// Inside them every character but the single quote is literal; outside
/// them a single quote opens them, a backslash makes the next character
/// literal, and white space or the end of the text ends the word. `None`
/// where quotes never close or something else stands outside them.
pub open spec fn read_bash_word(t: Seq<char>, open: bool) -> Option<(Seq<char>, nat)>
    decreases t.len(),
{
    if open {
        if t.len() == 0 {
            None
        } else if t[0] == '\'' {
            match read_bash_word(t.drop_first(), false) {
                Some((value, used)) => Some((value, used + 1)),
                None => None,
            }
        } else {
            match read_bash_word(t.drop_first(), true) {
                Some((value, used)) => Some((seq![t[0]] + value, used + 1)),
                None => None,
            }
        }
    } else {
        if t.len() == 0 || is_space(t[0]) {
            Some((Seq::empty(), 0))
        } else if t[0] == '\'' {
            match read_bash_word(t.drop_first(), true) {
                Some((value, used)) => Some((value, used + 1)),
                None => None,
            }
        } else if t[0] == '\\' && t.len() >= 2 {
            match read_bash_word(t.subrange(2, t.len() as int), false) {
                Some((value, used)) => Some((seq![t[1]] + value, used + 2)),
                None => None,
            }
        } else {
            None
        }
    }
}

proof fn lemma_bash_body(s: Seq<char>, rest: Seq<char>)
    requires
        rest.len() == 0 || is_space(rest[0]),
    ensures
        read_bash_word(bash_escaped(s) + seq!['\''] + rest, true) == Some(
            (s, bash_escaped(s).len() + 1),
        ),
    decreases s.len(),
{
    let t = bash_escaped(s) + seq!['\''] + rest;
    if s.len() == 0 {
        assert(t[0] == '\'');
        assert(t.drop_first() =~= rest);
        assert(read_bash_word(rest, false) == Some((Seq::<char>::empty(), 0nat)));
        assert(s =~= Seq::<char>::empty());
    } else {
        let tail = s.drop_first();
        let t2 = bash_escaped(tail) + seq!['\''] + rest;
        let n = bash_escaped(tail).len();
        lemma_bash_body(tail, rest);
        assert(seq![s[0]] + tail =~= s);
        if s[0] == '\'' {
            assert(t[0] == '\'' && t[1] == '\\' && t[2] == '\'' && t[3] == '\'');
            let a = t.drop_first();
            assert(a[0] == '\\' && a[1] == '\'');
            assert(!is_space(a[0]));
            let b = a.subrange(2, a.len() as int);
            assert(b[0] == '\'');
            assert(!is_space(b[0]));
            assert(b.drop_first() =~= t2);
            assert(read_bash_word(b, false) == Some((tail, (n + 2) as nat)));
            assert(read_bash_word(a, false) == Some((seq!['\''] + tail, (n + 4) as nat)));
            assert(read_bash_word(t, true) == Some((seq!['\''] + tail, (n + 5) as nat)));
            assert(bash_escaped(s).len() == n + 4);
        } else {
            assert(t[0] == s[0]);
            assert(t.drop_first() =~= t2);
            assert(read_bash_word(t, true) == Some((seq![s[0]] + tail, (n + 2) as nat)));
            assert(bash_escaped(s).len() == n + 1);
        }
    }
}

/// A Bourne shell that reads the word made for `s` gets `s` back, whole,
/// and the word ends where it was closed, where white space or nothing
/// follows it.
pub proof fn law_bash_quoted_reads_back(s: Seq<char>, rest: Seq<char>)
    requires
        rest.len() == 0 || is_space(rest[0]),
    ensures
        read_bash_word(bash_quoted(s) + rest, false) == Some((s, bash_quoted(s).len())),
{
    let t = bash_quoted(s) + rest;
    lemma_bash_body(s, rest);
    assert(t[0] == '\'');
    assert(!is_space(t[0]));
    assert(t.drop_first() =~= bash_escaped(s) + seq!['\''] + rest);
}

/// The word of a Bourne shell whose value is `s`.
pub fn quote_bash(s: &str) -> (r: String)
    ensures
        r@ == bash_quoted(s@),
{
    let v = chars_of(s);
    let mut r: Vec<char> = Vec::new();
    r.push('\'');
    let mut i: usize = 0;
    assert(v@.subrange(0, v.len() as int) == v@);
    assert(r@ + bash_escaped(v@) =~= seq!['\''] + bash_escaped(v@));
    while i < v.len()
        invariant
            i <= v.len(),
            v@ == s@,
            r@ + bash_escaped(v@.subrange(i as int, v.len() as int)) == seq!['\''] + bash_escaped(
                v@,
            ),
        decreases v.len() - i,
    {
        let ghost rest = v@.subrange(i as int, v.len() as int);
        let ghost before = r@;
        assert(rest[0] == v@[i as int]);
        assert(rest.drop_first() == v@.subrange(i + 1, v.len() as int));
        let c = v[i];
        if c == '\'' {
            r.push('\'');
            r.push('\\');
            r.push('\'');
            r.push('\'');
        } else {
            r.push(c);
        }
        assert(r@ =~= before + bash_escape_of(c));
        assert(r@ + bash_escaped(rest.drop_first()) =~= before + bash_escaped(rest));
        i += 1;
    }
    assert(v@.subrange(v.len() as int, v.len() as int).len() == 0);
    assert(r@ + Seq::<char>::empty() =~= r@);
    r.push('\'');
    text_of(&r)
}

} // verus!
