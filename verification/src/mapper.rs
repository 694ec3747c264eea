//! From decoded records to the stable schema of each operation: field
//! lookup with defaults, date and identifier wrappers, and coded fields.

use vstd::prelude::*;
use vstd::string::*;
use crate::error::{ErrorKind, ErrorView};
use crate::execution::{utf8_lossy, ExecutionResult};
use crate::json::{JsonTree, JsonValue};
use crate::normalize::{
    decode_records, decoded_records, extract_payload, normalize_text, normalized, payload, snippet,
    SNIPPET_LENGTH,
};
use crate::text::{
    chars_of, signed_decimal, signed_decimal_of, slice_of, text_of, trim, trimmed, views,
};

verus! {

// ---------------------------------------------------------------------------
// Fields
// ---------------------------------------------------------------------------

/// The text of the member `name`, where it is there and is a text.
pub open spec fn text_at(record: JsonTree, name: Seq<char>) -> Option<Seq<char>> {
    match record.field(name) {
        Some(v) => v.text(),
        None => None,
    }
}

/// The text of the member `name`, or `default` where it is absent, null or
/// no text.
pub open spec fn text_or(record: JsonTree, name: Seq<char>, default: Seq<char>) -> Seq<char> {
    match text_at(record, name) {
        Some(t) => t,
        None => default,
    }
}

/// The integer of the member `name`, where it is there and lies between
/// `low` and `high`.
pub open spec fn integer_at(record: JsonTree, name: Seq<char>, low: int, high: int) -> Option<int> {
    match record.field(name) {
        Some(v) => v.integer_within(low, high),
        None => None,
    }
}

/// The truth value of the member `name`, where it is there and is one.
pub open spec fn bool_at(record: JsonTree, name: Seq<char>) -> Option<bool> {
    match record.field(name) {
        Some(v) => v.boolean(),
        None => None,
    }
}

/// The text of the member `inner` of the member `name`.
pub open spec fn nested_text_at(record: JsonTree, name: Seq<char>, inner: Seq<char>) -> Option<
    Seq<char>,
> {
    match record.field(name) {
        Some(v) => text_at(v, inner),
        None => None,
    }
}

/// The name of the member that holds the readable form of a wrapped date.
pub const DATE_MEMBER: &'static str = "DateTime";

/// The name of the member that holds the text of a wrapped identifier.
pub const VALUE_MEMBER: &'static str = "Value";

/// What stands for a value that is absent or cannot be read.
pub const NOT_AVAILABLE: &'static str = "N/A";

/// The date in the member `name`: the member itself where it is a text,
/// the readable form inside it where it is a wrapper, else the sentinel.
pub open spec fn date_at(record: JsonTree, name: Seq<char>) -> Seq<char> {
    match text_at(record, name) {
        Some(t) => t,
        None => match nested_text_at(record, name, DATE_MEMBER@) {
            Some(t) => t,
            None => NOT_AVAILABLE@,
        },
    }
}

/// The single character of the member `name`, where it is a text of one
/// character.
pub open spec fn char_at(record: JsonTree, name: Seq<char>) -> Option<char> {
    match text_at(record, name) {
        Some(t) => if t.len() == 1 {
            Some(t[0])
        } else {
            None
        },
        None => None,
    }
}

/// The text of the first of `names` that the record holds as a text.
pub open spec fn first_text_at(record: JsonTree, names: Seq<Seq<char>>) -> Option<Seq<char>>
    decreases names.len(),
{
    if names.len() == 0 {
        None
    } else {
        match text_at(record, names[0]) {
            Some(t) => Some(t),
            None => first_text_at(record, names.drop_first()),
        }
    }
}

pub fn text_field(record: &JsonValue, name: &str) -> (r: Option<String>)
    ensures
        match r {
            Some(t) => text_at(record@, name@) == Some(t@),
            None => text_at(record@, name@) is None,
        },
{
    match record.get(name) {
        Some(v) => match v.as_text() {
            Some(t) => Some(t.clone()),
            None => None,
        },
        None => None,
    }
}

pub fn text_field_or(record: &JsonValue, name: &str, default: &str) -> (r: String)
    ensures
        r@ == text_or(record@, name@, default@),
{
    match text_field(record, name) {
        Some(t) => t,
        None => String::from_str(default),
    }
}

pub fn integer_field(record: &JsonValue, name: &str, low: i128, high: i128) -> (r: Option<i128>)
    ensures
        match r {
            Some(i) => integer_at(record@, name@, low as int, high as int) == Some(i as int),
            None => integer_at(record@, name@, low as int, high as int) is None,
        },
{
    match record.get(name) {
        Some(JsonValue::Integer(i)) => if low <= *i && *i <= high {
            Some(*i)
        } else {
            None
        },
        _ => None,
    }
}

pub fn bool_field(record: &JsonValue, name: &str) -> (r: Option<bool>)
    ensures
        r == bool_at(record@, name@),
{
    match record.get(name) {
        Some(v) => v.as_bool(),
        None => None,
    }
}

pub fn nested_text_field(record: &JsonValue, name: &str, inner: &str) -> (r: Option<String>)
    ensures
        match r {
            Some(t) => nested_text_at(record@, name@, inner@) == Some(t@),
            None => nested_text_at(record@, name@, inner@) is None,
        },
{
    match record.get(name) {
        Some(v) => text_field(v, inner),
        None => None,
    }
}

pub fn date_field(record: &JsonValue, name: &str) -> (r: String)
    ensures
        r@ == date_at(record@, name@),
{
    match text_field(record, name) {
        Some(t) => t,
        None => match nested_text_field(record, name, DATE_MEMBER) {
            Some(t) => t,
            None => String::from_str(NOT_AVAILABLE),
        },
    }
}

pub fn char_field(record: &JsonValue, name: &str) -> (r: Option<char>)
    ensures
        r == char_at(record@, name@),
{
    match text_field(record, name) {
        Some(t) => {
            let v = chars_of(t.as_str());
            if v.len() == 1 {
                Some(v[0])
            } else {
                None
            }
        },
        None => None,
    }
}

pub fn first_text_field(record: &JsonValue, names: &[&str]) -> (r: Option<String>)
    ensures
        match r {
            Some(t) => first_text_at(record@, views(names@)) == Some(t@),
            None => first_text_at(record@, views(names@)) is None,
        },
{
    let ghost all = views(names@);
    let mut i: usize = 0;
    assert(all.subrange(0, all.len() as int) == all);
    while i < names.len()
        invariant
            i <= names.len(),
            all == views(names@),
            first_text_at(record@, all) == first_text_at(
                record@,
                all.subrange(i as int, all.len() as int),
            ),
        decreases names.len() - i,
    {
        let ghost rest = all.subrange(i as int, all.len() as int);
        assert(rest[0] == names@[i as int]@);
        assert(rest.drop_first() == all.subrange(i + 1, all.len() as int));
        match text_field(record, names[i]) {
            Some(t) => {
                return Some(t);
            },
            None => {},
        }
        i += 1;
    }
    assert(all.subrange(all.len() as int, all.len() as int).len() == 0);
    None
}

// ---------------------------------------------------------------------------
// Records
// ---------------------------------------------------------------------------

/// A type that one decoded record can be mapped to.
pub trait Record: View + Sized {
    /// What a record maps to; `None` where a field that the schema
    /// requires is missing or of another shape.
    spec fn mapped(tree: JsonTree) -> Option<Self::V>;

    fn map(value: &JsonValue) -> (r: Option<Self>)
        ensures
            match r {
                Some(x) => Self::mapped(value@) == Some(x@),
                None => Self::mapped(value@) is None,
            },
    ;
}

/// Whether every record of a batch can be mapped.
pub open spec fn all_mappable<T: Record>(records: Seq<JsonTree>) -> bool {
    forall|i: int| 0 <= i < records.len() ==> (#[trigger] T::mapped(records[i])) is Some
}

/// What a batch maps to, record by record, where every record can be mapped.
pub open spec fn mapped_all<T: Record>(records: Seq<JsonTree>) -> Option<Seq<T::V>> {
    if all_mappable::<T>(records) {
        Some(Seq::new(records.len(), |i: int| T::mapped(records[i])->0))
    } else {
        None
    }
}

pub fn map_records<T: Record>(records: &Vec<JsonValue>) -> (r: Option<Vec<T>>)
    ensures
        match r {
            Some(v) => mapped_all::<T>(views(records@)) == Some(views(v@)),
            None => mapped_all::<T>(views(records@)) is None,
        },
{
    let ghost trees = views(records@);
    let mut out: Vec<T> = Vec::new();
    let mut i: usize = 0;
    while i < records.len()
        invariant
            i <= records.len(),
            trees == views(records@),
            out@.len() == i,
            forall|k: int| 0 <= k < i ==> #[trigger] T::mapped(trees[k]) == Some(out@[k]@),
        decreases records.len() - i,
    {
        assert(trees[i as int] == records@[i as int]@);
        match T::map(&records[i]) {
            Some(x) => {
                out.push(x);
            },
            None => {
                assert(T::mapped(trees[i as int]) is None);
                return None;
            },
        }
        i += 1;
    }
    assert(all_mappable::<T>(trees));
    assert(views(out@) =~= Seq::new(trees.len(), |i: int| T::mapped(trees[i])->0));
    Some(out)
}

/// What a finished process amounts to in the schema `T`: its records
/// mapped one by one, or the failure of the process, or a report of
/// malformed output where a record lacks what the schema requires.
pub open spec fn typed<T: Record>(exit_success: bool, stdout: Seq<char>, stderr: Seq<char>) -> Result<
    Seq<T::V>,
    ErrorView,
> {
    match normalized(exit_success, stdout, stderr) {
        Ok(records) => match mapped_all::<T>(records) {
            Some(items) => Ok(items),
            None => Err(
                ErrorView::MalformedOutput { raw_snippet: snippet(payload(trimmed(stdout))) },
            ),
        },
        Err(e) => Err(e),
    }
}

/// The start of the payload of `stdout`, for a report of malformed output.
pub fn snippet_of(stdout: &str) -> (r: String)
    ensures
        r@ == snippet(payload(trimmed(stdout@))),
{
    let body = extract_payload(&trim(&chars_of(stdout)));
    if body.len() <= SNIPPET_LENGTH {
        assert(body@.subrange(0, body.len() as int) == body@);
        text_of(&body)
    } else {
        text_of(&slice_of(&body, 0, SNIPPET_LENGTH))
    }
}

/// The start of a text, for a report of malformed output.
pub fn shown_start(text: &str) -> (r: String)
    ensures
        r@ == snippet(text@),
{
    let body = chars_of(text);
    if body.len() <= SNIPPET_LENGTH {
        assert(body@.subrange(0, body.len() as int) == body@);
        text_of(&body)
    } else {
        text_of(&slice_of(&body, 0, SNIPPET_LENGTH))
    }
}

/// The records of a finished process in the schema `T`.
pub fn typed_records<T: Record>(exit_success: bool, stdout: &str, stderr: &str) -> (r: Result<
    Vec<T>,
    ErrorKind,
>)
    ensures
        yields_all(r, typed::<T>(exit_success, stdout@, stderr@)),
{
    match normalize_text(exit_success, stdout, stderr) {
        Ok(records) => match map_records::<T>(&records) {
            Some(items) => Ok(items),
            None => Err(ErrorKind::MalformedOutput { raw_snippet: snippet_of(stdout) }),
        },
        Err(e) => Err(e),
    }
}

/// The records of a tool's output in the schema `T`; nothing where the
/// output cannot be read or a record lacks what the schema requires.
pub open spec fn typed_output<T: Record>(stdout: Seq<char>) -> Option<Seq<T::V>> {
    match decoded_records(stdout) {
        Ok(records) => mapped_all::<T>(records),
        Err(_) => None,
    }
}

pub fn read_output<T: Record>(stdout: &str) -> (r: Option<Vec<T>>)
    ensures
        match r {
            Some(v) => typed_output::<T>(stdout@) == Some(views(v@)),
            None => typed_output::<T>(stdout@) is None,
        },
{
    match decode_records(stdout) {
        Ok(records) => map_records::<T>(&records),
        Err(_) => None,
    }
}

// ---------------------------------------------------------------------------
// Coded fields
// ---------------------------------------------------------------------------

/// What a code stands for: a documented name, or the code itself where no
/// name is documented for it.
#[derive(Debug)]
pub enum CodeName {
    Known(&'static str),
    Unknown(i128),
}

pub enum CodeView {
    Known(Seq<char>),
    Unknown(int),
}

impl View for CodeName {
    type V = CodeView;

    open spec fn view(&self) -> CodeView {
        match self {
            CodeName::Known(name) => CodeView::Known(name@),
            CodeName::Unknown(code) => CodeView::Unknown(*code as int),
        }
    }
}

impl CodeView {
    /// The name, or the code between `prefix` and `suffix`.
    pub open spec fn label(self, prefix: Seq<char>, suffix: Seq<char>) -> Seq<char> {
        match self {
            CodeView::Known(name) => name,
            CodeView::Unknown(code) => prefix + signed_decimal(code) + suffix,
        }
    }
}

impl CodeName {
    /// The name, or the code between `prefix` and `suffix`.
    pub fn label(&self, prefix: &str, suffix: &str) -> (r: String)
        ensures
            r@ == self@.label(prefix@, suffix@),
    {
        match self {
            CodeName::Known(name) => String::from_str(name),
            CodeName::Unknown(code) => {
                let digits = text_of(&signed_decimal_of(*code));
                String::from_str(prefix).concat(digits.as_str()).concat(suffix)
            },
        }
    }
}

/// A coded member as it arrives: already a name, or a code.
#[derive(Debug)]
pub enum Coded {
    Text(String),
    Code(i128),
}

pub enum CodedView {
    Text(Seq<char>),
    Code(int),
}

impl View for Coded {
    type V = CodedView;

    open spec fn view(&self) -> CodedView {
        match self {
            Coded::Text(t) => CodedView::Text(t@),
            Coded::Code(c) => CodedView::Code(*c as int),
        }
    }
}

/// The coded member `name`, where it is a text or an integer.
pub open spec fn coded_at(record: JsonTree, name: Seq<char>) -> Option<CodedView> {
    match record.field(name) {
        Some(JsonTree::Text(t)) => Some(CodedView::Text(t)),
        Some(JsonTree::Integer(code)) => Some(CodedView::Code(code)),
        _ => None,
    }
}

pub fn coded_field(record: &JsonValue, name: &str) -> (r: Option<Coded>)
    ensures
        match r {
            Some(c) => coded_at(record@, name@) == Some(c@),
            None => coded_at(record@, name@) is None,
        },
{
    match record.get(name) {
        Some(JsonValue::Text(t)) => Some(Coded::Text(t.clone())),
        Some(JsonValue::Integer(code)) => Some(Coded::Code(*code)),
        _ => None,
    }
}

/// The switch in the member `name`: a truth value as it is, an integer as
/// whether it is 1.
pub open spec fn switch_at(record: JsonTree, name: Seq<char>) -> Option<bool> {
    match record.field(name) {
        Some(JsonTree::Bool(b)) => Some(b),
        Some(JsonTree::Integer(i)) => Some(i == 1),
        _ => None,
    }
}

pub fn switch_field(record: &JsonValue, name: &str) -> (r: Option<bool>)
    ensures
        r == switch_at(record@, name@),
{
    match record.get(name) {
        Some(JsonValue::Bool(b)) => Some(*b),
        Some(JsonValue::Integer(i)) => Some(*i == 1),
        _ => None,
    }
}

// ---------------------------------------------------------------------------
// Whole responses
// ---------------------------------------------------------------------------

/// Whether a result stands for `expected`.
pub open spec fn yields<T: View, E: View>(r: Result<T, E>, expected: Result<T::V, E::V>) -> bool {
    match r {
        Ok(x) => expected == Ok::<T::V, E::V>(x@),
        Err(e) => expected == Err::<T::V, E::V>(e@),
    }
}

/// Whether a result that holds a list stands for `expected`.
pub open spec fn yields_all<T: View, E: View>(
    r: Result<Vec<T>, E>,
    expected: Result<Seq<T::V>, E::V>,
) -> bool {
    match r {
        Ok(v) => expected == Ok::<Seq<T::V>, E::V>(views(v@)),
        Err(e) => expected == Err::<Seq<T::V>, E::V>(e@),
    }
}

/// Whether a result without a value stands for `expected`.
pub open spec fn yields_unit<E: View>(r: Result<(), E>, expected: Result<(), E::V>) -> bool {
    match r {
        Ok(_) => expected == Ok::<(), E::V>(()),
        Err(e) => expected == Err::<(), E::V>(e@),
    }
}

/// A listing in which output that cannot be read counts as no record.
pub open spec fn lenient<V>(expected: Result<Seq<V>, ErrorView>) -> Result<Seq<V>, ErrorView> {
    match expected {
        Err(ErrorView::MalformedOutput { .. }) => Ok(Seq::empty()),
        other => other,
    }
}

/// What an attempt to run a tool amounts to in the schema `T`.
pub open spec fn listed<T: Record>(outcome: Result<ExecutionResult, ErrorKind>) -> Result<
    Seq<T::V>,
    ErrorView,
> {
    match outcome {
        Ok(raw) => typed::<T>(raw.exit_success, utf8_lossy(raw.stdout@), utf8_lossy(raw.stderr@)),
        Err(e) => Err(e@),
    }
}

/// The records in the schema `T` that an attempt to run a tool gave.
pub fn list_records<T: Record>(outcome: Result<ExecutionResult, ErrorKind>) -> (r: Result<
    Vec<T>,
    ErrorKind,
>)
    ensures
        yields_all(r, listed::<T>(outcome)),
{
    match outcome {
        Ok(raw) => {
            let out = raw.stdout_text();
            let err = raw.stderr_text();
            typed_records::<T>(raw.exit_success, out.as_str(), err.as_str())
        },
        Err(e) => Err(e),
    }
}

/// The records in the schema `T` that an attempt to run a tool gave, where
/// output that cannot be read counts as no record.
pub fn list_records_leniently<T: Record>(outcome: Result<ExecutionResult, ErrorKind>) -> (r: Result<
    Vec<T>,
    ErrorKind,
>)
    ensures
        yields_all(r, lenient(listed::<T>(outcome))),
{
    match list_records::<T>(outcome) {
        Err(ErrorKind::MalformedOutput { .. }) => {
            let v: Vec<T> = Vec::new();
            assert(views(v@) =~= Seq::<T::V>::empty());
            Ok(v)
        },
        other => other,
    }
}

/// The first record of what an attempt to run a tool gave; where there is
/// none, the prerequisite named by `missing` is reported as unavailable.
pub open spec fn single<T: Record>(
    outcome: Result<ExecutionResult, ErrorKind>,
    missing: Seq<char>,
) -> Result<T::V, ErrorView> {
    match listed::<T>(outcome) {
        Ok(items) => if items.len() > 0 {
            Ok(items[0])
        } else {
            Err(ErrorView::Unavailable { detail: missing })
        },
        Err(e) => Err(e),
    }
}

pub fn single_record<T: Record>(outcome: Result<ExecutionResult, ErrorKind>, missing: &str) -> (r:
    Result<T, ErrorKind>)
    ensures
        yields(r, single::<T>(outcome, missing@)),
{
    match list_records::<T>(outcome) {
        Ok(mut items) => if items.len() > 0 {
            let ghost all = views(items@);
            let first = items.remove(0);
            assert(all[0] == first@);
            Ok(first)
        } else {
            Err(ErrorKind::Unavailable { detail: String::from_str(missing) })
        },
        Err(e) => Err(e),
    }
}

/// What an attempt to run a tool for its report amounts to: what it wrote
/// to its output, after `prefix`, where it ran and reported success, else
/// the failure, with what the tool wrote to its error stream unchanged.
pub open spec fn reported(outcome: Result<ExecutionResult, ErrorKind>, prefix: Seq<char>) -> Result<
    Seq<char>,
    ErrorView,
> {
    match outcome {
        Ok(raw) => if raw.exit_success {
            Ok(prefix + utf8_lossy(raw.stdout@))
        } else {
            Err(ErrorView::ExternalToolFailed { stderr: utf8_lossy(raw.stderr@) })
        },
        Err(e) => Err(e@),
    }
}

pub fn report(outcome: Result<ExecutionResult, ErrorKind>, prefix: &str) -> (r: Result<
    String,
    ErrorKind,
>)
    ensures
        yields(r, reported(outcome, prefix@)),
{
    match outcome {
        Ok(raw) => if raw.exit_success {
            Ok(String::from_str(prefix).concat(raw.stdout_text().as_str()))
        } else {
            Err(ErrorKind::ExternalToolFailed { stderr: raw.stderr_text() })
        },
        Err(e) => Err(e),
    }
}

/// What an attempt to run a tool for its effect amounts to: nothing where
/// it ran and reported success, else the failure, with what the tool wrote
/// to its error stream unchanged.
pub open spec fn acknowledged(outcome: Result<ExecutionResult, ErrorKind>) -> Result<(), ErrorView> {
    match outcome {
        Ok(raw) => if raw.exit_success {
            Ok(())
        } else {
            Err(ErrorView::ExternalToolFailed { stderr: utf8_lossy(raw.stderr@) })
        },
        Err(e) => Err(e@),
    }
}

pub fn acknowledge(outcome: Result<ExecutionResult, ErrorKind>) -> (r: Result<(), ErrorKind>)
    ensures
        yields_unit(r, acknowledged(outcome)),
{
    match outcome {
        Ok(raw) => if raw.exit_success {
            Ok(())
        } else {
            Err(ErrorKind::ExternalToolFailed { stderr: raw.stderr_text() })
        },
        Err(e) => Err(e),
    }
}

} // verus!
