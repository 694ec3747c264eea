//! The hardware of the machine: processor, main board, memory and
//! graphics adapters.

use vstd::prelude::*;
use vstd::string::*;
use crate::command::{Invocation, option_text, powershell, powershell_bypass};
use crate::disks::{u32_at, u32_field, u64_at, u64_field};
use crate::error::{ErrorKind, ErrorView};
use crate::execution::{utf8_lossy, ExecutionResult};
use crate::fallback::{Chain, Discipline};
use crate::flow::Step;
use crate::json::{JsonTree, JsonValue};
use crate::mapper::{
    list_records, listed, read_output, text_at, text_field, text_field_or, text_or, typed_output,
    yields_all, Record,
};
use crate::normalize::{decode_records, decoded_records};
use crate::text::{
    chars_of, first_index, has_prefix, index_of, parse_unsigned, parsed_unsigned, same_text,
    slice_of, starts_with, text_of, trim, trimmed, views, words, words_of, lemma_views_push,
};

verus! {

// ---------------------------------------------------------------------------
// Properties: values by key
// ---------------------------------------------------------------------------

/// Values by key. Built with `new` and `insert`, it holds each key at most
/// once (`is_keyed`).
#[derive(Debug)]
pub struct Properties {
    pub entries: Vec<(String, String)>,
}

/// The keys and values of a list of entries.
pub open spec fn pairs(entries: Seq<(String, String)>) -> Seq<(Seq<char>, Seq<char>)> {
    Seq::new(entries.len(), |i: int| (entries[i].0@, entries[i].1@))
}

impl View for Properties {
    type V = Seq<(Seq<char>, Seq<char>)>;

    open spec fn view(&self) -> Seq<(Seq<char>, Seq<char>)> {
        pairs(self.entries@)
    }
}

/// Whether no two entries have the same key.
pub open spec fn distinct_keys(entries: Seq<(Seq<char>, Seq<char>)>) -> bool {
    forall|i: int, j: int|
        0 <= i < j < entries.len() ==> (#[trigger] entries[i]).0 != (#[trigger] entries[j]).0
}

/// The value of the first entry with the key `key`.
pub open spec fn value_of(entries: Seq<(Seq<char>, Seq<char>)>, key: Seq<char>) -> Option<Seq<char>>
    decreases entries.len(),
{
    if entries.len() == 0 {
        None
    } else if entries[0].0 == key {
        Some(entries[0].1)
    } else {
        value_of(entries.drop_first(), key)
    }
}

/// The position of the first entry with the key `key`, or the length.
pub open spec fn position_of(entries: Seq<(Seq<char>, Seq<char>)>, key: Seq<char>) -> int
    decreases entries.len(),
{
    if entries.len() == 0 || entries[0].0 == key {
        0
    } else {
        1 + position_of(entries.drop_first(), key)
    }
}

/// The entries with `value` under `key`: in place of the entry that had
/// the key, or at the end.
pub open spec fn with_value(
    entries: Seq<(Seq<char>, Seq<char>)>,
    key: Seq<char>,
    value: Seq<char>,
) -> Seq<(Seq<char>, Seq<char>)> {
    let at = position_of(entries, key);
    if at < entries.len() {
        entries.update(at, (key, value))
    } else {
        entries.push((key, value))
    }
}

proof fn lemma_position_of(entries: Seq<(Seq<char>, Seq<char>)>, key: Seq<char>)
    ensures
        0 <= position_of(entries, key) <= entries.len(),
        forall|i: int| 0 <= i < position_of(entries, key) ==> (#[trigger] entries[i]).0 != key,
        position_of(entries, key) < entries.len() ==> entries[position_of(entries, key)].0 == key
            && value_of(entries, key) == Some(entries[position_of(entries, key)].1),
        position_of(entries, key) == entries.len() ==> value_of(entries, key) is None,
    decreases entries.len(),
{
    if !(entries.len() == 0 || entries[0].0 == key) {
        let rest = entries.drop_first();
        lemma_position_of(rest, key);
        assert forall|i: int| 0 <= i < position_of(entries, key) implies (#[trigger] entries[i]).0
            != key by {
            if i > 0 {
                assert(entries[i] == rest[i - 1]);
            }
        }
        if position_of(entries, key) < entries.len() {
            assert(entries[position_of(entries, key)] == rest[position_of(rest, key)]);
        }
    }
}

proof fn lemma_position_is(entries: Seq<(Seq<char>, Seq<char>)>, key: Seq<char>, k: int)
    requires
        0 <= k <= entries.len(),
        forall|i: int| 0 <= i < k ==> (#[trigger] entries[i]).0 != key,
        k < entries.len() ==> entries[k].0 == key,
    ensures
        position_of(entries, key) == k,
    decreases entries.len(),
{
    if k > 0 {
        let rest = entries.drop_first();
        assert(entries[0].0 != key);
        assert forall|i: int| 0 <= i < k - 1 implies (#[trigger] rest[i]).0 != key by {
            assert(rest[i] == entries[i + 1]);
        }
        lemma_position_is(rest, key, k - 1);
    }
}

proof fn lemma_with_value_keeps_keys_distinct(
    entries: Seq<(Seq<char>, Seq<char>)>,
    key: Seq<char>,
    value: Seq<char>,
)
    requires
        distinct_keys(entries),
    ensures
        distinct_keys(with_value(entries, key, value)),
{
    lemma_position_of(entries, key);
    let at = position_of(entries, key);
    let after = with_value(entries, key, value);
    assert forall|i: int, j: int| 0 <= i < j < after.len() implies (#[trigger] after[i]).0 != (
    #[trigger] after[j]).0 by {
        if at < entries.len() {
            assert(after[i].0 == entries[i].0);
            assert(after[j].0 == entries[j].0);
        } else {
            assert(after[i] == entries[i]);
            if j < entries.len() {
                assert(after[j] == entries[j]);
            }
        }
    }
}

impl Properties {
    /// Whether each key occurs at most once.
    pub open spec fn is_keyed(&self) -> bool {
        distinct_keys(self@)
    }

    pub fn new() -> (r: Properties)
        ensures
            r@.len() == 0,
            r.is_keyed(),
    {
        Properties { entries: Vec::new() }
    }

    pub fn is_empty(&self) -> (r: bool)
        ensures
            r == (self@.len() == 0),
    {
        self.entries.len() == 0
    }

    fn find(&self, key: &str) -> (k: usize)
        ensures
            k == position_of(self@, key@),
            k <= self.entries.len(),
    {
        let mut k: usize = 0;
        while k < self.entries.len() && !same_text(self.entries[k].0.as_str(), key)
            invariant
                k <= self.entries.len(),
                forall|i: int| 0 <= i < k ==> (#[trigger] self@[i]).0 != key@,
            decreases self.entries.len() - k,
        {
            k += 1;
        }
        proof {
            lemma_position_is(self@, key@, k as int);
        }
        k
    }

    /// The value under `key`.
    pub fn get(&self, key: &str) -> (r: Option<&String>)
        ensures
            match r {
                Some(v) => value_of(self@, key@) == Some(v@),
                None => value_of(self@, key@) is None,
            },
    {
        let k = self.find(key);
        proof {
            lemma_position_of(self@, key@);
        }
        if k < self.entries.len() {
            Some(&self.entries[k].1)
        } else {
            None
        }
    }

    /// Puts `value` under `key`, in place of what was there.
    pub fn insert(&mut self, key: String, value: String)
        ensures
            final(self)@ == with_value(old(self)@, key@, value@),
            old(self).is_keyed() ==> final(self).is_keyed(),
    {
        let k = self.find(key.as_str());
        let ghost before = self@;
        proof {
            lemma_position_of(before, key@);
            if distinct_keys(before) {
                lemma_with_value_keeps_keys_distinct(before, key@, value@);
            }
        }
        if k < self.entries.len() {
            self.entries.set(k, (key, value));
            assert(self@ =~= before.update(k as int, (key@, value@)));
        } else {
            self.entries.push((key, value));
            assert(self@ =~= before.push((key@, value@)));
        }
    }
}

/// The value of the first of `keys` that has one.
pub open spec fn first_value(entries: Seq<(Seq<char>, Seq<char>)>, keys: Seq<Seq<char>>) -> Option<
    Seq<char>,
>
    decreases keys.len(),
{
    if keys.len() == 0 {
        None
    } else {
        match value_of(entries, keys[0]) {
            Some(v) => Some(v),
            None => first_value(entries, keys.drop_first()),
        }
    }
}

/// The value of the first of `keys` that has one.
pub fn first_val<'a>(map: &'a Properties, keys: &[&str]) -> (r: Option<&'a String>)
    ensures
        match r {
            Some(v) => first_value(map@, views(keys@)) == Some(v@),
            None => first_value(map@, views(keys@)) is None,
        },
{
    let ghost all = views(keys@);
    let mut i: usize = 0;
    assert(all.subrange(0, all.len() as int) == all);
    while i < keys.len()
        invariant
            i <= keys.len(),
            all == views(keys@),
            first_value(map@, all) == first_value(map@, all.subrange(i as int, all.len() as int)),
        decreases keys.len() - i,
    {
        let ghost rest = all.subrange(i as int, all.len() as int);
        assert(rest[0] == keys@[i as int]@);
        assert(rest.drop_first() == all.subrange(i + 1, all.len() as int));
        match map.get(keys[i]) {
            Some(v) => {
                return Some(v);
            },
            None => {},
        }
        i += 1;
    }
    assert(all.subrange(all.len() as int, all.len() as int).len() == 0);
    None
}

// ---------------------------------------------------------------------------
// Graphics adapters
// ---------------------------------------------------------------------------

#[derive(Debug)]
pub struct GpuInfo {
    pub name: String,
    /// The memory of the card in bytes.
    pub ram_bytes: u64,
    pub driver_version: String,
}

pub struct GpuView {
    pub name: Seq<char>,
    pub ram_bytes: u64,
    pub driver_version: Seq<char>,
}

impl View for GpuInfo {
    type V = GpuView;

    open spec fn view(&self) -> GpuView {
        GpuView {
            name: self.name@,
            ram_bytes: self.ram_bytes,
            driver_version: self.driver_version@,
        }
    }
}

impl GpuInfo {
    pub fn copy(&self) -> (r: GpuInfo)
        ensures
            r@ == self@,
    {
        GpuInfo {
            name: self.name.clone(),
            ram_bytes: self.ram_bytes,
            driver_version: self.driver_version.clone(),
        }
    }
}

/// The keys under which the diagnostic report names a card.
pub open spec fn name_keys() -> Seq<Seq<char>> {
    seq!["Card name"@, "Nom de la carte"@, "Nom du périphérique"@]
}

/// The keys under which the diagnostic report gives the memory of a card.
pub open spec fn memory_keys() -> Seq<Seq<char>> {
    seq![
        "Dedicated Memory"@,
        "Mémoire dédiée"@,
        "Mémoire vidéo dédiée"@,
        "Approx. Total Memory"@,
        "Mémoire totale approximative"@,
    ]
}

/// The keys under which the diagnostic report gives the driver of a card.
pub open spec fn driver_keys() -> Seq<Seq<char>> {
    seq!["Driver Version"@, "Version du pilote"@]
}

/// `s` without the characters that group the digits of a number.
pub open spec fn without_grouping(s: Seq<char>) -> Seq<char> {
    s.filter(|c: char| c != ' ' && c != ',' && c != '.')
}

/// The number of megabytes that a text such as "8 072 MB" starts with:
/// its first word, read as a number without the characters that group
/// digits; zero where that is no number of 64 bits.
pub open spec fn megabytes_of(text: Seq<char>) -> nat {
    if words(text).len() == 0 {
        0
    } else {
        match parsed_unsigned(without_grouping(words(text)[0]), u64::MAX as nat) {
            Some(n) => n,
            None => 0,
        }
    }
}

/// The number of bytes in a megabyte.
pub const MEGABYTE: u64 = 1048576;

/// A number of bytes, at most the greatest number of 64 bits.
pub open spec fn capped(bytes: nat) -> u64 {
    if bytes > u64::MAX {
        u64::MAX
    } else {
        bytes as u64
    }
}

fn read_megabytes(text: &str) -> (r: u64)
    ensures
        r == megabytes_of(text@),
{
    let ws = words_of(&chars_of(text));
    if ws.len() == 0 {
        return 0;
    }
    let first = &ws[0];
    assert(views(ws@)[0] == first@);
    let mut digits: Vec<char> = Vec::new();
    let mut i: usize = 0;
    while i < first.len()
        invariant
            i <= first.len(),
            digits@ == without_grouping(first@.subrange(0, i as int)),
        decreases first.len() - i,
    {
        proof {
            let next = first@.subrange(0, i + 1);
            assert(next.drop_last() == first@.subrange(0, i as int));
            assert(next.last() == first@[i as int]);
            reveal(Seq::filter);
        }
        let c = first[i];
        if c != ' ' && c != ',' && c != '.' {
            digits.push(c);
        }
        i += 1;
    }
    assert(first@.subrange(0, first.len() as int) == first@);
    match parse_unsigned(&digits, 0xFFFF_FFFF_FFFF_FFFF) {
        Some(n) => n,
        None => 0,
    }
}

/// The card that a section of the diagnostic report describes; none for
/// a section that names no card.
pub open spec fn gpu_of(section: Seq<(Seq<char>, Seq<char>)>) -> Option<GpuView> {
    match first_value(section, name_keys()) {
        Some(name) => Some(
            GpuView {
                name,
                ram_bytes: match first_value(section, memory_keys()) {
                    Some(memory) => capped(megabytes_of(memory) * MEGABYTE as nat),
                    None => 0,
                },
                driver_version: match first_value(section, driver_keys()) {
                    Some(driver) => driver,
                    None => Seq::empty(),
                },
            },
        ),
        None => None,
    }
}

/// The cards of `list`, and after them the card that `section` describes
/// where it names one.
pub open spec fn with_gpu(list: Seq<GpuView>, section: Seq<(Seq<char>, Seq<char>)>) -> Seq<GpuView> {
    match gpu_of(section) {
        Some(gpu) => list.push(gpu),
        None => list,
    }
}

/// Adds to `list` the card that `map` describes, where it names one.
pub fn push_gpu(list: &mut Vec<GpuInfo>, map: &Properties)
    ensures
        views(final(list)@) == with_gpu(views(old(list)@), map@),
{
    let names = ["Card name", "Nom de la carte", "Nom du périphérique"];
    let memories = [
        "Dedicated Memory",
        "Mémoire dédiée",
        "Mémoire vidéo dédiée",
        "Approx. Total Memory",
        "Mémoire totale approximative",
    ];
    let drivers = ["Driver Version", "Version du pilote"];
    assert(views(names@) =~= name_keys());
    assert(views(memories@) =~= memory_keys());
    assert(views(drivers@) =~= driver_keys());
    match first_val(map, &names) {
        Some(name) => {
            let ram_bytes: u64 = match first_val(map, &memories) {
                Some(memory) => {
                    let megabytes = read_megabytes(memory.as_str());
                    if megabytes > 17592186044415 {
                        0xFFFF_FFFF_FFFF_FFFF
                    } else {
                        megabytes * MEGABYTE
                    }
                },
                None => 0,
            };
            let driver_version = match first_val(map, &drivers) {
                Some(driver) => driver.clone(),
                None => String::new(),
            };
            let gpu = GpuInfo { name: name.clone(), ram_bytes, driver_version };
            proof {
                lemma_views_push(list@, gpu);
            }
            list.push(gpu);
        },
        None => {},
    }
}

pub const SECTION_RULE: &'static str = "---------------";

/// What has been read of a diagnostic report: the cards of the sections
/// that are closed, and the entries of the section that is open.
pub struct ReportState {
    pub gpus: Seq<GpuView>,
    pub section: Seq<(Seq<char>, Seq<char>)>,
}

/// The state with its open section closed.
pub open spec fn closed(state: ReportState) -> ReportState {
    if state.section.len() > 0 {
        ReportState { gpus: with_gpu(state.gpus, state.section), section: Seq::empty() }
    } else {
        state
    }
}

/// The state after one more line of the report. A rule closes the open
/// section. A line with a colon adds an entry: the key before the first
/// colon, the value after it, both trimmed; where the key names a card,
/// the open section is closed first. Any other line changes nothing.
pub open spec fn after_line(state: ReportState, line: Seq<char>) -> ReportState {
    if starts_with(line, SECTION_RULE@) {
        closed(state)
    } else if first_index(line, ':') < line.len() {
        let key = trimmed(line.subrange(0, first_index(line, ':')));
        let value = trimmed(line.subrange(first_index(line, ':') + 1, line.len() as int));
        let base = if name_keys().contains(key) {
            closed(state)
        } else {
            state
        };
        ReportState { gpus: base.gpus, section: with_value(base.section, key, value) }
    } else {
        state
    }
}

/// The state after all of `lines`.
pub open spec fn after_lines(lines: Seq<Seq<char>>) -> ReportState
    decreases lines.len(),
{
    if lines.len() == 0 {
        ReportState { gpus: Seq::empty(), section: Seq::empty() }
    } else {
        after_line(after_lines(lines.drop_last()), lines.last())
    }
}

/// The cards that a diagnostic report describes.
pub open spec fn gpus_in_report(lines: Seq<Seq<char>>) -> Seq<GpuView> {
    closed(after_lines(lines)).gpus
}

fn names_card(key: &str) -> (r: bool)
    ensures
        r == name_keys().contains(key@),
{
    let r = same_text(key, "Card name") || same_text(key, "Nom de la carte") || same_text(
        key,
        "Nom du périphérique",
    );
    proof {
        let keys = name_keys();
        if r {
            if key@ == "Card name"@ {
                assert(keys[0] == key@);
            } else if key@ == "Nom de la carte"@ {
                assert(keys[1] == key@);
            } else {
                assert(keys[2] == key@);
            }
        } else {
            assert forall|i: int| 0 <= i < keys.len() implies keys[i] != key@ by {}
        }
    }
    r
}

/// The cards that a diagnostic report describes.
pub fn read_report(lines: &Vec<String>) -> (r: Vec<GpuInfo>)
    ensures
        views(r@) == gpus_in_report(views(lines@)),
{
    let ghost all = views(lines@);
    let mut gpus: Vec<GpuInfo> = Vec::new();
    let mut section = Properties::new();
    let mut i: usize = 0;
    assert(views(gpus@) =~= Seq::<GpuView>::empty());
    assert(section@ =~= Seq::<(Seq<char>, Seq<char>)>::empty());
    while i < lines.len()
        invariant
            i <= lines.len(),
            all == views(lines@),
            after_lines(all.subrange(0, i as int)) == (ReportState {
                gpus: views(gpus@),
                section: section@,
            }),
        decreases lines.len() - i,
    {
        proof {
            let next = all.subrange(0, i + 1);
            assert(next.drop_last() == all.subrange(0, i as int));
            assert(next.last() == lines@[i as int]@);
        }
        let line = chars_of(lines[i].as_str());
        if has_prefix(&line, &chars_of(SECTION_RULE)) {
            if !section.is_empty() {
                push_gpu(&mut gpus, &section);
                section = Properties::new();
                assert(section@ =~= Seq::<(Seq<char>, Seq<char>)>::empty());
            }
        } else {
            let colon = index_of(&line, ':');
            if colon < line.len() {
                let key = text_of(&trim(&slice_of(&line, 0, colon)));
                let value = text_of(&trim(&slice_of(&line, colon + 1, line.len())));
                if names_card(key.as_str()) && !section.is_empty() {
                    push_gpu(&mut gpus, &section);
                    section = Properties::new();
                    assert(section@ =~= Seq::<(Seq<char>, Seq<char>)>::empty());
                }
                section.insert(key, value);
            }
        }
        i += 1;
    }
    assert(all.subrange(0, lines.len() as int) == all);
    if !section.is_empty() {
        push_gpu(&mut gpus, &section);
    }
    gpus
}

/// Runs the diagnostic tool and writes the lines of its report as a JSON list.
pub const DIAGNOSTIC_SCRIPT: &'static str = r#"
      $tmp = Join-Path $env:TEMP ("dx_{0}.txt" -f ([guid]::NewGuid().ToString("N")))
      dxdiag /whql:off /t "$tmp" | Out-Null
      while (-not (Test-Path $tmp)) { Start-Sleep -Milliseconds 200 }
      ($content = Get-Content -Path "$tmp" -Raw) | Out-Null
      $content -split "`r`n" | ConvertTo-Json -Compress
    "#;

/// Asks the system for its video controllers.
pub const VIDEO_CONTROLLERS_SCRIPT: &'static str = r#"
      Get-CimInstance Win32_VideoController |
      Select-Object Name,AdapterRAM,DriverVersion |
      ConvertTo-Json -Compress
    "#;

/// The command that writes the diagnostic report as a list of lines.
pub fn get_gpu_dxdiag_command() -> (r: Invocation)
    ensures
        r@ == powershell_bypass(DIAGNOSTIC_SCRIPT@),
{
    Invocation::powershell_bypass(String::from_str(DIAGNOSTIC_SCRIPT))
}

/// The texts of `records`, where each of them is a text.
pub open spec fn all_texts(records: Seq<JsonTree>) -> Option<Seq<Seq<char>>> {
    if forall|i: int| 0 <= i < records.len() ==> (#[trigger] records[i]) is Text {
        Some(Seq::new(records.len(), |i: int| records[i]->Text_0))
    } else {
        None
    }
}

/// The cards in the output of the diagnostic tool: those of the report,
/// where the output is a list of lines; none where it is anything else.
pub open spec fn gpus_in_output(out: Seq<char>) -> Seq<GpuView> {
    match decoded_records(out) {
        Ok(records) => match all_texts(records) {
            Some(lines) => gpus_in_report(lines),
            None => Seq::empty(),
        },
        Err(_) => Seq::empty(),
    }
}

/// The cards that the diagnostic tool reported; a failure where it could
/// not be run or failed.
pub open spec fn dxdiag_gpus(outcome: Result<ExecutionResult, ErrorKind>) -> Result<
    Seq<GpuView>,
    ErrorView,
> {
    match outcome {
        Err(e) => Err(e@),
        Ok(raw) => if !raw.exit_success {
            Err(ErrorView::ExternalToolFailed { stderr: utf8_lossy(raw.stderr@) })
        } else {
            Ok(gpus_in_output(utf8_lossy(raw.stdout@)))
        },
    }
}

fn texts_of(records: &Vec<JsonValue>) -> (r: Option<Vec<String>>)
    ensures
        match r {
            Some(lines) => all_texts(views(records@)) == Some(views(lines@)),
            None => all_texts(views(records@)) is None,
        },
{
    let ghost all = views(records@);
    let mut lines: Vec<String> = Vec::new();
    let mut i: usize = 0;
    while i < records.len()
        invariant
            i <= records.len(),
            all == views(records@),
            lines@.len() == i,
            forall|k: int| 0 <= k < i ==> (#[trigger] all[k]) is Text && all[k]->Text_0 == lines@[k]@,
        decreases records.len() - i,
    {
        assert(all[i as int] == records@[i as int]@);
        match records[i].as_text() {
            Some(t) => {
                lines.push(t.clone());
            },
            None => {
                assert(!(all[i as int] is Text));
                return None;
            },
        }
        i += 1;
    }
    assert(views(lines@) =~= Seq::new(all.len(), |i: int| all[i]->Text_0));
    Some(lines)
}

fn read_diagnostic_output(out: &str) -> (r: Vec<GpuInfo>)
    ensures
        views(r@) == gpus_in_output(out@),
{
    let none: Vec<GpuInfo> = Vec::new();
    assert(views(none@) =~= Seq::<GpuView>::empty());
    match decode_records(out) {
        Ok(records) => match texts_of(&records) {
            Some(lines) => read_report(&lines),
            None => none,
        },
        Err(_) => none,
    }
}

pub fn get_gpu_dxdiag_response(outcome: Result<ExecutionResult, ErrorKind>) -> (r: Result<
    Vec<GpuInfo>,
    ErrorKind,
>)
    ensures
        yields_all(r, dxdiag_gpus(outcome)),
{
    match outcome {
        Err(e) => Err(e),
        Ok(raw) => if !raw.exit_success {
            Err(ErrorKind::ExternalToolFailed { stderr: raw.stderr_text() })
        } else {
            Ok(read_diagnostic_output(raw.stdout_text().as_str()))
        },
    }
}

pub const UNKNOWN_GPU: &'static str = "GPU inconnu";

pub const NOTHING: &'static str = "";

/// The memory of a card in bytes, under either spelling of the member's
/// name; zero where there is none.
pub open spec fn adapter_memory_at(tree: JsonTree) -> u64 {
    match u64_at(tree, "AdapterRAM"@) {
        Some(n) => n,
        None => match u64_at(tree, "AdapterRam"@) {
            Some(n) => n,
            None => 0,
        },
    }
}

impl Record for GpuInfo {
    /// Any object is a card; each member that is missing gets its default.
    open spec fn mapped(tree: JsonTree) -> Option<GpuView> {
        if tree is Object {
            Some(
                GpuView {
                    name: text_or(tree, "Name"@, UNKNOWN_GPU@),
                    ram_bytes: adapter_memory_at(tree),
                    driver_version: text_or(tree, "DriverVersion"@, NOTHING@),
                },
            )
        } else {
            None
        }
    }

    fn map(value: &JsonValue) -> (r: Option<GpuInfo>) {
        if !value.is_object() {
            return None;
        }
        let ram_bytes = match u64_field(value, "AdapterRAM") {
            Some(n) => n,
            None => match u64_field(value, "AdapterRam") {
                Some(n) => n,
                None => 0,
            },
        };
        Some(
            GpuInfo {
                name: text_field_or(value, "Name", UNKNOWN_GPU),
                ram_bytes,
                driver_version: text_field_or(value, "DriverVersion", NOTHING),
            },
        )
    }
}

/// The command that asks the system for its video controllers.
pub fn get_gpu_wmi_command() -> (r: Invocation)
    ensures
        r@ == powershell_bypass(VIDEO_CONTROLLERS_SCRIPT@),
{
    Invocation::powershell_bypass(String::from_str(VIDEO_CONTROLLERS_SCRIPT))
}

/// The cards that the system reported; none where the tool could not be
/// run or wrote what cannot be read.
pub open spec fn wmi_gpus(outcome: Result<ExecutionResult, ErrorKind>) -> Seq<GpuView> {
    match outcome {
        Ok(raw) => match typed_output::<GpuInfo>(utf8_lossy(raw.stdout@)) {
            Some(gpus) => gpus,
            None => Seq::empty(),
        },
        Err(_) => Seq::empty(),
    }
}

pub fn get_gpu_wmi_response(outcome: Result<ExecutionResult, ErrorKind>) -> (r: Vec<GpuInfo>)
    ensures
        views(r@) == wmi_gpus(outcome),
{
    let none: Vec<GpuInfo> = Vec::new();
    assert(views(none@) =~= Seq::<GpuView>::empty());
    match outcome {
        Ok(raw) => match read_output::<GpuInfo>(raw.stdout_text().as_str()) {
            Some(gpus) => gpus,
            None => none,
        },
        Err(_) => none,
    }
}

// ---------------------------------------------------------------------------
// Processor, main board and memory
// ---------------------------------------------------------------------------

/// A processor as the system reports it.
#[derive(Debug)]
pub struct Processor {
    pub name: Option<String>,
    pub number_of_cores: Option<u32>,
    pub number_of_logical_processors: Option<u32>,
    pub max_clock_speed: Option<u32>,
}

pub struct ProcessorView {
    pub name: Option<Seq<char>>,
    pub number_of_cores: Option<u32>,
    pub number_of_logical_processors: Option<u32>,
    pub max_clock_speed: Option<u32>,
}

impl View for Processor {
    type V = ProcessorView;

    open spec fn view(&self) -> ProcessorView {
        ProcessorView {
            name: match self.name {
                Some(t) => Some(t@),
                None => None,
            },
            number_of_cores: self.number_of_cores,
            number_of_logical_processors: self.number_of_logical_processors,
            max_clock_speed: self.max_clock_speed,
        }
    }
}

impl Record for Processor {
    /// Any object is a processor.
    open spec fn mapped(tree: JsonTree) -> Option<ProcessorView> {
        if tree is Object {
            Some(
                ProcessorView {
                    name: text_at(tree, "Name"@),
                    number_of_cores: u32_at(tree, "NumberOfCores"@),
                    number_of_logical_processors: u32_at(tree, "NumberOfLogicalProcessors"@),
                    max_clock_speed: u32_at(tree, "MaxClockSpeed"@),
                },
            )
        } else {
            None
        }
    }

    fn map(value: &JsonValue) -> (r: Option<Processor>) {
        if !value.is_object() {
            return None;
        }
        Some(
            Processor {
                name: text_field(value, "Name"),
                number_of_cores: u32_field(value, "NumberOfCores"),
                number_of_logical_processors: u32_field(value, "NumberOfLogicalProcessors"),
                max_clock_speed: u32_field(value, "MaxClockSpeed"),
            },
        )
    }
}

/// A main board as the system reports it.
#[derive(Debug)]
pub struct BaseBoard {
    pub manufacturer: Option<String>,
    pub product: Option<String>,
}

pub struct BaseBoardView {
    pub manufacturer: Option<Seq<char>>,
    pub product: Option<Seq<char>>,
}

impl View for BaseBoard {
    type V = BaseBoardView;

    open spec fn view(&self) -> BaseBoardView {
        BaseBoardView {
            manufacturer: match self.manufacturer {
                Some(t) => Some(t@),
                None => None,
            },
            product: match self.product {
                Some(t) => Some(t@),
                None => None,
            },
        }
    }
}

impl Record for BaseBoard {
    /// Any object is a main board.
    open spec fn mapped(tree: JsonTree) -> Option<BaseBoardView> {
        if tree is Object {
            Some(
                BaseBoardView {
                    manufacturer: text_at(tree, "Manufacturer"@),
                    product: text_at(tree, "Product"@),
                },
            )
        } else {
            None
        }
    }

    fn map(value: &JsonValue) -> (r: Option<BaseBoard>) {
        if !value.is_object() {
            return None;
        }
        Some(
            BaseBoard {
                manufacturer: text_field(value, "Manufacturer"),
                product: text_field(value, "Product"),
            },
        )
    }
}

/// A memory module as the system reports it.
#[derive(Debug)]
pub struct PhysicalMemory {
    pub capacity: Option<u64>,
}

pub struct PhysicalMemoryView {
    pub capacity: Option<u64>,
}

impl View for PhysicalMemory {
    type V = PhysicalMemoryView;

    open spec fn view(&self) -> PhysicalMemoryView {
        PhysicalMemoryView {
            capacity: self.capacity,
        }
    }
}

impl Record for PhysicalMemory {
    /// Any object is a memory module.
    open spec fn mapped(tree: JsonTree) -> Option<PhysicalMemoryView> {
        if tree is Object {
            Some(PhysicalMemoryView { capacity: u64_at(tree, "Capacity"@) })
        } else {
            None
        }
    }

    fn map(value: &JsonValue) -> (r: Option<PhysicalMemory>) {
        if !value.is_object() {
            return None;
        }
        Some(PhysicalMemory { capacity: u64_field(value, "Capacity") })
    }
}

pub const WMI_OPEN: &'static str = "Get-WmiObject -Class ";

pub const WMI_SELECT: &'static str = " -ErrorAction SilentlyContinue | Select-Object ";

pub const WMI_CLOSE: &'static str = " | ConvertTo-Json -Compress";

pub const PROCESSOR_CLASS: &'static str = "Win32_Processor";

pub const PROCESSOR_PROPERTIES: &'static str =
    "Name, NumberOfCores, NumberOfLogicalProcessors, MaxClockSpeed";

pub const BOARD_CLASS: &'static str = "Win32_BaseBoard";

pub const BOARD_PROPERTIES: &'static str = "Manufacturer, Product";

pub const MEMORY_CLASS: &'static str = "Win32_PhysicalMemory";

pub const MEMORY_PROPERTIES: &'static str = "Capacity";

/// The script that asks the system for some properties of the objects of
/// a class.
pub open spec fn wmi_script(class: Seq<char>, properties: Seq<char>) -> Seq<char> {
    WMI_OPEN@ + class + WMI_SELECT@ + properties + WMI_CLOSE@
}

/// The command that asks the system for some properties of the objects
/// of a class. Both names stand in the script as they are: they are
/// constants of this module, never what a caller supplies.
fn wmi_command(class: &str, properties: &str) -> (r: Invocation)
    ensures
        r@ == powershell(wmi_script(class@, properties@)),
{
    Invocation::powershell(
        String::from_str(WMI_OPEN).concat(class).concat(WMI_SELECT).concat(properties).concat(
            WMI_CLOSE,
        ),
    )
}

/// The objects that the system reported: none where the tool failed, a
/// failure where it could not be run or wrote what cannot be read.
pub open spec fn wmi_objects<T: Record>(outcome: Result<ExecutionResult, ErrorKind>) -> Result<
    Seq<T::V>,
    ErrorView,
> {
    match outcome {
        Err(e) => Err(e@),
        Ok(raw) => if !raw.exit_success {
            Ok(Seq::empty())
        } else {
            listed::<T>(outcome)
        },
    }
}

pub fn get_wmi_json<T: Record>(outcome: Result<ExecutionResult, ErrorKind>) -> (r: Result<
    Vec<T>,
    ErrorKind,
>)
    ensures
        yields_all(r, wmi_objects::<T>(outcome)),
{
    let failed = match &outcome {
        Ok(raw) => !raw.exit_success,
        Err(_) => false,
    };
    if failed {
        let none: Vec<T> = Vec::new();
        assert(views(none@) =~= Seq::<T::V>::empty());
        Ok(none)
    } else {
        list_records::<T>(outcome)
    }
}

// ---------------------------------------------------------------------------
// The whole picture
// ---------------------------------------------------------------------------

#[derive(Debug)]
pub struct HardwareInfo {
    pub cpu_name: Option<String>,
    pub cpu_cores: Option<u32>,
    pub cpu_threads: Option<u32>,
    pub cpu_max_speed_mhz: Option<u32>,
    pub ram_total_bytes: Option<u64>,
    pub ram_modules_count: Option<usize>,
    pub motherboard_manufacturer: Option<String>,
    pub motherboard_product: Option<String>,
    pub gpus: Vec<GpuInfo>,
}

pub struct HardwareView {
    pub cpu_name: Option<Seq<char>>,
    pub cpu_cores: Option<u32>,
    pub cpu_threads: Option<u32>,
    pub cpu_max_speed_mhz: Option<u32>,
    pub ram_total_bytes: Option<u64>,
    pub ram_modules_count: Option<usize>,
    pub motherboard_manufacturer: Option<Seq<char>>,
    pub motherboard_product: Option<Seq<char>>,
    pub gpus: Seq<GpuView>,
}

impl View for HardwareInfo {
    type V = HardwareView;

    open spec fn view(&self) -> HardwareView {
        HardwareView {
            cpu_name: match self.cpu_name {
                Some(t) => Some(t@),
                None => None,
            },
            cpu_cores: self.cpu_cores,
            cpu_threads: self.cpu_threads,
            cpu_max_speed_mhz: self.cpu_max_speed_mhz,
            ram_total_bytes: self.ram_total_bytes,
            ram_modules_count: self.ram_modules_count,
            motherboard_manufacturer: match self.motherboard_manufacturer {
                Some(t) => Some(t@),
                None => None,
            },
            motherboard_product: match self.motherboard_product {
                Some(t) => Some(t@),
                None => None,
            },
            gpus: views(self.gpus@),
        }
    }
}

/// The sum of the capacities that are known.
pub open spec fn total_capacity(modules: Seq<PhysicalMemoryView>) -> nat
    decreases modules.len(),
{
    if modules.len() == 0 {
        0
    } else {
        total_capacity(modules.drop_last()) + match modules.last().capacity {
            Some(c) => c as nat,
            None => 0nat,
        }
    }
}

fn sum_capacities(modules: &Vec<PhysicalMemory>) -> (r: u64)
    ensures
        r == capped(total_capacity(views(modules@))),
{
    let ghost all = views(modules@);
    let mut total: u64 = 0;
    let mut i: usize = 0;
    while i < modules.len()
        invariant
            i <= modules.len(),
            all == views(modules@),
            total == capped(total_capacity(all.subrange(0, i as int))),
        decreases modules.len() - i,
    {
        proof {
            let next = all.subrange(0, i + 1);
            assert(next.drop_last() == all.subrange(0, i as int));
            assert(next.last() == modules@[i as int]@);
        }
        match modules[i].capacity {
            Some(c) => {
                total = if c > 0xFFFF_FFFF_FFFF_FFFF - total {
                    0xFFFF_FFFF_FFFF_FFFF
                } else {
                    total + c
                };
            },
            None => {},
        }
        i += 1;
    }
    assert(all.subrange(0, modules.len() as int) == all);
    total
}

/// The commands whose results make up the picture, in the order in which
/// their outcomes are handed to `get_hardware_info`: processor, main board,
/// memory, and the diagnostic report for the graphics adapters. They do
/// not depend on each other.
pub fn get_hardware_info_commands() -> (r: Vec<Invocation>)
    ensures
        r@.len() == 4,
        r@[0]@ == powershell(wmi_script(PROCESSOR_CLASS@, PROCESSOR_PROPERTIES@)),
        r@[1]@ == powershell(wmi_script(BOARD_CLASS@, BOARD_PROPERTIES@)),
        r@[2]@ == powershell(wmi_script(MEMORY_CLASS@, MEMORY_PROPERTIES@)),
        r@[3]@ == powershell_bypass(DIAGNOSTIC_SCRIPT@),
{
    let mut r: Vec<Invocation> = Vec::new();
    r.push(wmi_command(PROCESSOR_CLASS, PROCESSOR_PROPERTIES));
    r.push(wmi_command(BOARD_CLASS, BOARD_PROPERTIES));
    r.push(wmi_command(MEMORY_CLASS, MEMORY_PROPERTIES));
    r.push(get_gpu_dxdiag_command());
    r
}

/// The first of a list that was had; none where the list was not had or
/// is empty.
pub open spec fn first_had<V>(list: Result<Seq<V>, ErrorView>) -> Option<V> {
    match list {
        Ok(items) => if items.len() > 0 {
            Some(items[0])
        } else {
            None
        },
        Err(_) => None,
    }
}

/// The picture without its graphics adapters.
pub open spec fn basic_picture(
    processors: Result<Seq<ProcessorView>, ErrorView>,
    boards: Result<Seq<BaseBoardView>, ErrorView>,
    modules: Result<Seq<PhysicalMemoryView>, ErrorView>,
) -> HardwareView {
    HardwareView {
        cpu_name: match first_had(processors) {
            Some(p) => p.name,
            None => None,
        },
        cpu_cores: match first_had(processors) {
            Some(p) => p.number_of_cores,
            None => None,
        },
        cpu_threads: match first_had(processors) {
            Some(p) => p.number_of_logical_processors,
            None => None,
        },
        cpu_max_speed_mhz: match first_had(processors) {
            Some(p) => p.max_clock_speed,
            None => None,
        },
        ram_total_bytes: match modules {
            Ok(list) => Some(capped(total_capacity(list))),
            Err(_) => None,
        },
        ram_modules_count: match modules {
            Ok(list) => Some(list.len() as usize),
            Err(_) => None,
        },
        motherboard_manufacturer: match first_had(boards) {
            Some(b) => b.manufacturer,
            None => None,
        },
        motherboard_product: match first_had(boards) {
            Some(b) => b.product,
            None => None,
        },
        gpus: Seq::empty(),
    }
}

/// The cards that the diagnostic report gave; none where it could not be
/// had.
pub open spec fn reported_gpus(outcome: Result<ExecutionResult, ErrorKind>) -> Seq<GpuView> {
    match dxdiag_gpus(outcome) {
        Ok(gpus) => gpus,
        Err(_) => Seq::empty(),
    }
}

/// How far the picture has come: all of it but the graphics adapters,
/// and the exclusive chain of the two ways to ask for them.
#[derive(Debug)]
pub struct HardwareSurvey {
    pub info: HardwareInfo,
    pub chain: Chain,
}

fn copy_text(o: &Option<String>) -> (r: Option<String>)
    ensures
        option_text(r) == option_text(*o),
{
    match o {
        Some(t) => Some(t.clone()),
        None => None,
    }
}

/// The picture of the hardware from the outcomes of its four commands.
/// A part that could not be had is left out. The diagnostic report is the
/// first way to ask for the graphics adapters; only where it gave none,
/// the system is asked for its video controllers.
pub fn get_hardware_info(
    processor: Result<ExecutionResult, ErrorKind>,
    board: Result<ExecutionResult, ErrorKind>,
    memory: Result<ExecutionResult, ErrorKind>,
    diagnostic: Result<ExecutionResult, ErrorKind>,
) -> (r: Step<HardwareSurvey, HardwareInfo>)
    ensures
        match r {
            Step::Run(survey, invocation) => {
                &&& reported_gpus(diagnostic).len() == 0
                &&& survey.info@ == basic_picture(
                    wmi_objects::<Processor>(processor),
                    wmi_objects::<BaseBoard>(board),
                    wmi_objects::<PhysicalMemory>(memory),
                )
                &&& survey.chain == Chain::fresh(Discipline::Exclusive, 2).observed(false)
                &&& invocation@ == powershell_bypass(VIDEO_CONTROLLERS_SCRIPT@)
            },
            Step::Done(info) => {
                &&& reported_gpus(diagnostic).len() > 0
                &&& info@ == (HardwareView {
                    gpus: reported_gpus(diagnostic),
                    ..basic_picture(
                        wmi_objects::<Processor>(processor),
                        wmi_objects::<BaseBoard>(board),
                        wmi_objects::<PhysicalMemory>(memory),
                    )
                })
            },
        },
{
    let processors = get_wmi_json::<Processor>(processor);
    let boards = get_wmi_json::<BaseBoard>(board);
    let modules = get_wmi_json::<PhysicalMemory>(memory);
    let mut info = HardwareInfo {
        cpu_name: None,
        cpu_cores: None,
        cpu_threads: None,
        cpu_max_speed_mhz: None,
        ram_total_bytes: None,
        ram_modules_count: None,
        motherboard_manufacturer: None,
        motherboard_product: None,
        gpus: Vec::new(),
    };
    assert(views(info.gpus@) =~= Seq::<GpuView>::empty());
    match &processors {
        Ok(list) => if list.len() > 0 {
            assert(views(list@)[0] == list@[0]@);
            info.cpu_name = copy_text(&list[0].name);
            info.cpu_cores = list[0].number_of_cores;
            info.cpu_threads = list[0].number_of_logical_processors;
            info.cpu_max_speed_mhz = list[0].max_clock_speed;
        },
        Err(_) => {},
    }
    match &boards {
        Ok(list) => if list.len() > 0 {
            assert(views(list@)[0] == list@[0]@);
            info.motherboard_manufacturer = copy_text(&list[0].manufacturer);
            info.motherboard_product = copy_text(&list[0].product);
        },
        Err(_) => {},
    }
    match &modules {
        Ok(list) => {
            info.ram_total_bytes = Some(sum_capacities(list));
            info.ram_modules_count = Some(list.len());
        },
        Err(_) => {},
    }
    let gpus = match get_gpu_dxdiag_response(diagnostic) {
        Ok(gpus) => gpus,
        Err(_) => {
            let none: Vec<GpuInfo> = Vec::new();
            assert(views(none@) =~= Seq::<GpuView>::empty());
            none
        },
    };
    let mut chain = Chain::new(Discipline::Exclusive, 2);
    chain.observe(gpus.len() > 0);
    match chain.next_strategy() {
        Some(_) => Step::Run(HardwareSurvey { info, chain }, get_gpu_wmi_command()),
        None => {
            info.gpus = gpus;
            Step::Done(info)
        },
    }
}

/// The picture completed with the video controllers that the system
/// reported.
pub fn get_hardware_info_finish(
    survey: HardwareSurvey,
    outcome: Result<ExecutionResult, ErrorKind>,
) -> (r: HardwareInfo)
    ensures
        r@ == (HardwareView { gpus: wmi_gpus(outcome), ..survey.info@ }),
{
    let mut info = survey.info;
    info.gpus = get_gpu_wmi_response(outcome);
    info
}

} // verus!
