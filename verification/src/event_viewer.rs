//! Entries of the event logs.

use vstd::prelude::*;
use vstd::string::*;
use crate::command::{option_text, powershell, Invocation};
use crate::error::{ErrorKind, ErrorView};
use crate::execution::ExecutionResult;
use crate::json::{JsonTree, JsonValue};
use crate::mapper::{
    acknowledge, acknowledged, date_at, date_field, integer_at, integer_field, lenient,
    list_records_leniently, listed, text_at, text_field, text_field_or, text_or, yields_all,
    yields_unit, Record,
};
use crate::quoting::{double_quoted, quote_double, quote_single, single_quoted};
use crate::text::{
    decimal, decimal_of, is_blank, same_text, signed_decimal, signed_decimal_of, text_of,
};
use crate::validate::is_named;

verus! {

#[derive(Debug)]
pub struct EventLogEntry {
    pub event_id: u32,
    pub level: String,
    pub provider_name: String,
    pub time_created: String,
    pub message: String,
}

pub struct EventLogView {
    pub event_id: u32,
    pub level: Seq<char>,
    pub provider_name: Seq<char>,
    pub time_created: Seq<char>,
    pub message: Seq<char>,
}

impl View for EventLogEntry {
    type V = EventLogView;

    open spec fn view(&self) -> EventLogView {
        EventLogView {
            event_id: self.event_id,
            level: self.level@,
            provider_name: self.provider_name@,
            time_created: self.time_created@,
            message: self.message@,
        }
    }
}

pub const UNKNOWN_LEVEL: &'static str = "Inconnu";

pub const NOTHING: &'static str = "";

impl Record for EventLogEntry {
    /// An entry needs its event identifier and the name of its provider.
    open spec fn mapped(tree: JsonTree) -> Option<EventLogView> {
        match (integer_at(tree, "Id"@, 0, u32::MAX as int), text_at(tree, "ProviderName"@)) {
            (Some(id), Some(provider_name)) => Some(
                EventLogView {
                    event_id: id as u32,
                    level: text_or(tree, "LevelDisplayName"@, UNKNOWN_LEVEL@),
                    provider_name,
                    time_created: date_at(tree, "TimeCreated"@),
                    message: text_or(tree, "Message"@, NOTHING@),
                },
            ),
            _ => None,
        }
    }

    fn map(value: &JsonValue) -> (r: Option<EventLogEntry>) {
        let id = integer_field(value, "Id", 0, 0xFFFF_FFFF)?;
        let provider_name = text_field(value, "ProviderName")?;
        Some(
            EventLogEntry {
                event_id: id as u32,
                level: text_field_or(value, "LevelDisplayName", UNKNOWN_LEVEL),
                provider_name,
                time_created: date_field(value, "TimeCreated"),
                message: text_field_or(value, "Message", NOTHING),
            },
        )
    }
}

/// The filters that narrow a query of an event log.
#[derive(Debug)]
pub struct EventQuery {
    pub log_name: String,
    pub max_events: u32,
    /// 1 critical, 2 error, 3 warning, 4 information, 5 verbose.
    pub level: Option<u8>,
    /// A part of the name of the provider.
    pub provider_name_filter: Option<String>,
    /// The identifier of the events; a negative one excludes.
    pub event_id_filter: Option<i32>,
    pub start_time: Option<String>,
    pub end_time: Option<String>,
}

pub struct EventQueryView {
    pub log_name: Seq<char>,
    pub max_events: u32,
    pub level: Option<u8>,
    pub provider_name_filter: Option<Seq<char>>,
    pub event_id_filter: Option<i32>,
    pub start_time: Option<Seq<char>>,
    pub end_time: Option<Seq<char>>,
}

impl View for EventQuery {
    type V = EventQueryView;

    open spec fn view(&self) -> EventQueryView {
        EventQueryView {
            log_name: self.log_name@,
            max_events: self.max_events,
            level: self.level,
            provider_name_filter: option_text(self.provider_name_filter),
            event_id_filter: self.event_id_filter,
            start_time: option_text(self.start_time),
            end_time: option_text(self.end_time),
        }
    }
}

pub const SECURITY_LOG: &'static str = "Security";

pub const FILTER_LOG: &'static str = "LogName=";

pub const FILTER_LEVEL: &'static str = "; Level=";

pub const FILTER_PROVIDER: &'static str = "; ProviderName=";

pub const FILTER_ID: &'static str = "; Id=";

pub const FILTER_START: &'static str = "; StartTime=";

pub const FILTER_END: &'static str = "; EndTime=";

pub const QUERY_OPEN: &'static str = "Get-WinEvent -FilterHashtable @{";

pub const QUERY_MAX: &'static str = "} -MaxEvents ";

pub const QUERY_CLOSE: &'static str =
    " -ErrorAction SilentlyContinue | Select-Object -Property Id, LevelDisplayName, ProviderName, @{Name='TimeCreated';Expression={$_.TimeCreated}}, Message | ConvertTo-Json -Depth 3 -Compress";

pub const SECURITY_OPEN: &'static str = "try { Get-WinEvent -FilterHashtable @{";

pub const SECURITY_CLOSE: &'static str =
    " -ErrorAction Stop | Select-Object -Property Id, LevelDisplayName, ProviderName, @{Name='TimeCreated';Expression={$_.TimeCreated}}, Message | ConvertTo-Json -Depth 3 -Compress } catch [System.Exception] { if ($_.Exception.Message -like '*No events were found*') { Write-Output '[]' } else { Write-Error $_.Exception.Message; exit 1 } }";

/// The part of the filter that an optional text adds, under `label`:
/// nothing where the text is absent or holds nothing. With `around` set
/// the text stands between two stars, so that it matches as a part.
pub open spec fn text_filter(label: Seq<char>, value: Option<Seq<char>>, around: bool) -> Seq<char> {
    match value {
        Some(t) => if is_blank(t) {
            Seq::empty()
        } else if around {
            label + single_quoted(seq!['*'] + t + seq!['*'])
        } else {
            label + single_quoted(t)
        },
        None => Seq::empty(),
    }
}

/// The filter of a query, as the body of a hash table.
pub open spec fn event_filter(q: EventQueryView) -> Seq<char> {
    FILTER_LOG@ + single_quoted(q.log_name) + (match q.level {
        Some(l) => FILTER_LEVEL@ + decimal(l as nat),
        None => Seq::empty(),
    }) + text_filter(FILTER_PROVIDER@, q.provider_name_filter, true) + (match q.event_id_filter {
        Some(id) => FILTER_ID@ + signed_decimal(id as int),
        None => Seq::empty(),
    }) + text_filter(FILTER_START@, q.start_time, false) + text_filter(
        FILTER_END@,
        q.end_time,
        false,
    )
}

/// The script of a query. The security log is asked in a way that turns
/// "nothing found" into an empty list inside the script; any other failure
/// leaves the script with a failing exit status.
pub open spec fn get_events_script(q: EventQueryView) -> Seq<char> {
    if q.log_name == SECURITY_LOG@ {
        SECURITY_OPEN@ + event_filter(q) + QUERY_MAX@ + decimal(q.max_events as nat)
            + SECURITY_CLOSE@
    } else {
        QUERY_OPEN@ + event_filter(q) + QUERY_MAX@ + decimal(q.max_events as nat) + QUERY_CLOSE@
    }
}

fn add_text_filter(filter: String, label: &str, value: &Option<String>, around: bool) -> (r: String)
    ensures
        r@ == filter@ + text_filter(label@, option_text(*value), around),
{
    match value {
        Some(t) => if is_named(t.as_str()) {
            let quoted = if around {
                let inner = String::from_str("*").concat(t.as_str()).concat("*");
                proof {
                    reveal_strlit("*");
                    assert("*"@ =~= seq!['*']);
                }
                quote_single(inner.as_str())
            } else {
                quote_single(t.as_str())
            };
            let r = filter.concat(label).concat(quoted.as_str());
            assert(r@ =~= filter@ + text_filter(label@, option_text(*value), around));
            r
        } else {
            assert(filter@ + Seq::<char>::empty() =~= filter@);
            filter
        },
        None => {
            assert(filter@ + Seq::<char>::empty() =~= filter@);
            filter
        },
    }
}

/// The command that queries an event log.
pub fn get_events_command(query: &EventQuery) -> (r: Invocation)
    ensures
        r@ == powershell(get_events_script(query@)),
{
    let mut filter = String::from_str(FILTER_LOG).concat(
        quote_single(query.log_name.as_str()).as_str(),
    );
    let ghost f0 = filter@;
    match query.level {
        Some(l) => {
            filter = filter.concat(FILTER_LEVEL).concat(
                text_of(&decimal_of(l as u128)).as_str(),
            );
        },
        None => {
            assert(f0 + Seq::<char>::empty() =~= f0);
        },
    }
    filter = add_text_filter(filter, FILTER_PROVIDER, &query.provider_name_filter, true);
    let ghost f2 = filter@;
    match query.event_id_filter {
        Some(id) => {
            filter = filter.concat(FILTER_ID).concat(
                text_of(&signed_decimal_of(id as i128)).as_str(),
            );
        },
        None => {
            assert(f2 + Seq::<char>::empty() =~= f2);
        },
    }
    filter = add_text_filter(filter, FILTER_START, &query.start_time, false);
    filter = add_text_filter(filter, FILTER_END, &query.end_time, false);
    assert(filter@ =~= event_filter(query@));
    let max = text_of(&decimal_of(query.max_events as u128));
    let script = if same_text(query.log_name.as_str(), SECURITY_LOG) {
        String::from_str(SECURITY_OPEN).concat(filter.as_str()).concat(QUERY_MAX).concat(
            max.as_str(),
        ).concat(SECURITY_CLOSE)
    } else {
        String::from_str(QUERY_OPEN).concat(filter.as_str()).concat(QUERY_MAX).concat(
            max.as_str(),
        ).concat(QUERY_CLOSE)
    };
    Invocation::powershell(script)
}

/// The entries that a query gave, whatever log was asked: a failure of the
/// tool is reported with what it wrote to its error stream, unless that
/// says it found nothing, which is an empty list. Output that cannot be
/// read counts as no entry.
pub fn get_events_response(outcome: Result<ExecutionResult, ErrorKind>) -> (r: Result<
    Vec<EventLogEntry>,
    ErrorKind,
>)
    ensures
        yields_all(r, lenient(listed::<EventLogEntry>(outcome))),
{
    list_records_leniently::<EventLogEntry>(outcome)
}

pub const CLEAR_LOG: &'static str = "Clear-EventLog -LogName ";

pub const NO_LOG_NAME: &'static str = "Nom de journal invalide";

/// The command that clears an event log; a name that holds nothing is
/// refused.
pub fn clear_event_log_command(log_name: &str) -> (r: Result<Invocation, ErrorKind>)
    ensures
        match r {
            Ok(invocation) => !is_blank(log_name@) && invocation@ == powershell(
                CLEAR_LOG@ + double_quoted(log_name@),
            ),
            Err(e) => is_blank(log_name@) && e@ == (ErrorView::InvalidArgument {
                detail: NO_LOG_NAME@,
            }),
        },
{
    if !is_named(log_name) {
        return Err(ErrorKind::invalid_argument(NO_LOG_NAME));
    }
    Ok(Invocation::powershell(String::from_str(CLEAR_LOG).concat(quote_double(log_name).as_str())))
}

/// What clearing an event log came to.
pub fn clear_event_log_response(outcome: Result<ExecutionResult, ErrorKind>) -> (r: Result<
    (),
    ErrorKind,
>)
    ensures
        yields_unit(r, acknowledged(outcome)),
{
    acknowledge(outcome)
}

} // verus!
