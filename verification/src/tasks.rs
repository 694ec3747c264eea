//! Scheduled tasks.

use vstd::prelude::*;
use vstd::string::*;
use crate::command::{powershell, Invocation};
use crate::error::ErrorKind;
use crate::execution::ExecutionResult;
use crate::json::{JsonTree, JsonValue};
use crate::mapper::{
    acknowledge, acknowledged, coded_at, coded_field, date_at, date_field, list_records, listed,
    text_at, text_field, yields_all, yields_unit, CodeName, CodeView, Coded, CodedView, Record,
    NOT_AVAILABLE,
};
use crate::quoting::{double_quoted, quote_double};

verus! {

pub open spec fn task_state_of(code: int) -> CodeView {
    if code == 0 {
        CodeView::Known("Unknown"@)
    } else if code == 1 {
        CodeView::Known("Disabled"@)
    } else if code == 2 {
        CodeView::Known("Queued"@)
    } else if code == 3 {
        CodeView::Known("Ready"@)
    } else if code == 4 {
        CodeView::Known("Running"@)
    } else {
        CodeView::Unknown(code)
    }
}

pub fn task_state(code: i128) -> (r: CodeName)
    ensures
        r@ == task_state_of(code as int),
{
    if code == 0 {
        CodeName::Known("Unknown")
    } else if code == 1 {
        CodeName::Known("Disabled")
    } else if code == 2 {
        CodeName::Known("Queued")
    } else if code == 3 {
        CodeName::Known("Ready")
    } else if code == 4 {
        CodeName::Known("Running")
    } else {
        CodeName::Unknown(code)
    }
}

pub const TASK_CODE_PREFIX: &'static str = "Code ";

pub const NO_SUFFIX: &'static str = "";

/// The readable state of a task: its documented name, or the code after
/// the word "Code".
pub open spec fn task_state_label(code: int) -> Seq<char> {
    task_state_of(code).label(TASK_CODE_PREFIX@, NO_SUFFIX@)
}

pub fn parse_task_state(state_code: u8) -> (r: String)
    ensures
        r@ == task_state_label(state_code as int),
{
    task_state(state_code as i128).label(TASK_CODE_PREFIX, NO_SUFFIX)
}

pub const RESULT_UNREADABLE: &'static str = "Inconnu";

/// The result of a task's last run: a number as it is written, a text as
/// it is, the sentinel where there is none, and a fixed word for anything
/// else.
pub open spec fn task_result_of(value: Option<JsonTree>) -> Seq<char> {
    match value {
        None => NOT_AVAILABLE@,
        Some(JsonTree::Null) => NOT_AVAILABLE@,
        Some(JsonTree::Text(t)) => t,
        Some(JsonTree::Integer(i)) => JsonTree::Integer(i).number_text()->0,
        Some(JsonTree::Decimal(t)) => t,
        Some(_) => RESULT_UNREADABLE@,
    }
}

pub fn parse_task_result(value: Option<&JsonValue>) -> (r: String)
    ensures
        r@ == task_result_of(
            match value {
                Some(v) => Some(v@),
                None => None,
            },
        ),
{
    match value {
        None => String::from_str(NOT_AVAILABLE),
        Some(v) => match v {
            JsonValue::Null => String::from_str(NOT_AVAILABLE),
            JsonValue::Text(t) => t.clone(),
            JsonValue::Integer(_) => match v.number_text() {
                Some(t) => t,
                None => String::from_str(RESULT_UNREADABLE),
            },
            JsonValue::Decimal(t) => t.clone(),
            _ => String::from_str(RESULT_UNREADABLE),
        },
    }
}

#[derive(Debug)]
pub struct TaskInfo {
    pub name: String,
    pub path: String,
    pub state: String,
    pub last_run_time: String,
    pub next_run_time: String,
    pub last_result: String,
}

pub struct TaskView {
    pub name: Seq<char>,
    pub path: Seq<char>,
    pub state: Seq<char>,
    pub last_run_time: Seq<char>,
    pub next_run_time: Seq<char>,
    pub last_result: Seq<char>,
}

impl View for TaskInfo {
    type V = TaskView;

    open spec fn view(&self) -> TaskView {
        TaskView {
            name: self.name@,
            path: self.path@,
            state: self.state@,
            last_run_time: self.last_run_time@,
            next_run_time: self.next_run_time@,
            last_result: self.last_result@,
        }
    }
}

pub open spec fn state_label(c: CodedView) -> Seq<char> {
    match c {
        CodedView::Text(t) => t,
        CodedView::Code(code) => task_state_label(code),
    }
}

impl Record for TaskInfo {
    /// A task needs its name, its path and its state.
    open spec fn mapped(tree: JsonTree) -> Option<TaskView> {
        match (text_at(tree, "TaskName"@), text_at(tree, "TaskPath"@), coded_at(tree, "State"@)) {
            (Some(name), Some(path), Some(state)) => Some(
                TaskView {
                    name,
                    path,
                    state: state_label(state),
                    last_run_time: date_at(tree, "LastRunTime"@),
                    next_run_time: date_at(tree, "NextRunTime"@),
                    last_result: task_result_of(tree.field("LastTaskResult"@)),
                },
            ),
            _ => None,
        }
    }

    fn map(value: &JsonValue) -> (r: Option<TaskInfo>) {
        let name = text_field(value, "TaskName")?;
        let path = text_field(value, "TaskPath")?;
        let state = match coded_field(value, "State")? {
            Coded::Text(t) => t,
            Coded::Code(code) => task_state(code).label(TASK_CODE_PREFIX, NO_SUFFIX),
        };
        Some(
            TaskInfo {
                name,
                path,
                state,
                last_run_time: date_field(value, "LastRunTime"),
                next_run_time: date_field(value, "NextRunTime"),
                last_result: parse_task_result(value.get("LastTaskResult")),
            },
        )
    }
}

pub const LIST_SCHEDULED_TASKS: &'static str =
    "Get-ScheduledTask | Select-Object TaskName, TaskPath, State, @{N='LastRunTime';E={$_.LastRunTime}}, @{N='NextRunTime';E={$_.NextRunTime}}, LastTaskResult | ConvertTo-Json -Depth 3 -Compress";

pub const ENABLE_TASK: &'static str = "Enable-ScheduledTask -TaskPath ";

pub const DISABLE_TASK: &'static str = "Disable-ScheduledTask -TaskPath ";

pub const START_TASK: &'static str = "Start-ScheduledTask -TaskPath ";

pub fn list_scheduled_tasks_command() -> (r: Invocation)
    ensures
        r@ == powershell(LIST_SCHEDULED_TASKS@),
{
    Invocation::powershell(String::from_str(LIST_SCHEDULED_TASKS))
}

pub fn list_scheduled_tasks_response(outcome: Result<ExecutionResult, ErrorKind>) -> (r: Result<
    Vec<TaskInfo>,
    ErrorKind,
>)
    ensures
        yields_all(r, listed::<TaskInfo>(outcome)),
{
    list_records::<TaskInfo>(outcome)
}

/// The command that enables the tasks under `task_path`.
pub fn enable_task_command(task_path: &str) -> (r: Invocation)
    ensures
        r@ == powershell(ENABLE_TASK@ + double_quoted(task_path@)),
{
    Invocation::powershell(String::from_str(ENABLE_TASK).concat(quote_double(task_path).as_str()))
}

/// The command that disables the tasks under `task_path`.
pub fn disable_task_command(task_path: &str) -> (r: Invocation)
    ensures
        r@ == powershell(DISABLE_TASK@ + double_quoted(task_path@)),
{
    Invocation::powershell(String::from_str(DISABLE_TASK).concat(quote_double(task_path).as_str()))
}

/// The command that starts the tasks under `task_path`.
pub fn run_task_command(task_path: &str) -> (r: Invocation)
    ensures
        r@ == powershell(START_TASK@ + double_quoted(task_path@)),
{
    Invocation::powershell(String::from_str(START_TASK).concat(quote_double(task_path).as_str()))
}

/// What enabling, disabling or starting a task came to.
pub fn task_action_response(outcome: Result<ExecutionResult, ErrorKind>) -> (r: Result<
    (),
    ErrorKind,
>)
    ensures
        yields_unit(r, acknowledged(outcome)),
{
    acknowledge(outcome)
}

} // verus!
