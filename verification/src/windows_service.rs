//! Services of the operating system.

use vstd::prelude::*;
use vstd::string::*;
use crate::command::{powershell, Invocation};
use crate::error::ErrorKind;
use crate::execution::ExecutionResult;
use crate::json::{JsonTree, JsonValue};
use crate::mapper::{
    acknowledge, acknowledged, coded_at, coded_field, lenient, list_records_leniently, listed,
    text_field_or, text_or, yields_all, yields_unit, CodeName, CodeView, Coded, CodedView, Record,
};
use crate::quoting::{double_quoted, quote_double};

verus! {

pub open spec fn service_status_of(code: int) -> CodeView {
    if code == 1 {
        CodeView::Known("Stopped"@)
    } else if code == 2 {
        CodeView::Known("Starting"@)
    } else if code == 3 {
        CodeView::Known("Stopping"@)
    } else if code == 4 {
        CodeView::Known("Running"@)
    } else if code == 7 {
        CodeView::Known("Paused"@)
    } else {
        CodeView::Unknown(code)
    }
}

pub fn service_status(code: i128) -> (r: CodeName)
    ensures
        r@ == service_status_of(code as int),
{
    if code == 1 {
        CodeName::Known("Stopped")
    } else if code == 2 {
        CodeName::Known("Starting")
    } else if code == 3 {
        CodeName::Known("Stopping")
    } else if code == 4 {
        CodeName::Known("Running")
    } else if code == 7 {
        CodeName::Known("Paused")
    } else {
        CodeName::Unknown(code)
    }
}

pub open spec fn start_type_of(code: int) -> CodeView {
    if code == 1 {
        CodeView::Known("System"@)
    } else if code == 2 {
        CodeView::Known("Auto"@)
    } else if code == 3 {
        CodeView::Known("Manual"@)
    } else if code == 4 {
        CodeView::Known("Disabled"@)
    } else {
        CodeView::Unknown(code)
    }
}

pub fn start_type(code: i128) -> (r: CodeName)
    ensures
        r@ == start_type_of(code as int),
{
    if code == 1 {
        CodeName::Known("System")
    } else if code == 2 {
        CodeName::Known("Auto")
    } else if code == 3 {
        CodeName::Known("Manual")
    } else if code == 4 {
        CodeName::Known("Disabled")
    } else {
        CodeName::Unknown(code)
    }
}

pub const UNKNOWN: &'static str = "Unknown";

pub const UNKNOWN_DISPLAY_NAME: &'static str = "Unknown Display Name";

pub const UNKNOWN_OPEN: &'static str = "Unknown (";

pub const UNKNOWN_CLOSE: &'static str = ")";

#[derive(Debug)]
pub struct ServiceInfo {
    pub name: String,
    pub display_name: String,
    pub status: String,
    pub start_type: String,
}

pub struct ServiceView {
    pub name: Seq<char>,
    pub display_name: Seq<char>,
    pub status: Seq<char>,
    pub start_type: Seq<char>,
}

impl View for ServiceInfo {
    type V = ServiceView;

    open spec fn view(&self) -> ServiceView {
        ServiceView {
            name: self.name@,
            display_name: self.display_name@,
            status: self.status@,
            start_type: self.start_type@,
        }
    }
}

/// The label of a service's status: a text as it is, a code by its
/// documented name, a fixed word for anything else.
pub open spec fn status_label(c: Option<CodedView>) -> Seq<char> {
    match c {
        Some(CodedView::Text(t)) => t,
        Some(CodedView::Code(code)) => service_status_of(code).label(UNKNOWN_OPEN@, UNKNOWN_CLOSE@),
        None => UNKNOWN@,
    }
}

/// The label of the way a service is started.
pub open spec fn start_type_label(c: Option<CodedView>) -> Seq<char> {
    match c {
        Some(CodedView::Text(t)) => t,
        Some(CodedView::Code(code)) => start_type_of(code).label(UNKNOWN_OPEN@, UNKNOWN_CLOSE@),
        None => UNKNOWN@,
    }
}

impl Record for ServiceInfo {
    /// Any object is a service; each member that is missing gets its
    /// default.
    open spec fn mapped(tree: JsonTree) -> Option<ServiceView> {
        if tree is Object {
            Some(
                ServiceView {
                    name: text_or(tree, "Name"@, UNKNOWN@),
                    display_name: text_or(tree, "DisplayName"@, UNKNOWN_DISPLAY_NAME@),
                    status: status_label(coded_at(tree, "Status"@)),
                    start_type: start_type_label(coded_at(tree, "StartType"@)),
                },
            )
        } else {
            None
        }
    }

    fn map(value: &JsonValue) -> (r: Option<ServiceInfo>) {
        if !value.is_object() {
            return None;
        }
        let status = match coded_field(value, "Status") {
            Some(Coded::Text(t)) => t,
            Some(Coded::Code(code)) => service_status(code).label(UNKNOWN_OPEN, UNKNOWN_CLOSE),
            None => String::from_str(UNKNOWN),
        };
        let start = match coded_field(value, "StartType") {
            Some(Coded::Text(t)) => t,
            Some(Coded::Code(code)) => start_type(code).label(UNKNOWN_OPEN, UNKNOWN_CLOSE),
            None => String::from_str(UNKNOWN),
        };
        Some(
            ServiceInfo {
                name: text_field_or(value, "Name", UNKNOWN),
                display_name: text_field_or(value, "DisplayName", UNKNOWN_DISPLAY_NAME),
                status,
                start_type: start,
            },
        )
    }
}

/// Lists the services as JSON; an empty list where there is none.
pub const LIST_SERVICES_SCRIPT: &'static str = r#"
    try {
        $ErrorActionPreference = 'Stop'
        $services = Get-Service | Select-Object -Property Name, DisplayName, Status, StartType
        
        # Vérifier si des services ont été trouvés
        if ($null -eq $services -or $services.Count -eq 0) {
            Write-Output "[]"  # Renvoyer un tableau vide en JSON
        } else {
            # Conversion en JSON propre
            $jsonResult = $services | ConvertTo-Json -Depth 1 -Compress
            $jsonResult
        }
    } catch {
        Write-Error "Erreur PowerShell: $_"
        exit 1
    }
    "#;

pub const START_SERVICE: &'static str = "Start-Service -Name ";

pub const STOP_SERVICE: &'static str = "Stop-Service -Name ";

/// The command that lists the services.
pub fn list_services_command() -> (r: Invocation)
    ensures
        r@ == powershell(LIST_SERVICES_SCRIPT@),
{
    Invocation::powershell(String::from_str(LIST_SERVICES_SCRIPT))
}

/// The services that the command gave; output that cannot be read counts
/// as no service.
pub fn list_services_response(outcome: Result<ExecutionResult, ErrorKind>) -> (r: Result<
    Vec<ServiceInfo>,
    ErrorKind,
>)
    ensures
        yields_all(r, lenient(listed::<ServiceInfo>(outcome))),
{
    list_records_leniently::<ServiceInfo>(outcome)
}

/// The command that starts the service `service_name`.
pub fn start_service_command(service_name: &str) -> (r: Invocation)
    ensures
        r@ == powershell(START_SERVICE@ + double_quoted(service_name@)),
{
    Invocation::powershell(
        String::from_str(START_SERVICE).concat(quote_double(service_name).as_str()),
    )
}

/// The command that stops the service `service_name`.
pub fn stop_service_command(service_name: &str) -> (r: Invocation)
    ensures
        r@ == powershell(STOP_SERVICE@ + double_quoted(service_name@)),
{
    Invocation::powershell(String::from_str(STOP_SERVICE).concat(quote_double(service_name).as_str()))
}

/// What starting or stopping a service came to.
pub fn service_action_response(outcome: Result<ExecutionResult, ErrorKind>) -> (r: Result<
    (),
    ErrorKind,
>)
    ensures
        yields_unit(r, acknowledged(outcome)),
{
    acknowledge(outcome)
}

} // verus!
