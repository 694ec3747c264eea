//! Restore points of the system.

use vstd::prelude::*;
use vstd::string::*;
use crate::command::{powershell, Invocation};
use crate::error::{ErrorKind, ErrorView};
use crate::execution::ExecutionResult;
use crate::json::{JsonTree, JsonValue};
use crate::mapper::{
    acknowledge, acknowledged, coded_at, coded_field, date_at, date_field, integer_at,
    integer_field, list_records, listed, text_at, text_field, yields_all, yields_unit, CodeName,
    CodeView, Coded, CodedView, Record,
};
use crate::quoting::{double_quoted, quote_double};
use crate::text::is_blank;
use crate::validate::is_named;

verus! {

pub open spec fn restore_point_type_of(code: int) -> CodeView {
    if code == 0 {
        CodeView::Known("APPLICATION_INSTALL"@)
    } else if code == 1 {
        CodeView::Known("APPLICATION_UNINSTALL"@)
    } else if code == 12 {
        CodeView::Known("SYSTEM"@)
    } else if code == 13 {
        CodeView::Known("DEVICE_DRIVER_INSTALL"@)
    } else {
        CodeView::Unknown(code)
    }
}

pub fn restore_point_type(code: i128) -> (r: CodeName)
    ensures
        r@ == restore_point_type_of(code as int),
{
    if code == 0 {
        CodeName::Known("APPLICATION_INSTALL")
    } else if code == 1 {
        CodeName::Known("APPLICATION_UNINSTALL")
    } else if code == 12 {
        CodeName::Known("SYSTEM")
    } else if code == 13 {
        CodeName::Known("DEVICE_DRIVER_INSTALL")
    } else {
        CodeName::Unknown(code)
    }
}

pub const UNKNOWN_OPEN: &'static str = "Inconnu (";

pub const UNKNOWN_CLOSE: &'static str = ")";

#[derive(Debug)]
pub struct RestorePointInfo {
    pub sequence_number: u32,
    pub description: String,
    pub restore_point_type: String,
    pub creation_time: String,
}

pub struct RestorePointView {
    pub sequence_number: u32,
    pub description: Seq<char>,
    pub restore_point_type: Seq<char>,
    pub creation_time: Seq<char>,
}

impl View for RestorePointInfo {
    type V = RestorePointView;

    open spec fn view(&self) -> RestorePointView {
        RestorePointView {
            sequence_number: self.sequence_number,
            description: self.description@,
            restore_point_type: self.restore_point_type@,
            creation_time: self.creation_time@,
        }
    }
}

/// The label of the type of a restore point.
pub open spec fn type_label(c: CodedView) -> Seq<char> {
    match c {
        CodedView::Text(t) => t,
        CodedView::Code(code) => restore_point_type_of(code).label(UNKNOWN_OPEN@, UNKNOWN_CLOSE@),
    }
}

impl Record for RestorePointInfo {
    /// A restore point needs its sequence number, its description and its
    /// type.
    open spec fn mapped(tree: JsonTree) -> Option<RestorePointView> {
        match (
            integer_at(tree, "SequenceNumber"@, 0, u32::MAX as int),
            text_at(tree, "Description"@),
            coded_at(tree, "RestorePointType"@),
        ) {
            (Some(number), Some(description), Some(kind)) => Some(
                RestorePointView {
                    sequence_number: number as u32,
                    description,
                    restore_point_type: type_label(kind),
                    creation_time: date_at(tree, "CreationTime"@),
                },
            ),
            _ => None,
        }
    }

    fn map(value: &JsonValue) -> (r: Option<RestorePointInfo>) {
        let number = integer_field(value, "SequenceNumber", 0, 0xFFFF_FFFF)?;
        let description = text_field(value, "Description")?;
        let kind = match coded_field(value, "RestorePointType")? {
            Coded::Text(t) => t,
            Coded::Code(code) => restore_point_type(code).label(UNKNOWN_OPEN, UNKNOWN_CLOSE),
        };
        Some(
            RestorePointInfo {
                sequence_number: number as u32,
                description,
                restore_point_type: kind,
                creation_time: date_field(value, "CreationTime"),
            },
        )
    }
}

pub const LIST_RESTORE_POINTS: &'static str =
    "Get-ComputerRestorePoint | Select-Object SequenceNumber, Description, RestorePointType, CreationTime | ConvertTo-Json -Depth 3 -Compress";

pub const CHECKPOINT_OPEN: &'static str = "Checkpoint-Computer -Description ";

pub const CHECKPOINT_CLOSE: &'static str = " -RestorePointType MODIFY_SETTINGS";

pub const NO_DESCRIPTION: &'static str = "La description ne peut pas être vide.";

/// The command that lists the restore points.
pub fn list_restore_points_command() -> (r: Invocation)
    ensures
        r@ == powershell(LIST_RESTORE_POINTS@),
{
    Invocation::powershell(String::from_str(LIST_RESTORE_POINTS))
}

/// The restore points that the command gave.
pub fn list_restore_points_response(outcome: Result<ExecutionResult, ErrorKind>) -> (r: Result<
    Vec<RestorePointInfo>,
    ErrorKind,
>)
    ensures
        yields_all(r, listed::<RestorePointInfo>(outcome)),
{
    list_records::<RestorePointInfo>(outcome)
}

/// The script that creates a restore point with the given description.
pub open spec fn create_restore_point_script(description: Seq<char>) -> Seq<char> {
    CHECKPOINT_OPEN@ + double_quoted(description) + CHECKPOINT_CLOSE@
}

/// The command that creates a restore point; a description that holds
/// nothing is refused.
pub fn create_restore_point_command(description: &str) -> (r: Result<Invocation, ErrorKind>)
    ensures
        match r {
            Ok(invocation) => !is_blank(description@) && invocation@ == powershell(
                create_restore_point_script(description@),
            ),
            Err(e) => is_blank(description@) && e@ == (ErrorView::InvalidArgument {
                detail: NO_DESCRIPTION@,
            }),
        },
{
    if !is_named(description) {
        return Err(ErrorKind::invalid_argument(NO_DESCRIPTION));
    }
    Ok(
        Invocation::powershell(
            String::from_str(CHECKPOINT_OPEN).concat(quote_double(description).as_str()).concat(
                CHECKPOINT_CLOSE,
            ),
        ),
    )
}

/// What creating a restore point came to.
pub fn create_restore_point_response(outcome: Result<ExecutionResult, ErrorKind>) -> (r: Result<
    (),
    ErrorKind,
>)
    ensures
        yields_unit(r, acknowledged(outcome)),
{
    acknowledge(outcome)
}

} // verus!
