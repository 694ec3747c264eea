//! Devices of the machine.

use vstd::prelude::*;
use vstd::string::*;
use crate::command::{powershell, Invocation};
use crate::error::ErrorKind;
use crate::execution::ExecutionResult;
use crate::json::{JsonTree, JsonValue};
use crate::mapper::{
    acknowledge, acknowledged, first_text_at, first_text_field, list_records, listed, text_at,
    text_field, text_field_or, text_or, yields_all, yields_unit, Record,
};
use crate::quoting::{double_quoted, quote_double};
use crate::text::views;

verus! {

#[derive(Debug)]
pub struct DeviceInfo {
    pub instance_id: String,
    pub name: String,
    pub class: String,
    pub manufacturer: String,
    pub status: String,
}

pub struct DeviceView {
    pub instance_id: Seq<char>,
    pub name: Seq<char>,
    pub class: Seq<char>,
    pub manufacturer: Seq<char>,
    pub status: Seq<char>,
}

impl View for DeviceInfo {
    type V = DeviceView;

    open spec fn view(&self) -> DeviceView {
        DeviceView {
            instance_id: self.instance_id@,
            name: self.name@,
            class: self.class@,
            manufacturer: self.manufacturer@,
            status: self.status@,
        }
    }
}

pub const UNKNOWN_DEVICE: &'static str = "(Inconnu)";

pub const NOTHING: &'static str = "";

impl Record for DeviceInfo {
    /// A device needs its instance identifier, under either spelling of
    /// the member's name, and its status.
    open spec fn mapped(tree: JsonTree) -> Option<DeviceView> {
        match (first_text_at(tree, seq!["InstanceId"@, "InstanceID"@]), text_at(tree, "Status"@)) {
            (Some(instance_id), Some(status)) => Some(
                DeviceView {
                    instance_id,
                    name: text_or(tree, "FriendlyName"@, UNKNOWN_DEVICE@),
                    class: text_or(tree, "Class"@, NOTHING@),
                    manufacturer: text_or(tree, "Manufacturer"@, NOTHING@),
                    status,
                },
            ),
            _ => None,
        }
    }

    fn map(value: &JsonValue) -> (r: Option<DeviceInfo>) {
        let names = ["InstanceId", "InstanceID"];
        assert(views(names@) =~= seq!["InstanceId"@, "InstanceID"@]);
        let instance_id = first_text_field(value, &names)?;
        let status = text_field(value, "Status")?;
        Some(
            DeviceInfo {
                instance_id,
                name: text_field_or(value, "FriendlyName", UNKNOWN_DEVICE),
                class: text_field_or(value, "Class", NOTHING),
                manufacturer: text_field_or(value, "Manufacturer", NOTHING),
                status,
            },
        )
    }
}

pub const LIST_DEVICES: &'static str =
    "Get-PnpDevice -Class 'Display','Net','USB','AudioEndpoint','Image','PrintQueue','DiskDrive','Media','Bluetooth' | Select-Object InstanceID, FriendlyName, Class, Manufacturer, Status | ConvertTo-Json -Compress";

pub const ENABLE_DEVICE: &'static str = "Enable-PnpDevice -InstanceId ";

pub const DISABLE_DEVICE: &'static str = "Disable-PnpDevice -InstanceId ";

pub const WITHOUT_ASKING: &'static str = " -Confirm:$false";

/// The command that lists the devices of the classes of interest.
pub fn list_devices_command() -> (r: Invocation)
    ensures
        r@ == powershell(LIST_DEVICES@),
{
    Invocation::powershell(String::from_str(LIST_DEVICES))
}

/// The devices that the command gave.
pub fn list_devices_response(outcome: Result<ExecutionResult, ErrorKind>) -> (r: Result<
    Vec<DeviceInfo>,
    ErrorKind,
>)
    ensures
        yields_all(r, listed::<DeviceInfo>(outcome)),
{
    list_records::<DeviceInfo>(outcome)
}

/// The command that enables the device `instance_id`.
pub fn enable_device_command(instance_id: &str) -> (r: Invocation)
    ensures
        r@ == powershell(ENABLE_DEVICE@ + double_quoted(instance_id@) + WITHOUT_ASKING@),
{
    Invocation::powershell(
        String::from_str(ENABLE_DEVICE).concat(quote_double(instance_id).as_str()).concat(
            WITHOUT_ASKING,
        ),
    )
}

/// The command that disables the device `instance_id`.
pub fn disable_device_command(instance_id: &str) -> (r: Invocation)
    ensures
        r@ == powershell(DISABLE_DEVICE@ + double_quoted(instance_id@) + WITHOUT_ASKING@),
{
    Invocation::powershell(
        String::from_str(DISABLE_DEVICE).concat(quote_double(instance_id).as_str()).concat(
            WITHOUT_ASKING,
        ),
    )
}

/// What enabling or disabling a device came to.
pub fn device_action_response(outcome: Result<ExecutionResult, ErrorKind>) -> (r: Result<
    (),
    ErrorKind,
>)
    ensures
        yields_unit(r, acknowledged(outcome)),
{
    acknowledge(outcome)
}

} // verus!
