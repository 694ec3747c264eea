//! Command templates by the name of their operation: the one entry point
//! that builds the invocation of any operation that is a single run of a
//! tool, from parameters given by name.

use vstd::prelude::*;
use vstd::string::*;
use crate::active_directory::{
    identity_command, search_script, DISABLE_ACCOUNT, ENABLE_ACCOUNT, FIND_COMPUTERS, FIND_GROUPS,
    FIND_USERS, GROUP_MEMBERS, MEMBERSHIP, NOTHING, OR_ACCOUNT, OR_HOST, RESET_FLAG,
    RESET_PASSWORD, SELECT_COMPUTERS, SELECT_GROUPS, SELECT_MEMBERS, SELECT_MEMBERSHIP,
    SELECT_USERS, UNLOCK_ACCOUNT,
};
use crate::command::{
    builds, native, option_text, powershell, powershell_bypass, Invocation, InvocationView,
};
use crate::disks::{format_script};
use crate::error::{ErrorKind, ErrorView};
use crate::event_viewer::{get_events_command, get_events_script, EventQuery, EventQueryView};
use crate::json::{JsonTree, JsonValue};
use crate::mapper::{integer_at, integer_field, text_at, text_field};
use crate::quoting::double_quoted;
use crate::text::{decimal, is_blank, same_text};
use crate::users::add_local_user_script;
use crate::validate::{drive_letter_of, file_system_of};

verus! {

pub const BAD_PARAMETER: &'static str = "paramètre manquant ou invalide: ";

/// The failure to report for the parameter `name`.
pub open spec fn bad_parameter(name: Seq<char>) -> ErrorView {
    ErrorView::InvalidArgument { detail: BAD_PARAMETER@ + name }
}

/// The text that is given for the parameter `name`.
pub open spec fn text_parameter(params: JsonTree, name: Seq<char>) -> Result<Seq<char>, ErrorView> {
    match text_at(params, name) {
        Some(t) => Ok(t),
        None => Err(bad_parameter(name)),
    }
}

/// The text that is given for the parameter `name`, where one is given;
/// a parameter that is there and is no text is refused.
pub open spec fn optional_text_parameter(params: JsonTree, name: Seq<char>) -> Result<
    Option<Seq<char>>,
    ErrorView,
> {
    match params.field(name) {
        None => Ok(None),
        Some(JsonTree::Null) => Ok(None),
        Some(JsonTree::Text(t)) => Ok(Some(t)),
        Some(_) => Err(bad_parameter(name)),
    }
}

/// The number between `low` and `high` that is given for the parameter
/// `name`.
pub open spec fn number_parameter(params: JsonTree, name: Seq<char>, low: int, high: int) -> Result<
    int,
    ErrorView,
> {
    match integer_at(params, name, low, high) {
        Some(n) => Ok(n),
        None => Err(bad_parameter(name)),
    }
}

/// The number between `low` and `high` that is given for the parameter
/// `name`, where one is given.
pub open spec fn optional_number_parameter(
    params: JsonTree,
    name: Seq<char>,
    low: int,
    high: int,
) -> Result<Option<int>, ErrorView> {
    match params.field(name) {
        None => Ok(None),
        Some(JsonTree::Null) => Ok(None),
        Some(JsonTree::Integer(n)) => if low <= n <= high {
            Ok(Some(n))
        } else {
            Err(bad_parameter(name))
        },
        Some(_) => Err(bad_parameter(name)),
    }
}

fn parameter_error(name: &str) -> (e: ErrorKind)
    ensures
        e@ == bad_parameter(name@),
{
    ErrorKind::InvalidArgument { detail: String::from_str(BAD_PARAMETER).concat(name) }
}

fn read_text_parameter(params: &JsonValue, name: &str) -> (r: Result<String, ErrorKind>)
    ensures
        match r {
            Ok(t) => text_parameter(params@, name@) == Ok::<Seq<char>, ErrorView>(t@),
            Err(e) => text_parameter(params@, name@) == Err::<Seq<char>, ErrorView>(e@),
        },
{
    match text_field(params, name) {
        Some(t) => Ok(t),
        None => Err(parameter_error(name)),
    }
}

fn read_optional_text_parameter(params: &JsonValue, name: &str) -> (r: Result<
    Option<String>,
    ErrorKind,
>)
    ensures
        match r {
            Ok(t) => optional_text_parameter(params@, name@) == Ok::<Option<Seq<char>>, ErrorView>(
                option_text(t),
            ),
            Err(e) => optional_text_parameter(params@, name@) == Err::<
                Option<Seq<char>>,
                ErrorView,
            >(e@),
        },
{
    match params.get(name) {
        None => Ok(None),
        Some(v) => match v {
            JsonValue::Null => Ok(None),
            JsonValue::Text(t) => Ok(Some(t.clone())),
            _ => Err(parameter_error(name)),
        },
    }
}

fn read_number_parameter(params: &JsonValue, name: &str, low: i128, high: i128) -> (r: Result<
    i128,
    ErrorKind,
>)
    ensures
        match r {
            Ok(n) => number_parameter(params@, name@, low as int, high as int) == Ok::<
                int,
                ErrorView,
            >(n as int) && low <= n <= high,
            Err(e) => number_parameter(params@, name@, low as int, high as int) == Err::<
                int,
                ErrorView,
            >(e@),
        },
{
    match integer_field(params, name, low, high) {
        Some(n) => Ok(n),
        None => Err(parameter_error(name)),
    }
}

fn read_optional_number_parameter(params: &JsonValue, name: &str, low: i128, high: i128) -> (r:
    Result<Option<i128>, ErrorKind>)
    ensures
        match r {
            Ok(Some(n)) => optional_number_parameter(params@, name@, low as int, high as int)
                == Ok::<Option<int>, ErrorView>(Some(n as int)) && low <= n <= high,
            Ok(None) => optional_number_parameter(params@, name@, low as int, high as int) == Ok::<
                Option<int>,
                ErrorView,
            >(None),
            Err(e) => optional_number_parameter(params@, name@, low as int, high as int) == Err::<
                Option<int>,
                ErrorView,
            >(e@),
        },
{
    match params.get(name) {
        None => Ok(None),
        Some(v) => match v {
            JsonValue::Null => Ok(None),
            JsonValue::Integer(n) => if low <= *n && *n <= high {
                Ok(Some(*n))
            } else {
                Err(parameter_error(name))
            },
            _ => Err(parameter_error(name)),
        },
    }
}

// ---------------------------------------------------------------------------
// Templates without parameters
// ---------------------------------------------------------------------------

/// The invocation of an operation that takes no parameter; `None` where
/// the name is that of no such operation.
pub open spec fn plain_template(operation: Seq<char>) -> Option<InvocationView> {
    if operation == "list_firewall_rules"@ {
        Some(powershell(crate::security::LIST_FIREWALL_RULES@))
    } else if operation == "get_antivirus_status"@ {
        Some(powershell(crate::security::GET_ANTIVIRUS_STATUS@))
    } else if operation == "list_scheduled_tasks"@ {
        Some(powershell(crate::tasks::LIST_SCHEDULED_TASKS@))
    } else if operation == "list_restore_points"@ {
        Some(powershell(crate::backup::LIST_RESTORE_POINTS@))
    } else if operation == "list_devices"@ {
        Some(powershell(crate::devices::LIST_DEVICES@))
    } else if operation == "list_services"@ {
        Some(powershell(crate::windows_service::LIST_SERVICES_SCRIPT@))
    } else if operation == "list_local_users"@ {
        Some(powershell(crate::users::LIST_LOCAL_USERS@))
    } else if operation == "list_local_groups"@ {
        Some(powershell(crate::users::LIST_LOCAL_GROUPS@))
    } else if operation == "list_processes"@ {
        Some(powershell(crate::system::LIST_PROCESSES_SCRIPT@))
    } else if operation == "restart_computer"@ {
        Some(
            native(
                crate::system::SHUTDOWN@,
                seq![
                    crate::system::RESTART_FLAG@,
                    crate::system::DELAY_FLAG@,
                    crate::system::NO_DELAY@,
                    crate::system::FORCE_FLAG@,
                ],
            ),
        )
    } else if operation == "shutdown_computer"@ {
        Some(
            native(
                crate::system::SHUTDOWN@,
                seq![
                    crate::system::HALT_FLAG@,
                    crate::system::DELAY_FLAG@,
                    crate::system::NO_DELAY@,
                    crate::system::FORCE_FLAG@,
                ],
            ),
        )
    } else if operation == "analyze_recycle_bin"@ {
        Some(powershell(crate::disks::MEASURE_RECYCLE_BIN@))
    } else if operation == "clear_recycle_bin"@ {
        Some(powershell(crate::disks::CLEAR_RECYCLE_BIN@))
    } else if operation == "force_gp_update"@ {
        Some(native(crate::active_directory::GPUPDATE@, seq![crate::active_directory::FORCE@]))
    } else if operation == "install_defender_updates"@ {
        Some(powershell_bypass(crate::updates::UPDATE_DEFINITIONS@))
    } else {
        None
    }
}

fn build_plain(operation: &str) -> (r: Option<Invocation>)
    ensures
        match r {
            Some(invocation) => plain_template(operation@) == Some(invocation@),
            None => plain_template(operation@) is None,
        },
{
    if same_text(operation, "list_firewall_rules") {
        Some(crate::security::list_firewall_rules_command())
    } else if same_text(operation, "get_antivirus_status") {
        Some(crate::security::get_antivirus_status_command())
    } else if same_text(operation, "list_scheduled_tasks") {
        Some(crate::tasks::list_scheduled_tasks_command())
    } else if same_text(operation, "list_restore_points") {
        Some(crate::backup::list_restore_points_command())
    } else if same_text(operation, "list_devices") {
        Some(crate::devices::list_devices_command())
    } else if same_text(operation, "list_services") {
        Some(crate::windows_service::list_services_command())
    } else if same_text(operation, "list_local_users") {
        Some(crate::users::list_local_users_command())
    } else if same_text(operation, "list_local_groups") {
        Some(crate::users::list_local_groups_command())
    } else if same_text(operation, "list_processes") {
        Some(crate::system::list_processes_command())
    } else if same_text(operation, "restart_computer") {
        Some(crate::system::restart_computer_command())
    } else if same_text(operation, "shutdown_computer") {
        Some(crate::system::shutdown_computer_command())
    } else if same_text(operation, "analyze_recycle_bin") {
        Some(crate::disks::analyze_recycle_bin_command())
    } else if same_text(operation, "clear_recycle_bin") {
        Some(crate::disks::clear_recycle_bin_command())
    } else if same_text(operation, "force_gp_update") {
        Some(crate::active_directory::force_gp_update_command())
    } else if same_text(operation, "install_defender_updates") {
        Some(crate::updates::install_defender_updates_command())
    } else {
        None
    }
}

// ---------------------------------------------------------------------------
// Templates with one text
// ---------------------------------------------------------------------------

/// The invocation of an operation that takes one text, or the refusal of
/// what is given for it; `None` where the name is that of no such
/// operation.
pub open spec fn text_template(operation: Seq<char>, params: JsonTree) -> Option<
    Result<InvocationView, ErrorView>,
> {
    if operation == "enable_task"@ {
        Some(
            match text_parameter(params, "task_path"@) {
                Err(e) => Err(e),
                Ok(p) => Ok(powershell(crate::tasks::ENABLE_TASK@ + double_quoted(p))),
            },
        )
    } else if operation == "disable_task"@ {
        Some(
            match text_parameter(params, "task_path"@) {
                Err(e) => Err(e),
                Ok(p) => Ok(powershell(crate::tasks::DISABLE_TASK@ + double_quoted(p))),
            },
        )
    } else if operation == "run_task"@ {
        Some(
            match text_parameter(params, "task_path"@) {
                Err(e) => Err(e),
                Ok(p) => Ok(powershell(crate::tasks::START_TASK@ + double_quoted(p))),
            },
        )
    } else if operation == "create_restore_point"@ {
        Some(
            match text_parameter(params, "description"@) {
                Err(e) => Err(e),
                Ok(p) => if is_blank(p) {
                    Err(ErrorView::InvalidArgument { detail: crate::backup::NO_DESCRIPTION@ })
                } else {
                    Ok(powershell(crate::backup::create_restore_point_script(p)))
                },
            },
        )
    } else if operation == "enable_device"@ {
        Some(
            match text_parameter(params, "instance_id"@) {
                Err(e) => Err(e),
                Ok(p) => Ok(
                    powershell(
                        crate::devices::ENABLE_DEVICE@ + double_quoted(p)
                            + crate::devices::WITHOUT_ASKING@,
                    ),
                ),
            },
        )
    } else if operation == "disable_device"@ {
        Some(
            match text_parameter(params, "instance_id"@) {
                Err(e) => Err(e),
                Ok(p) => Ok(
                    powershell(
                        crate::devices::DISABLE_DEVICE@ + double_quoted(p)
                            + crate::devices::WITHOUT_ASKING@,
                    ),
                ),
            },
        )
    } else if operation == "start_service"@ {
        Some(
            match text_parameter(params, "service_name"@) {
                Err(e) => Err(e),
                Ok(p) => Ok(powershell(crate::windows_service::START_SERVICE@ + double_quoted(p))),
            },
        )
    } else if operation == "stop_service"@ {
        Some(
            match text_parameter(params, "service_name"@) {
                Err(e) => Err(e),
                Ok(p) => Ok(powershell(crate::windows_service::STOP_SERVICE@ + double_quoted(p))),
            },
        )
    } else if operation == "delete_local_user"@ {
        Some(
            match text_parameter(params, "user_name"@) {
                Err(e) => Err(e),
                Ok(p) => Ok(powershell(crate::users::REMOVE_USER@ + double_quoted(p))),
            },
        )
    } else if operation == "clear_event_log"@ {
        Some(
            match text_parameter(params, "log_name"@) {
                Err(e) => Err(e),
                Ok(p) => if is_blank(p) {
                    Err(ErrorView::InvalidArgument { detail: crate::event_viewer::NO_LOG_NAME@ })
                } else {
                    Ok(powershell(crate::event_viewer::CLEAR_LOG@ + double_quoted(p)))
                },
            },
        )
    } else if operation == "optimize_volume"@ {
        Some(
            match text_parameter(params, "drive_letter"@) {
                Err(e) => Err(e),
                Ok(p) => match drive_letter_of(p) {
                    Some(letter) => Ok(
                        powershell(
                            crate::disks::OPTIMIZE_OPEN@ + seq![letter]
                                + crate::disks::OPTIMIZE_CLOSE@,
                        ),
                    ),
                    None => Err(ErrorView::InvalidArgument { detail: crate::disks::BAD_LETTER@ }),
                },
            },
        )
    } else if operation == "search_ad_users"@ {
        Some(
            match text_parameter(params, "filter"@) {
                Err(e) => Err(e),
                Ok(p) => Ok(
                    powershell(search_script(FIND_USERS@, OR_ACCOUNT@, SELECT_USERS@, p)),
                ),
            },
        )
    } else if operation == "search_ad_computers"@ {
        Some(
            match text_parameter(params, "filter"@) {
                Err(e) => Err(e),
                Ok(p) => Ok(
                    powershell(
                        search_script(FIND_COMPUTERS@, OR_HOST@, SELECT_COMPUTERS@, p),
                    ),
                ),
            },
        )
    } else if operation == "search_ad_groups"@ {
        Some(
            match text_parameter(params, "filter"@) {
                Err(e) => Err(e),
                Ok(p) => Ok(
                    powershell(search_script(FIND_GROUPS@, OR_ACCOUNT@, SELECT_GROUPS@, p)),
                ),
            },
        )
    } else if operation == "get_ad_group_members"@ {
        Some(
            match text_parameter(params, "group_identity"@) {
                Err(e) => Err(e),
                Ok(p) => identity_command(GROUP_MEMBERS@, SELECT_MEMBERS@, p),
            },
        )
    } else if operation == "get_ad_principal_group_membership"@ {
        Some(
            match text_parameter(params, "principal_identity"@) {
                Err(e) => Err(e),
                Ok(p) => identity_command(MEMBERSHIP@, SELECT_MEMBERSHIP@, p),
            },
        )
    } else if operation == "enable_ad_account"@ {
        Some(
            match text_parameter(params, "account_identity"@) {
                Err(e) => Err(e),
                Ok(p) => identity_command(ENABLE_ACCOUNT@, NOTHING@, p),
            },
        )
    } else if operation == "disable_ad_account"@ {
        Some(
            match text_parameter(params, "account_identity"@) {
                Err(e) => Err(e),
                Ok(p) => identity_command(DISABLE_ACCOUNT@, NOTHING@, p),
            },
        )
    } else if operation == "unlock_ad_account"@ {
        Some(
            match text_parameter(params, "account_identity"@) {
                Err(e) => Err(e),
                Ok(p) => identity_command(UNLOCK_ACCOUNT@, NOTHING@, p),
            },
        )
    } else if operation == "reset_ad_account_password"@ {
        Some(
            match text_parameter(params, "account_identity"@) {
                Err(e) => Err(e),
                Ok(p) => identity_command(RESET_PASSWORD@, RESET_FLAG@, p),
            },
        )
    } else {
        None
    }
}

fn build_with_text(operation: &str, params: &JsonValue) -> (r: Option<Result<Invocation, ErrorKind>>)
    ensures
        match r {
            Some(built) => text_template(operation@, params@) matches Some(expected) && builds(
                built,
                expected,
            ),
            None => text_template(operation@, params@) is None,
        },
{
    if same_text(operation, "enable_task") {
        Some(
            match read_text_parameter(params, "task_path") {
                Err(e) => Err(e),
                Ok(p) => Ok(crate::tasks::enable_task_command(p.as_str())),
            },
        )
    } else if same_text(operation, "disable_task") {
        Some(
            match read_text_parameter(params, "task_path") {
                Err(e) => Err(e),
                Ok(p) => Ok(crate::tasks::disable_task_command(p.as_str())),
            },
        )
    } else if same_text(operation, "run_task") {
        Some(
            match read_text_parameter(params, "task_path") {
                Err(e) => Err(e),
                Ok(p) => Ok(crate::tasks::run_task_command(p.as_str())),
            },
        )
    } else if same_text(operation, "create_restore_point") {
        Some(
            match read_text_parameter(params, "description") {
                Err(e) => Err(e),
                Ok(p) => crate::backup::create_restore_point_command(p.as_str()),
            },
        )
    } else if same_text(operation, "enable_device") {
        Some(
            match read_text_parameter(params, "instance_id") {
                Err(e) => Err(e),
                Ok(p) => Ok(crate::devices::enable_device_command(p.as_str())),
            },
        )
    } else if same_text(operation, "disable_device") {
        Some(
            match read_text_parameter(params, "instance_id") {
                Err(e) => Err(e),
                Ok(p) => Ok(crate::devices::disable_device_command(p.as_str())),
            },
        )
    } else if same_text(operation, "start_service") {
        Some(
            match read_text_parameter(params, "service_name") {
                Err(e) => Err(e),
                Ok(p) => Ok(crate::windows_service::start_service_command(p.as_str())),
            },
        )
    } else if same_text(operation, "stop_service") {
        Some(
            match read_text_parameter(params, "service_name") {
                Err(e) => Err(e),
                Ok(p) => Ok(crate::windows_service::stop_service_command(p.as_str())),
            },
        )
    } else if same_text(operation, "delete_local_user") {
        Some(
            match read_text_parameter(params, "user_name") {
                Err(e) => Err(e),
                Ok(p) => Ok(crate::users::delete_local_user_command(p.as_str())),
            },
        )
    } else if same_text(operation, "clear_event_log") {
        Some(
            match read_text_parameter(params, "log_name") {
                Err(e) => Err(e),
                Ok(p) => crate::event_viewer::clear_event_log_command(p.as_str()),
            },
        )
    } else if same_text(operation, "optimize_volume") {
        Some(
            match read_text_parameter(params, "drive_letter") {
                Err(e) => Err(e),
                Ok(p) => crate::disks::optimize_volume_command(p.as_str()),
            },
        )
    } else if same_text(operation, "search_ad_users") {
        Some(
            match read_text_parameter(params, "filter") {
                Err(e) => Err(e),
                Ok(p) => Ok(crate::active_directory::search_ad_users_command(p.as_str())),
            },
        )
    } else if same_text(operation, "search_ad_computers") {
        Some(
            match read_text_parameter(params, "filter") {
                Err(e) => Err(e),
                Ok(p) => Ok(crate::active_directory::search_ad_computers_command(p.as_str())),
            },
        )
    } else if same_text(operation, "search_ad_groups") {
        Some(
            match read_text_parameter(params, "filter") {
                Err(e) => Err(e),
                Ok(p) => Ok(crate::active_directory::search_ad_groups_command(p.as_str())),
            },
        )
    } else if same_text(operation, "get_ad_group_members") {
        Some(
            match read_text_parameter(params, "group_identity") {
                Err(e) => Err(e),
                Ok(p) => crate::active_directory::get_ad_group_members_command(p.as_str()),
            },
        )
    } else if same_text(operation, "get_ad_principal_group_membership") {
        Some(
            match read_text_parameter(params, "principal_identity") {
                Err(e) => Err(e),
                Ok(p) => crate::active_directory::get_ad_principal_group_membership_command(p.as_str()),
            },
        )
    } else if same_text(operation, "enable_ad_account") {
        Some(
            match read_text_parameter(params, "account_identity") {
                Err(e) => Err(e),
                Ok(p) => crate::active_directory::enable_ad_account_command(p.as_str()),
            },
        )
    } else if same_text(operation, "disable_ad_account") {
        Some(
            match read_text_parameter(params, "account_identity") {
                Err(e) => Err(e),
                Ok(p) => crate::active_directory::disable_ad_account_command(p.as_str()),
            },
        )
    } else if same_text(operation, "unlock_ad_account") {
        Some(
            match read_text_parameter(params, "account_identity") {
                Err(e) => Err(e),
                Ok(p) => crate::active_directory::unlock_ad_account_command(p.as_str()),
            },
        )
    } else if same_text(operation, "reset_ad_account_password") {
        Some(
            match read_text_parameter(params, "account_identity") {
                Err(e) => Err(e),
                Ok(p) => crate::active_directory::reset_ad_account_password_command(p.as_str()),
            },
        )
    } else {
        None
    }
}

// ---------------------------------------------------------------------------
// Templates with several parameters
// ---------------------------------------------------------------------------

/// The query of an event log that the parameters describe.
pub open spec fn event_query(params: JsonTree) -> Result<EventQueryView, ErrorView> {
    match (
        text_parameter(params, "log_name"@),
        number_parameter(params, "max_events"@, 0, u32::MAX as int),
        optional_number_parameter(params, "level"@, 0, u8::MAX as int),
        optional_text_parameter(params, "provider_name_filter"@),
        optional_number_parameter(params, "event_id_filter"@, i32::MIN as int, i32::MAX as int),
        optional_text_parameter(params, "start_time"@),
        optional_text_parameter(params, "end_time"@),
    ) {
        (Err(e), _, _, _, _, _, _) => Err(e),
        (_, Err(e), _, _, _, _, _) => Err(e),
        (_, _, Err(e), _, _, _, _) => Err(e),
        (_, _, _, Err(e), _, _, _) => Err(e),
        (_, _, _, _, Err(e), _, _) => Err(e),
        (_, _, _, _, _, Err(e), _) => Err(e),
        (_, _, _, _, _, _, Err(e)) => Err(e),
        (Ok(log_name), Ok(max), Ok(level), Ok(provider), Ok(id), Ok(start), Ok(end)) => Ok(
            EventQueryView {
                log_name,
                max_events: max as u32,
                level: match level {
                    Some(l) => Some(l as u8),
                    None => None,
                },
                provider_name_filter: provider,
                event_id_filter: match id {
                    Some(i) => Some(i as i32),
                    None => None,
                },
                start_time: start,
                end_time: end,
            },
        ),
    }
}

fn read_event_query(params: &JsonValue) -> (r: Result<EventQuery, ErrorKind>)
    ensures
        match r {
            Ok(q) => event_query(params@) == Ok::<EventQueryView, ErrorView>(q@),
            Err(e) => event_query(params@) == Err::<EventQueryView, ErrorView>(e@),
        },
{
    let log_name = read_text_parameter(params, "log_name")?;
    let max_events = read_number_parameter(params, "max_events", 0, 0xFFFF_FFFF)?;
    let level = read_optional_number_parameter(params, "level", 0, 255)?;
    let provider_name_filter = read_optional_text_parameter(params, "provider_name_filter")?;
    let event_id_filter = read_optional_number_parameter(
        params,
        "event_id_filter",
        -0x8000_0000,
        0x7FFF_FFFF,
    )?;
    let start_time = read_optional_text_parameter(params, "start_time")?;
    let end_time = read_optional_text_parameter(params, "end_time")?;
    Ok(
        EventQuery {
            log_name,
            max_events: max_events as u32,
            level: match level {
                Some(l) => Some(l as u8),
                None => None,
            },
            provider_name_filter,
            event_id_filter: match event_id_filter {
                Some(i) => Some(i as i32),
                None => None,
            },
            start_time,
            end_time,
        },
    )
}

/// The invocation that formats a volume, from its parameters.
pub open spec fn format_template(params: JsonTree) -> Result<InvocationView, ErrorView> {
    match (text_parameter(params, "drive_letter"@), text_parameter(params, "file_system"@)) {
        (Err(e), _) => Err(e),
        (_, Err(e)) => Err(e),
        (Ok(drive), Ok(system)) => match file_system_of(system) {
            None => Err(ErrorView::InvalidArgument { detail: crate::disks::BAD_FILE_SYSTEM@ }),
            Some(name) => match drive_letter_of(drive) {
                None => Err(ErrorView::InvalidArgument { detail: crate::disks::BAD_LETTER@ }),
                Some(letter) => Ok(powershell(format_script(letter, name))),
            },
        },
    }
}

/// The invocation that creates a local user, from its parameters.
pub open spec fn user_template(params: JsonTree) -> Result<InvocationView, ErrorView> {
    match (
        text_parameter(params, "user_name"@),
        text_parameter(params, "password"@),
        optional_text_parameter(params, "full_name"@),
        optional_text_parameter(params, "description"@),
    ) {
        (Err(e), _, _, _) => Err(e),
        (_, Err(e), _, _) => Err(e),
        (_, _, Err(e), _) => Err(e),
        (_, _, _, Err(e)) => Err(e),
        (Ok(user), Ok(password), Ok(full_name), Ok(description)) => if is_blank(user) {
            Err(ErrorView::InvalidArgument { detail: crate::users::NO_USER_NAME@ })
        } else if password.len() == 0 {
            Err(ErrorView::InvalidArgument { detail: crate::users::NO_PASSWORD@ })
        } else {
            Ok(
                powershell(
                    add_local_user_script(
                        user,
                        password,
                        match full_name {
                            Some(t) => t,
                            None => Seq::empty(),
                        },
                        match description {
                            Some(t) => t,
                            None => Seq::empty(),
                        },
                    ),
                ),
            )
        },
    }
}

/// The invocation that queries an event log, from its parameters.
pub open spec fn events_template(params: JsonTree) -> Result<InvocationView, ErrorView> {
    match event_query(params) {
        Err(e) => Err(e),
        Ok(q) => Ok(powershell(get_events_script(q))),
    }
}

/// The invocation of an operation that takes several parameters or a
/// number, or the refusal of what is given; `None` where the name is that
/// of no such operation.
pub open spec fn composite_template(operation: Seq<char>, params: JsonTree) -> Option<
    Result<InvocationView, ErrorView>,
> {
    if operation == "get_events"@ {
        Some(events_template(params))
    } else if operation == "get_disk_partitions"@ {
        Some(
            match number_parameter(params, "disk_number"@, 0, u32::MAX as int) {
                Err(e) => Err(e),
                Ok(n) => Ok(
                    powershell(
                        crate::disks::PARTITIONS_OPEN@ + decimal(n as nat)
                            + crate::disks::PARTITIONS_CLOSE@,
                    ),
                ),
            },
        )
    } else if operation == "terminate_process"@ {
        Some(
            match number_parameter(params, "pid"@, 0, u32::MAX as int) {
                Err(e) => Err(e),
                Ok(n) => Ok(
                    powershell(
                        crate::system::STOP_PROCESS_OPEN@ + decimal(n as nat)
                            + crate::system::STOP_PROCESS_CLOSE@,
                    ),
                ),
            },
        )
    } else if operation == "format_disk"@ {
        Some(format_template(params))
    } else if operation == "add_local_user"@ {
        Some(user_template(params))
    } else {
        None
    }
}

fn build_events(params: &JsonValue) -> (r: Result<Invocation, ErrorKind>)
    ensures
        builds(r, events_template(params@)),
{
    let query = read_event_query(params)?;
    Ok(get_events_command(&query))
}

fn build_user(params: &JsonValue) -> (r: Result<Invocation, ErrorKind>)
    ensures
        builds(r, user_template(params@)),
{
    let user = read_text_parameter(params, "user_name")?;
    let password = read_text_parameter(params, "password")?;
    let full_name = read_optional_text_parameter(params, "full_name")?;
    let description = read_optional_text_parameter(params, "description")?;
    let full = match &full_name {
        Some(t) => Some(t.as_str()),
        None => None,
    };
    let described = match &description {
        Some(t) => Some(t.as_str()),
        None => None,
    };
    crate::users::add_local_user_command(user.as_str(), password.as_str(), full, described)
}

fn build_format(params: &JsonValue) -> (r: Result<Invocation, ErrorKind>)
    ensures
        builds(r, format_template(params@)),
{
    let drive = read_text_parameter(params, "drive_letter")?;
    let system = read_text_parameter(params, "file_system")?;
    crate::disks::format_disk_command(drive.as_str(), system.as_str())
}

fn build_composite(operation: &str, params: &JsonValue) -> (r: Option<Result<Invocation, ErrorKind>>)
    ensures
        match r {
            Some(built) => composite_template(operation@, params@) matches Some(expected)
                && builds(built, expected),
            None => composite_template(operation@, params@) is None,
        },
{
    if same_text(operation, "get_events") {
        Some(build_events(params))
    } else if same_text(operation, "get_disk_partitions") {
        Some(
            match read_number_parameter(params, "disk_number", 0, 0xFFFF_FFFF) {
                Err(e) => Err(e),
                Ok(n) => Ok(crate::disks::get_disk_partitions_command(n as u32)),
            },
        )
    } else if same_text(operation, "terminate_process") {
        Some(
            match read_number_parameter(params, "pid", 0, 0xFFFF_FFFF) {
                Err(e) => Err(e),
                Ok(n) => Ok(crate::system::terminate_process_command(n as u32)),
            },
        )
    } else if same_text(operation, "format_disk") {
        Some(build_format(params))
    } else if same_text(operation, "add_local_user") {
        Some(build_user(params))
    } else {
        None
    }
}

// ---------------------------------------------------------------------------
// The entry point
// ---------------------------------------------------------------------------

/// The invocation that the template of `operation` gives for `params`:
/// what its own builder gives, a refusal where a parameter is missing, of
/// another kind than the template asks for, or fails its validation, and a
/// report of an unsupported template where the name is that of no
/// operation that is a single run of a tool.
pub open spec fn built(operation: Seq<char>, params: JsonTree) -> Result<InvocationView, ErrorView> {
    match plain_template(operation) {
        Some(invocation) => Ok(invocation),
        None => match text_template(operation, params) {
            Some(result) => result,
            None => match composite_template(operation, params) {
                Some(result) => result,
                None => Err(ErrorView::UnsupportedTemplate { operation }),
            },
        },
    }
}

/// Builds the invocation of `operation` from the parameters given by
/// name in `params`. Nothing is run, and every text that a caller supplies
/// reaches the script as a quoted literal.
pub fn build(operation: &str, params: &JsonValue) -> (r: Result<Invocation, ErrorKind>)
    ensures
        builds(r, built(operation@, params@)),
{
    match build_plain(operation) {
        Some(invocation) => Ok(invocation),
        None => match build_with_text(operation, params) {
            Some(result) => result,
            None => match build_composite(operation, params) {
                Some(result) => result,
                None => Err(ErrorKind::UnsupportedTemplate { operation: String::from_str(operation) }),
            },
        },
    }
}

} // verus!
