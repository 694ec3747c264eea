use winadmin_core::backup::{
    create_restore_point_command, list_restore_points_response, restore_point_type,
};
use winadmin_core::error::ErrorKind;
use winadmin_core::execution::ExecutionResult;
use winadmin_core::mapper::CodeName;
use winadmin_core::security::{
    firewall_action, firewall_direction, firewall_profile, get_antivirus_status_response,
    list_firewall_rules_command, list_firewall_rules_response,
};
use winadmin_core::tasks::{
    list_scheduled_tasks_response, parse_task_result, parse_task_state, run_task_command,
    task_state,
};
use winadmin_core::json::JsonValue;
use winadmin_core::windows_service::{
    list_services_response, service_status, start_type, stop_service_command,
};

fn ran(stdout: &str) -> Result<ExecutionResult, ErrorKind> {
    Ok(ExecutionResult {
        exit_success: true,
        stdout: stdout.as_bytes().to_vec(),
        stderr: Vec::new(),
    })
}

fn failed(stderr: &str) -> Result<ExecutionResult, ErrorKind> {
    Ok(ExecutionResult {
        exit_success: false,
        stdout: Vec::new(),
        stderr: stderr.as_bytes().to_vec(),
    })
}

fn name_of(code: CodeName) -> Option<&'static str> {
    match code {
        CodeName::Known(name) => Some(name),
        CodeName::Unknown(_) => None,
    }
}

#[test]
fn every_documented_code_has_its_name() {
    assert_eq!(name_of(firewall_direction(1)), Some("Inbound"));
    assert_eq!(name_of(firewall_direction(2)), Some("Outbound"));
    assert_eq!(name_of(firewall_action(1)), Some("NotConfigured"));
    assert_eq!(name_of(firewall_action(2)), Some("Allow"));
    assert_eq!(name_of(firewall_action(3)), Some("Block"));
    assert_eq!(name_of(task_state(0)), Some("Unknown"));
    assert_eq!(name_of(task_state(1)), Some("Disabled"));
    assert_eq!(name_of(task_state(2)), Some("Queued"));
    assert_eq!(name_of(task_state(3)), Some("Ready"));
    assert_eq!(name_of(task_state(4)), Some("Running"));
    assert_eq!(name_of(service_status(1)), Some("Stopped"));
    assert_eq!(name_of(service_status(2)), Some("Starting"));
    assert_eq!(name_of(service_status(3)), Some("Stopping"));
    assert_eq!(name_of(service_status(4)), Some("Running"));
    assert_eq!(name_of(service_status(7)), Some("Paused"));
    assert_eq!(name_of(start_type(1)), Some("System"));
    assert_eq!(name_of(start_type(2)), Some("Auto"));
    assert_eq!(name_of(start_type(3)), Some("Manual"));
    assert_eq!(name_of(start_type(4)), Some("Disabled"));
    assert_eq!(name_of(restore_point_type(0)), Some("APPLICATION_INSTALL"));
    assert_eq!(name_of(restore_point_type(1)), Some("APPLICATION_UNINSTALL"));
    assert_eq!(name_of(restore_point_type(12)), Some("SYSTEM"));
    assert_eq!(name_of(restore_point_type(13)), Some("DEVICE_DRIVER_INSTALL"));
}

#[test]
fn an_undocumented_code_is_tagged_with_itself() {
    assert!(matches!(firewall_direction(0), CodeName::Unknown(0)));
    assert!(matches!(firewall_direction(3), CodeName::Unknown(3)));
    assert!(matches!(firewall_action(-1), CodeName::Unknown(-1)));
    assert!(matches!(task_state(5), CodeName::Unknown(5)));
    assert!(matches!(service_status(5), CodeName::Unknown(5)));
    assert!(matches!(service_status(6), CodeName::Unknown(6)));
    assert!(matches!(start_type(0), CodeName::Unknown(0)));
    assert!(matches!(restore_point_type(2), CodeName::Unknown(2)));
    assert_eq!(firewall_direction(9).label("Inconnu (", ")"), "Inconnu (9)");
    assert_eq!(firewall_action(-12).label("Inconnu (", ")"), "Inconnu (-12)");
    assert_eq!(firewall_action(2).label("Inconnu (", ")"), "Allow");
}

#[test]
fn task_states_are_labelled() {
    assert_eq!(parse_task_state(0), "Unknown");
    assert_eq!(parse_task_state(3), "Ready");
    assert_eq!(parse_task_state(4), "Running");
    assert_eq!(parse_task_state(5), "Code 5");
    assert_eq!(parse_task_state(255), "Code 255");
}

#[test]
fn firewall_profiles_are_joined() {
    assert_eq!(firewall_profile(0), "Any");
    assert_eq!(firewall_profile(1), "Domain");
    assert_eq!(firewall_profile(2), "Private");
    assert_eq!(firewall_profile(3), "Domain, Private");
    assert_eq!(firewall_profile(4), "Public");
    assert_eq!(firewall_profile(5), "Domain, Public");
    assert_eq!(firewall_profile(6), "Private, Public");
    assert_eq!(firewall_profile(7), "Domain, Private, Public");
    assert_eq!(firewall_profile(8), "Any");
    assert_eq!(firewall_profile(2147483647), "Domain, Private, Public");
}

#[test]
fn firewall_rules_take_names_as_well_as_codes() {
    let rules = list_firewall_rules_response(ran(
        "[{\"Name\":\"r\",\"Enabled\":true,\"Direction\":\"Outbound\",\"Action\":9,\"Profile\":0},{\"DisplayName\":\"s\",\"Name\":\"other\",\"Enabled\":2,\"Direction\":2,\"Action\":3,\"Profile\":\"Public\"}]",
    ))
    .unwrap();
    assert_eq!(rules.len(), 2);
    assert_eq!(rules[0].name, "r");
    assert!(rules[0].enabled);
    assert_eq!(rules[0].direction, "Outbound");
    assert_eq!(rules[0].action, "Inconnu (9)");
    assert_eq!(rules[0].profile, "Any");
    assert_eq!(rules[1].name, "s");
    assert!(!rules[1].enabled);
    assert_eq!(rules[1].direction, "Outbound");
    assert_eq!(rules[1].action, "Block");
    assert_eq!(rules[1].profile, "Public");
}

#[test]
fn a_rule_without_a_required_member_spoils_the_batch() {
    match list_firewall_rules_response(ran(
        "[{\"DisplayName\":\"ok\",\"Enabled\":1,\"Direction\":1,\"Action\":2,\"Profile\":3},{\"Enabled\":1,\"Direction\":1,\"Action\":2,\"Profile\":3}]",
    )) {
        Err(ErrorKind::MalformedOutput { raw_snippet }) => {
            assert!(raw_snippet.starts_with("[{\"DisplayName\":\"ok\""))
        }
        _ => panic!("the batch must be rejected"),
    }
}

#[test]
fn listing_rules_reports_failures() {
    assert_eq!(
        list_firewall_rules_command().inline_script.unwrap(),
        "Get-NetFirewallRule | Select-Object DisplayName, Enabled, Direction, Action, Profile | ConvertTo-Json -Depth 3 -Compress"
    );
    assert!(list_firewall_rules_response(ran("")).unwrap().is_empty());
    match list_firewall_rules_response(failed("denied")) {
        Err(ErrorKind::ExternalToolFailed { stderr }) => assert_eq!(stderr, "denied"),
        _ => panic!("the failure must be reported"),
    }
    match list_firewall_rules_response(Err(ErrorKind::SpawnFailed { detail: "no shell".to_string() })) {
        Err(ErrorKind::SpawnFailed { detail }) => assert_eq!(detail, "no shell"),
        _ => panic!("the failure must be reported"),
    }
}

#[test]
fn the_antivirus_status_fills_in_defaults() {
    let status = get_antivirus_status_response(ran(
        "{\"AntispywareEnabled\":true,\"AntivirusSignatureVersion\":\"1.2.3\",\"LastFullScanEndTime\":{\"value\":\"/Date(1)/\",\"DateTime\":\"lundi 1 janvier 2024\"}}",
    ))
    .unwrap();
    assert!(status.antispyware_enabled);
    assert!(!status.real_time_protection_enabled);
    assert_eq!(status.antivirus_signature_version, "1.2.3");
    assert_eq!(status.nis_signature_version, "N/A");
    assert_eq!(status.last_full_scan_end_time, "lundi 1 janvier 2024");
    let plain = get_antivirus_status_response(ran("{\"LastFullScanEndTime\":\"2024-01-01T00:00:00\"}")).unwrap();
    assert_eq!(plain.last_full_scan_end_time, "2024-01-01T00:00:00");
    let none = get_antivirus_status_response(ran("{\"LastFullScanEndTime\":null}")).unwrap();
    assert_eq!(none.last_full_scan_end_time, "N/A");
    match get_antivirus_status_response(ran("  ")) {
        Err(ErrorKind::Unavailable { detail }) => {
            assert_eq!(detail, "Get-MpComputerStatus n'a retourn\u{e9} aucune information.")
        }
        _ => panic!("the missing status must be reported"),
    }
}

#[test]
fn tasks_are_mapped() {
    let tasks = list_scheduled_tasks_response(ran(
        "[{\"TaskName\":\"Backup\",\"TaskPath\":\"\\\\\",\"State\":3,\"LastRunTime\":{\"DateTime\":\"hier\"},\"NextRunTime\":null,\"LastTaskResult\":267011},{\"TaskName\":\"Scan\",\"TaskPath\":\"\\\\Av\\\\\",\"State\":\"Running\",\"LastTaskResult\":\"ok\"},{\"TaskName\":\"Odd\",\"TaskPath\":\"\\\\\",\"State\":9,\"LastTaskResult\":[1]}]",
    ))
    .unwrap();
    assert_eq!(tasks.len(), 3);
    assert_eq!(tasks[0].name, "Backup");
    assert_eq!(tasks[0].path, "\\");
    assert_eq!(tasks[0].state, "Ready");
    assert_eq!(tasks[0].last_run_time, "hier");
    assert_eq!(tasks[0].next_run_time, "N/A");
    assert_eq!(tasks[0].last_result, "267011");
    assert_eq!(tasks[1].state, "Running");
    assert_eq!(tasks[1].last_result, "ok");
    assert_eq!(tasks[1].last_run_time, "N/A");
    assert_eq!(tasks[2].state, "Code 9");
    assert_eq!(tasks[2].last_result, "Inconnu");
    assert_eq!(
        run_task_command("\\a\"b\\").inline_script.unwrap(),
        "Start-ScheduledTask -TaskPath \"\\a\"\"b\\\""
    );
}

#[test]
fn the_result_of_a_task_is_read_in_every_shape() {
    assert_eq!(parse_task_result(None), "N/A");
    assert_eq!(parse_task_result(Some(&JsonValue::Null)), "N/A");
    assert_eq!(parse_task_result(Some(&JsonValue::Integer(-3))), "-3");
    assert_eq!(parse_task_result(Some(&JsonValue::Decimal("0.5".to_string()))), "0.5");
    assert_eq!(parse_task_result(Some(&JsonValue::Text("fine".to_string()))), "fine");
    assert_eq!(parse_task_result(Some(&JsonValue::Bool(true))), "Inconnu");
}

#[test]
fn services_are_mapped_leniently() {
    let services = list_services_response(ran(
        "Loading...\n[{\"Name\":\"Spooler\",\"DisplayName\":\"Print Spooler\",\"Status\":4,\"StartType\":2},{\"Name\":\"x\",\"Status\":\"Stopped\",\"StartType\":9},{}]\n",
    ))
    .unwrap();
    assert_eq!(services.len(), 3);
    assert_eq!(services[0].name, "Spooler");
    assert_eq!(services[0].display_name, "Print Spooler");
    assert_eq!(services[0].status, "Running");
    assert_eq!(services[0].start_type, "Auto");
    assert_eq!(services[1].display_name, "Unknown Display Name");
    assert_eq!(services[1].status, "Stopped");
    assert_eq!(services[1].start_type, "Unknown (9)");
    assert_eq!(services[2].name, "Unknown");
    assert_eq!(services[2].status, "Unknown");
    assert_eq!(services[2].start_type, "Unknown");
    assert!(list_services_response(ran("garbage {")).unwrap().is_empty());
    assert!(list_services_response(ran("[1,2]")).unwrap().is_empty());
    assert!(matches!(
        list_services_response(failed("x")),
        Err(ErrorKind::ExternalToolFailed { .. })
    ));
    assert_eq!(stop_service_command("W32Time").inline_script.unwrap(), "Stop-Service -Name \"W32Time\"");
}

#[test]
fn restore_points_are_mapped() {
    let points = list_restore_points_response(ran(
        "{\"SequenceNumber\":7,\"Description\":\"Avant mise \u{e0} jour\",\"RestorePointType\":12,\"CreationTime\":\"20240101\"}",
    ))
    .unwrap();
    assert_eq!(points.len(), 1);
    assert_eq!(points[0].sequence_number, 7);
    assert_eq!(points[0].description, "Avant mise \u{e0} jour");
    assert_eq!(points[0].restore_point_type, "SYSTEM");
    assert_eq!(points[0].creation_time, "20240101");
    let odd = list_restore_points_response(ran(
        "{\"SequenceNumber\":8,\"Description\":\"d\",\"RestorePointType\":5}",
    ))
    .unwrap();
    assert_eq!(odd[0].restore_point_type, "Inconnu (5)");
    assert_eq!(odd[0].creation_time, "N/A");
    assert!(matches!(
        list_restore_points_response(ran("{\"SequenceNumber\":-1,\"Description\":\"d\",\"RestorePointType\":5}")),
        Err(ErrorKind::MalformedOutput { .. })
    ));
}

#[test]
fn a_restore_point_needs_a_description() {
    match create_restore_point_command("  \t") {
        Err(ErrorKind::InvalidArgument { detail }) => {
            assert_eq!(detail, "La description ne peut pas \u{ea}tre vide.")
        }
        _ => panic!("the description must be refused"),
    }
    assert_eq!(
        create_restore_point_command("avant \"test\"").unwrap().inline_script.unwrap(),
        "Checkpoint-Computer -Description \"avant \"\"test\"\"\" -RestorePointType MODIFY_SETTINGS"
    );
}
