use winadmin_core::admin::{require_admin_command, require_admin_response, ElevationOutcome};
use winadmin_core::devices::{
    disable_device_command, enable_device_command, list_devices_command, list_devices_response,
};
use winadmin_core::disks::{
    analyze_recycle_bin_command, analyze_recycle_bin_response, clear_recycle_bin_command,
    disk_action_response, get_disk_partitions_command, get_disk_partitions_response,
    optimize_volume_command, run_defrag,
};
use winadmin_core::error::ErrorKind;
use winadmin_core::event_viewer::{
    clear_event_log_command, get_events_command, get_events_response, EventQuery,
};
use winadmin_core::execution::{spawn_failed, ExecutionResult};
use winadmin_core::system::{
    get_system_usage_begin, get_system_usage_resume, list_processes_response, read_numeral,
    restart_computer_command, shutdown_computer_command, terminate_process_command,
    terminate_process_response, UsageState,
};
use winadmin_core::flow::Step;
use winadmin_core::validate::{parse_drive_letter, parse_file_system};

fn ran(stdout: &str) -> Result<ExecutionResult, ErrorKind> {
    Ok(ExecutionResult {
        exit_success: true,
        stdout: stdout.as_bytes().to_vec(),
        stderr: Vec::new(),
    })
}

fn failed(stderr: &str) -> Result<ExecutionResult, ErrorKind> {
    Ok(ExecutionResult {
        exit_success: false,
        stdout: Vec::new(),
        stderr: stderr.as_bytes().to_vec(),
    })
}

fn not_started() -> Result<ExecutionResult, ErrorKind> {
    Err(spawn_failed("program not found"))
}

fn query(log: &str) -> EventQuery {
    EventQuery {
        log_name: log.to_string(),
        max_events: 50,
        level: None,
        provider_name_filter: None,
        event_id_filter: None,
        start_time: None,
        end_time: None,
    }
}

#[test]
fn a_query_without_filters_names_its_log_only() {
    assert_eq!(
        get_events_command(&query("System")).inline_script.unwrap(),
        "Get-WinEvent -FilterHashtable @{LogName='System'} -MaxEvents 50 -ErrorAction SilentlyContinue | Select-Object -Property Id, LevelDisplayName, ProviderName, @{Name='TimeCreated';Expression={$_.TimeCreated}}, Message | ConvertTo-Json -Depth 3 -Compress"
    );
}

#[test]
fn every_filter_adds_its_part() {
    let mut q = query("App'log");
    q.max_events = 4294967295;
    q.level = Some(2);
    q.provider_name_filter = Some("Micro'soft".to_string());
    q.event_id_filter = Some(-4624);
    q.start_time = Some("2024-01-01T00:00:00".to_string());
    q.end_time = Some("  ".to_string());
    let script = get_events_command(&q).inline_script.unwrap();
    assert!(script.starts_with("Get-WinEvent -FilterHashtable @{LogName='App''log'; Level=2; ProviderName='*Micro''soft*'; Id=-4624; StartTime='2024-01-01T00:00:00'} -MaxEvents 4294967295 -ErrorAction SilentlyContinue | "));
    q.provider_name_filter = Some(" ".to_string());
    q.end_time = Some("2024-02-01".to_string());
    q.event_id_filter = Some(2147483647);
    q.level = Some(255);
    let script = get_events_command(&q).inline_script.unwrap();
    assert!(script.contains("@{LogName='App''log'; Level=255; Id=2147483647; StartTime='2024-01-01T00:00:00'; EndTime='2024-02-01'}"));
}

#[test]
fn the_security_log_settles_failures_in_its_script() {
    let script = get_events_command(&query("Security")).inline_script.unwrap();
    assert!(script.starts_with("try { Get-WinEvent -FilterHashtable @{LogName='Security'} -MaxEvents 50 -ErrorAction Stop | "));
    assert!(script.ends_with("{ Write-Output '[]' } else { Write-Error $_.Exception.Message; exit 1 } }"));
    let mut raw = failed("Access is denied").unwrap();
    raw.stdout = b"[{\"Id\":4624,\"ProviderName\":\"p\"}]".to_vec();
    match get_events_response(Ok(raw)) {
        Err(ErrorKind::ExternalToolFailed { stderr }) => assert_eq!(stderr, "Access is denied"),
        _ => panic!("the failure must be reported"),
    }
    assert!(matches!(get_events_response(failed("boom")), Err(ErrorKind::ExternalToolFailed { .. })));
    assert_eq!(get_events_response(ran("[]")).unwrap().len(), 0);
}

#[test]
fn events_are_mapped_and_unreadable_output_is_empty() {
    let events = get_events_response(
        ran("[{\"Id\":7036,\"LevelDisplayName\":\"Information\",\"ProviderName\":\"Service Control Manager\",\"TimeCreated\":{\"value\":\"x\",\"DateTime\":\"lundi\"},\"Message\":\"started\"},{\"Id\":1,\"ProviderName\":\"p\",\"LevelDisplayName\":null,\"Message\":null}]"),
    )
    .unwrap();
    assert_eq!(events.len(), 2);
    assert_eq!(events[0].event_id, 7036);
    assert_eq!(events[0].level, "Information");
    assert_eq!(events[0].provider_name, "Service Control Manager");
    assert_eq!(events[0].time_created, "lundi");
    assert_eq!(events[0].message, "started");
    assert_eq!(events[1].level, "Inconnu");
    assert_eq!(events[1].time_created, "N/A");
    assert_eq!(events[1].message, "");
    assert!(get_events_response(ran("not json")).unwrap().is_empty());
    assert!(get_events_response(ran("[{\"Id\":\"x\"}]")).unwrap().is_empty());
    assert!(get_events_response(ran("")).unwrap().is_empty());
    assert!(get_events_response(
        failed("Get-WinEvent : No events were found that match the specified selection criteria.")
    )
    .unwrap()
    .is_empty());
    assert!(matches!(get_events_response(not_started()), Err(ErrorKind::SpawnFailed { .. })));
}

#[test]
fn a_log_needs_a_name_to_be_cleared() {
    assert!(matches!(clear_event_log_command(" "), Err(ErrorKind::InvalidArgument { .. })));
    assert_eq!(
        clear_event_log_command("Application").unwrap().inline_script.unwrap(),
        "Clear-EventLog -LogName \"Application\""
    );
}

#[test]
fn devices_are_mapped() {
    assert!(list_devices_command().inline_script.unwrap().starts_with("Get-PnpDevice -Class 'Display','Net','USB','AudioEndpoint','Image','PrintQueue','DiskDrive','Media','Bluetooth' | "));
    let devices = list_devices_response(ran("[{\"InstanceID\":\"USB\\\\VID_1\",\"FriendlyName\":\"Souris\",\"Class\":\"USB\",\"Manufacturer\":\"Logi\",\"Status\":\"OK\"},{\"InstanceId\":\"PCI\\\\2\",\"FriendlyName\":null,\"Status\":\"Error\"}]")).unwrap();
    assert_eq!(devices.len(), 2);
    assert_eq!(devices[0].instance_id, "USB\\VID_1");
    assert_eq!(devices[0].name, "Souris");
    assert_eq!(devices[1].name, "(Inconnu)");
    assert_eq!(devices[1].class, "");
    assert_eq!(devices[1].manufacturer, "");
    assert_eq!(devices[1].status, "Error");
    let one = list_devices_response(ran("{\"InstanceId\":\"a\",\"Status\":\"OK\"}")).unwrap();
    assert_eq!(one.len(), 1);
    assert_eq!(
        enable_device_command("USB\\VID_1&PID_2\\5").inline_script.unwrap(),
        "Enable-PnpDevice -InstanceId \"USB\\VID_1&PID_2\\5\" -Confirm:$false"
    );
    assert_eq!(
        disable_device_command("a$b").inline_script.unwrap(),
        "Disable-PnpDevice -InstanceId \"a`$b\" -Confirm:$false"
    );
}

#[test]
fn partitions_are_mapped() {
    assert_eq!(
        get_disk_partitions_command(3).inline_script.unwrap(),
        "Get-Partition -DiskNumber 3 | Select-Object PartitionNumber, DriveLetter, Size, Type | ConvertTo-Json -Depth 3 -Compress"
    );
    let partitions = get_disk_partitions_response(ran("[{\"PartitionNumber\":1,\"DriveLetter\":\"\\u0000\",\"Size\":104857600,\"Type\":\"System\"},{\"PartitionNumber\":2,\"DriveLetter\":\"C\",\"Size\":500000000000,\"Type\":\"Basic\"},{\"PartitionNumber\":3,\"DriveLetter\":null,\"Size\":1,\"Type\":\"Recovery\"}]")).unwrap();
    assert_eq!(partitions.len(), 3);
    assert_eq!(partitions[0].drive_letter, Some('\u{0}'));
    assert_eq!(partitions[1].number, 2);
    assert_eq!(partitions[1].drive_letter, Some('C'));
    assert_eq!(partitions[1].size, 500000000000);
    assert_eq!(partitions[1].partition_type, "Basic");
    assert_eq!(partitions[2].drive_letter, None);
    assert!(get_disk_partitions_response(ran("")).unwrap().is_empty());
    assert!(matches!(get_disk_partitions_response(ran("{\"PartitionNumber\":1}")), Err(ErrorKind::MalformedOutput { .. })));
}

#[test]
fn the_recycle_bin_is_measured_and_emptied() {
    assert!(analyze_recycle_bin_command().inline_script.unwrap().contains("NameSpace(0xa)"));
    assert_eq!(analyze_recycle_bin_response(ran(" 123456 \r\n")).unwrap(), 123456);
    assert_eq!(analyze_recycle_bin_response(ran("")).unwrap(), 0);
    assert_eq!(analyze_recycle_bin_response(ran("12.5")).unwrap(), 0);
    assert_eq!(analyze_recycle_bin_response(ran("99999999999999999999999")).unwrap(), 0);
    assert!(matches!(analyze_recycle_bin_response(failed("x")), Err(ErrorKind::ExternalToolFailed { .. })));
    assert_eq!(clear_recycle_bin_command().inline_script.unwrap(), "Clear-RecycleBin -Force");
    assert!(disk_action_response(ran("")).is_ok());
}

#[test]
fn a_volume_is_optimized_by_its_letter() {
    assert_eq!(optimize_volume_command("C:").unwrap().inline_script.unwrap(), "Optimize-Volume -DriveLetter C -Verbose");
    assert_eq!(optimize_volume_command("d").unwrap().inline_script.unwrap(), "Optimize-Volume -DriveLetter d -Verbose");
    for bad in ["", "CC", "C:\\", "1", "\u{e9}", ":", "C;"] {
        match optimize_volume_command(bad) {
            Err(ErrorKind::InvalidArgument { detail }) => assert_eq!(detail, "Lettre de lecteur invalide"),
            _ => panic!("the drive must be refused"),
        }
    }
    assert_eq!(parse_drive_letter("z:"), Some('z'));
    assert_eq!(parse_drive_letter("ZZ"), None);
    assert_eq!(parse_file_system("ReFS").as_deref(), Some("REFS"));
    assert_eq!(parse_file_system("fat32").as_deref(), Some("FAT32"));
    assert_eq!(parse_file_system("NTFS ").as_deref(), None);
    assert!(matches!(run_defrag("Disk 0"), Err(ErrorKind::UnsupportedTemplate { .. })));
}

#[test]
fn processes_are_mapped_with_their_load_as_written() {
    let processes = list_processes_response(ran("[{\"Id\":4,\"ProcessName\":\"System\",\"CPU\":12.5,\"WS\":1000},{\"Id\":0,\"ProcessName\":\"Idle\",\"CPU\":null,\"WS\":8192},{\"Id\":9,\"ProcessName\":\"x\",\"CPU\":100,\"WS\":1}]")).unwrap();
    assert_eq!(processes.len(), 3);
    assert_eq!(processes[0].pid, 4);
    assert_eq!(processes[0].name, "System");
    assert_eq!(processes[0].cpu_usage, "12.5");
    assert_eq!(processes[0].memory, 1000);
    assert_eq!(processes[1].cpu_usage, "0");
    assert_eq!(processes[2].cpu_usage, "100");
}

#[test]
fn ending_a_process_reports_what_the_tool_says() {
    assert_eq!(
        terminate_process_command(4321).inline_script.unwrap(),
        "Stop-Process -Id 4321 -Force -ErrorAction SilentlyContinue -PassThru | Select-Object -Property HasExited | ConvertTo-Json"
    );
    assert_eq!(terminate_process_response(ran("{\"HasExited\":true}")).unwrap(), true);
    assert_eq!(terminate_process_response(ran("\r\n{\r\n  \"HasExited\": false\r\n}\r\n")).unwrap(), false);
    assert_eq!(terminate_process_response(ran("{\"HasExited\":\"yes\"}")).unwrap(), true);
    assert_eq!(terminate_process_response(ran("{}")).unwrap(), true);
    assert_eq!(terminate_process_response(ran("garbage")).unwrap(), true);
    assert_eq!(terminate_process_response(ran("  ")).unwrap(), true);
    assert_eq!(terminate_process_response(failed("x")).unwrap(), false);
    assert!(terminate_process_response(not_started()).is_err());
}

#[test]
fn the_machine_is_restarted_and_shut_down_at_once() {
    let restart = restart_computer_command();
    assert_eq!(restart.program, "shutdown");
    assert_eq!(restart.command_line(), vec!["/r", "/t", "0", "/f"]);
    assert_eq!(shutdown_computer_command().command_line(), vec!["/s", "/t", "0", "/f"]);
}

#[test]
fn the_first_number_of_an_output_is_read() {
    assert_eq!(read_numeral("12.5"), "12.5");
    assert_eq!(read_numeral("  cpu: -3.25% of 8"), "-3.25");
    assert_eq!(read_numeral("\"7\""), "7");
    assert_eq!(read_numeral("none"), "");
    assert_eq!(read_numeral(""), "");
    assert_eq!(read_numeral("1.2.3-4 x"), "1.2.3-4");
}

#[test]
fn the_load_is_read_in_two_steps() {
    let (state, first) = get_system_usage_begin();
    assert!(first.inline_script.unwrap().contains("Get-Counter"));
    let (state, second) = match get_system_usage_resume(state, ran("17.42\r\n")) {
        Step::Run(state, invocation) => (state, invocation),
        Step::Done(_) => panic!("the memory must be asked for"),
    };
    assert!(second.inline_script.unwrap().starts_with("Get-CimInstance Win32_OperatingSystem"));
    match get_system_usage_resume(state, ran("{\r\n \"TotalVisibleMemorySize\": 16659276,\r\n \"FreePhysicalMemory\": 8000000.5\r\n}")) {
        Step::Done(Ok(reading)) => {
            assert_eq!(reading.cpu, "17.42");
            assert_eq!(reading.total_kb, "16659276");
            assert_eq!(reading.free_kb, "8000000.5");
        }
        _ => panic!("the reading must end"),
    }
}

#[test]
fn a_reading_that_lacks_something_fails() {
    match get_system_usage_resume(UsageState::AskingCpu, ran(" \n")) {
        Step::Done(Err(ErrorKind::MalformedOutput { raw_snippet })) => assert_eq!(raw_snippet, "Sortie CPU vide"),
        _ => panic!("the empty output must be reported"),
    }
    assert!(matches!(get_system_usage_resume(UsageState::AskingCpu, failed("x")), Step::Done(Err(ErrorKind::ExternalToolFailed { .. }))));
    let memory = || UsageState::AskingMemory { cpu: "1".to_string() };
    match get_system_usage_resume(memory(), ran("{\"FreePhysicalMemory\":1}")) {
        Step::Done(Err(ErrorKind::MalformedOutput { raw_snippet })) => assert_eq!(raw_snippet, "Impossible d'obtenir TotalVisibleMemorySize"),
        _ => panic!("the missing total must be reported"),
    }
    match get_system_usage_resume(memory(), ran("{\"TotalVisibleMemorySize\":1,\"FreePhysicalMemory\":\"1\"}")) {
        Step::Done(Err(ErrorKind::MalformedOutput { raw_snippet })) => assert_eq!(raw_snippet, "Impossible d'obtenir FreePhysicalMemory"),
        _ => panic!("the missing free memory must be reported"),
    }
    assert!(matches!(get_system_usage_resume(memory(), ran("nope")), Step::Done(Err(ErrorKind::MalformedOutput { .. }))));
    assert!(matches!(get_system_usage_resume(memory(), not_started()), Step::Done(Err(ErrorKind::SpawnFailed { .. }))));
}

#[test]
fn a_request_for_rights_is_granted_or_not() {
    assert_eq!(
        require_admin_command("C:\\Program Files\\Admin Tool\\app.exe").inline_script.unwrap(),
        "Start-Process -FilePath \"C:\\Program Files\\Admin Tool\\app.exe\" -Verb RunAs"
    );
    assert!(matches!(require_admin_response(ran("")), ElevationOutcome::ElevationGranted));
    match require_admin_response(failed("The operation was canceled by the user.")) {
        ElevationOutcome::ElevationDeclinedOrFailed { detail } => assert_eq!(detail, "The operation was canceled by the user."),
        _ => panic!("the request was declined"),
    }
    match require_admin_response(not_started()) {
        ElevationOutcome::ElevationDeclinedOrFailed { detail } => {
            assert_eq!(detail, "Impossible de lancer la commande: program not found")
        }
        _ => panic!("the request failed"),
    }
}

#[test]
fn every_failure_has_its_line_for_the_operator() {
    assert_eq!(ErrorKind::invalid_argument("x").message(), "Argument invalide: x");
    assert_eq!(ErrorKind::unavailable("y").message(), "Indisponible: y");
    assert_eq!(ErrorKind::UnsupportedTemplate { operation: "op".to_string() }.message(), "Op\u{e9}ration inconnue: op");
    assert_eq!(ErrorKind::ExternalToolFailed { stderr: "Acc\u{e8}s refus\u{e9}\r\n".to_string() }.message(), "La commande a \u{e9}chou\u{e9}: Acc\u{e8}s refus\u{e9}\r\n");
    assert_eq!(ErrorKind::MalformedOutput { raw_snippet: "{".to_string() }.message(), "Sortie inattendue: {");
    assert_eq!(spawn_failed("z").message(), "Impossible de lancer la commande: z");
}
