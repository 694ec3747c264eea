use winadmin_core::command::{Interpreter, Invocation};
use winadmin_core::disks::{
    format_disk_command, list_disks_begin, list_disks_resume, DiskInfo, DiskStage,
};
use winadmin_core::error::ErrorKind;
use winadmin_core::execution::ExecutionResult;
use winadmin_core::flow::Step;
use winadmin_core::security::{list_firewall_rules_response, FirewallRuleInfo};

fn ran(stdout: &str) -> Result<ExecutionResult, ErrorKind> {
    Ok(ExecutionResult {
        exit_success: true,
        stdout: stdout.as_bytes().to_vec(),
        stderr: Vec::new(),
    })
}

fn failed(stderr: &str) -> Result<ExecutionResult, ErrorKind> {
    Ok(ExecutionResult {
        exit_success: false,
        stdout: Vec::new(),
        stderr: stderr.as_bytes().to_vec(),
    })
}

fn script_of(invocation: &Invocation) -> String {
    invocation.inline_script.clone().unwrap_or_default()
}

#[test]
fn lists_one_disk_without_partitions() {
    let (listing, first) = list_disks_begin();
    assert_eq!(first.interpreter, Interpreter::PowerShell);
    assert_eq!(first.program, "powershell");
    let step = list_disks_resume(
        listing,
        ran("[{\"Number\":0,\"FriendlyName\":\"OS Disk\",\"Size\":512110190592,\"IsRemovable\":false}]"),
    );
    let (listing, second) = match step {
        Step::Run(listing, invocation) => (listing, invocation),
        Step::Done(_) => panic!("the drive letters of the disk must be asked for"),
    };
    assert_eq!(listing.stage, DiskStage::Letters);
    assert!(script_of(&second).starts_with("Get-Partition -DiskNumber 0 |"));
    let disks: Vec<DiskInfo> = match list_disks_resume(listing, ran("")) {
        Step::Done(Ok(disks)) => disks,
        _ => panic!("no further question is due"),
    };
    assert_eq!(disks.len(), 1);
    let disk = &disks[0];
    assert_eq!(disk.disk_number, 0);
    assert_eq!(disk.name, "OS Disk");
    assert_eq!(disk.mount_point, "");
    assert_eq!(disk.total_space, 512110190592);
    assert_eq!(disk.available_space, 0);
    assert_eq!(disk.file_system, "");
    assert!(!disk.is_removable);
}

#[test]
fn lists_a_disk_with_its_volume() {
    let (listing, _) = list_disks_begin();
    let step = list_disks_resume(
        listing,
        ran("{\"Number\":1,\"FriendlyName\":\"Data\",\"Size\":1000,\"IsRemovable\":true}"),
    );
    let listing = match step {
        Step::Run(listing, _) => listing,
        Step::Done(_) => panic!("the drive letters of the disk must be asked for"),
    };
    let step = list_disks_resume(listing, ran("[{\"DriveLetter\":null},{\"DriveLetter\":\"D\"}]"));
    let (listing, volume) = match step {
        Step::Run(listing, invocation) => (listing, invocation),
        Step::Done(_) => panic!("the volume must be asked for"),
    };
    assert_eq!(
        script_of(&volume),
        "Get-Volume -DriveLetter D | Select-Object FileSystem, SizeRemaining | ConvertTo-Json -Compress"
    );
    let disks = match list_disks_resume(listing, ran("{\"FileSystem\":\"NTFS\",\"SizeRemaining\":400}")) {
        Step::Done(Ok(disks)) => disks,
        _ => panic!("the listing must end"),
    };
    assert_eq!(disks.len(), 1);
    assert_eq!(disks[0].mount_point, "D:");
    assert_eq!(disks[0].available_space, 400);
    assert_eq!(disks[0].file_system, "NTFS");
    assert!(disks[0].is_removable);
}

#[test]
fn a_failing_disk_list_is_reported_with_its_error_text() {
    let (listing, _) = list_disks_begin();
    match list_disks_resume(listing, failed("Access denied")) {
        Step::Done(Err(ErrorKind::ExternalToolFailed { stderr })) => {
            assert_eq!(stderr, "Access denied")
        }
        _ => panic!("the failure of the tool must be reported"),
    }
}

#[test]
fn maps_a_firewall_rule() {
    let rules: Vec<FirewallRuleInfo> = list_firewall_rules_response(ran(
        "{\"DisplayName\":\"Rule1\",\"Enabled\":1,\"Direction\":1,\"Action\":2,\"Profile\":3}",
    ))
    .unwrap();
    assert_eq!(rules.len(), 1);
    assert_eq!(rules[0].name, "Rule1");
    assert!(rules[0].enabled);
    assert_eq!(rules[0].direction, "Inbound");
    assert_eq!(rules[0].action, "Allow");
    assert_eq!(rules[0].profile, "Domain, Private");
}

#[test]
fn refuses_a_drive_of_two_letters_before_anything_is_run() {
    match format_disk_command("ZZ", "NTFS") {
        Err(ErrorKind::InvalidArgument { detail }) => {
            assert_eq!(detail, "Lettre de lecteur invalide")
        }
        _ => panic!("the drive must be refused"),
    }
}

#[test]
fn formats_with_the_upper_case_name_of_the_file_system() {
    let invocation = format_disk_command("e:", "exfat").unwrap();
    assert_eq!(script_of(&invocation), "Format-Volume -DriveLetter e -FileSystem EXFAT -Force");
    assert_eq!(invocation.command_line(), vec!["-Command".to_string(), script_of(&invocation)]);
}

#[test]
fn refuses_an_unsupported_file_system() {
    assert!(matches!(
        format_disk_command("C", "ext4"),
        Err(ErrorKind::InvalidArgument { .. })
    ));
}

#[test]
fn every_disk_is_listed_whatever_the_questions_come_to() {
    let replies = vec![
        ran("[{\"Number\":0,\"FriendlyName\":\"First\",\"Size\":100,\"IsRemovable\":false},\
             {\"Number\":1,\"FriendlyName\":\"Second\",\"Size\":200,\"IsRemovable\":true},\
             {\"Number\":2,\"FriendlyName\":\"Third\",\"Size\":300,\"IsRemovable\":false}]"),
        // The letters of the first disk cannot be asked for.
        Err(ErrorKind::SpawnFailed { detail: "no shell".to_string() }),
        // The second disk has a letter, and its volume cannot be read.
        ran("{\"DriveLetter\":\"E\"}"),
        failed("No volume"),
        // The third disk has no partition with a letter.
        ran("[{\"DriveLetter\":null}]"),
    ];
    let (mut listing, _) = list_disks_begin();
    let mut result = None;
    for reply in replies {
        assert!(result.is_none(), "the listing ended before its questions were answered");
        match list_disks_resume(listing, reply) {
            Step::Run(next, _) => listing = next,
            Step::Done(outcome) => {
                result = Some(outcome);
                listing = list_disks_begin().0;
            }
        }
    }
    let disks = match result {
        Some(Ok(disks)) => disks,
        _ => panic!("the listing must end well"),
    };
    assert_eq!(disks.len(), 3);
    let names: Vec<&str> = disks.iter().map(|d| d.name.as_str()).collect();
    assert_eq!(names, vec!["First", "Second", "Third"]);
    let numbers: Vec<u32> = disks.iter().map(|d| d.disk_number).collect();
    assert_eq!(numbers, vec![0, 1, 2]);
    let sizes: Vec<u64> = disks.iter().map(|d| d.total_space).collect();
    assert_eq!(sizes, vec![100, 200, 300]);
    assert_eq!(disks[0].mount_point, "");
    assert_eq!(disks[0].available_space, 0);
    assert_eq!(disks[0].file_system, "");
    assert_eq!(disks[1].mount_point, "E:");
    assert_eq!(disks[2].mount_point, "");
    assert_eq!(disks[2].available_space, 0);
    assert_eq!(disks[2].file_system, "");
}
