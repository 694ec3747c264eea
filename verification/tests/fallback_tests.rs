use winadmin_core::error::ErrorKind;
use winadmin_core::execution::ExecutionResult;
use winadmin_core::fallback::{Chain, Discipline};
use winadmin_core::shares::{
    create_share_begin, delete_share_begin, list_shares_commands, list_shares_response,
    merge_shares, parse_share_state, parse_share_type, server_name, share_change_resume,
    shares_from_net_use, ShareChange, ShareInfo,
};
use winadmin_core::flow::Step;

fn ran(stdout: &str) -> Result<ExecutionResult, ErrorKind> {
    Ok(ExecutionResult {
        exit_success: true,
        stdout: stdout.as_bytes().to_vec(),
        stderr: Vec::new(),
    })
}

fn failed(stderr: &str) -> Result<ExecutionResult, ErrorKind> {
    Ok(ExecutionResult {
        exit_success: false,
        stdout: Vec::new(),
        stderr: stderr.as_bytes().to_vec(),
    })
}

fn not_started() -> Result<ExecutionResult, ErrorKind> {
    Err(ErrorKind::SpawnFailed { detail: "program not found".to_string() })
}

/// Runs an exclusive chain against results that are known beforehand and
/// records which strategies were tried, in order.
fn run_exclusive(passes: &[bool]) -> (Vec<usize>, Chain) {
    let mut chain = Chain::new(Discipline::Exclusive, passes.len());
    let mut tried = Vec::new();
    while let Some(index) = chain.next_strategy() {
        tried.push(index);
        chain.observe(passes[index]);
    }
    (tried, chain)
}

#[test]
fn an_exclusive_chain_stops_at_the_first_success() {
    let (tried, chain) = run_exclusive(&[false, false, true, true, false]);
    assert_eq!(tried, vec![0, 1, 2]);
    assert_eq!(chain.winner, Some(2));
    assert_eq!(chain.next, 3);
    let (tried, chain) = run_exclusive(&[true, false]);
    assert_eq!(tried, vec![0]);
    assert_eq!(chain.winner, Some(0));
}

#[test]
fn an_exclusive_chain_without_success_tries_all() {
    let (tried, chain) = run_exclusive(&[false, false, false]);
    assert_eq!(tried, vec![0, 1, 2]);
    assert_eq!(chain.winner, None);
    assert_eq!(chain.next_strategy(), None);
    let (tried, _) = run_exclusive(&[]);
    assert!(tried.is_empty());
}

#[test]
fn an_additive_chain_tries_all_whatever_comes() {
    let mut chain = Chain::new(Discipline::Additive, 3);
    let mut tried = Vec::new();
    while let Some(index) = chain.next_strategy() {
        tried.push(index);
        chain.observe(index == 0);
    }
    assert_eq!(tried, vec![0, 1, 2]);
    assert_eq!(chain.winner, Some(0));
}

#[test]
fn observing_a_finished_chain_changes_nothing() {
    let mut chain = Chain::new(Discipline::Exclusive, 1);
    chain.observe(true);
    chain.observe(false);
    assert_eq!(chain.next, 1);
    assert_eq!(chain.winner, Some(0));
}

fn share(name: &str, path: &str) -> ShareInfo {
    ShareInfo {
        name: name.to_string(),
        path: path.to_string(),
        description: String::new(),
        state: "Online".to_string(),
        share_type: "Network Drive".to_string(),
        current_users: 1,
    }
}

#[test]
fn merging_by_path_keeps_each_path_once() {
    let mut found = vec![share("A", "\\\\s\\one"), share("B", "\\\\s\\two")];
    let incoming = vec![
        share("C", "\\\\s\\two"),
        share("D", "\\\\s\\three"),
        share("E", "\\\\s\\three"),
        share("F", "\\\\s\\one"),
    ];
    merge_shares(&mut found, &incoming);
    let names: Vec<&str> = found.iter().map(|s| s.name.as_str()).collect();
    assert_eq!(names, vec!["A", "B", "D"]);
    let mut paths: Vec<&str> = found.iter().map(|s| s.path.as_str()).collect();
    paths.sort();
    paths.dedup();
    assert_eq!(paths.len(), 3);
}

#[test]
fn a_drive_listed_again_on_a_new_path_is_kept() {
    let mut found = vec![share("Z:", "\\\\s\\one")];
    merge_shares(&mut found, &vec![share("Z:", "\\\\s\\other"), share("Y:", "\\\\s\\one")]);
    let seen: Vec<(&str, &str)> = found.iter().map(|s| (s.name.as_str(), s.path.as_str())).collect();
    assert_eq!(seen, vec![("Z:", "\\\\s\\one"), ("Z:", "\\\\s\\other")]);
}

#[test]
fn two_drives_on_one_path_give_that_path_once() {
    let outcomes = vec![
        ran("OK   Z:   \\\\nas\\media   Microsoft Windows Network\r\nOK   Y:   \\\\nas\\media   Microsoft Windows Network\r\nOK   X:   \\\\nas\\docs   Microsoft Windows Network\r\n"),
        ran("[{\"DeviceID\":\"X:\",\"ProviderName\":\"\\\\\\\\nas\\\\new\"},{\"DeviceID\":\"W:\",\"ProviderName\":\"\\\\\\\\nas\\\\docs\"}]"),
    ];
    let shares = list_shares_response(&outcomes);
    let seen: Vec<(&str, &str)> = shares.iter().map(|s| (s.name.as_str(), s.path.as_str())).collect();
    assert_eq!(
        seen,
        vec![("Z:", "\\\\nas\\media"), ("X:", "\\\\nas\\docs"), ("X:", "\\\\nas\\new")]
    );
}

#[test]
fn the_server_of_a_path_stands_after_two_backslashes() {
    assert_eq!(server_name("\\\\fileserver\\public", "none"), "fileserver");
    assert_eq!(server_name("\\\\fileserver", "none"), "fileserver");
    assert_eq!(server_name("C:\\data", "none"), "none");
    assert_eq!(server_name("", "none"), "none");
    assert_eq!(server_name("\\\\", "none"), "");
}

#[test]
fn mapped_drives_are_read_from_the_list() {
    let output = "New connections will be remembered.\r\n\r\nStatus       Local     Remote                    Network\r\n\r\n-------------------------------------------------------------------------------\r\nOK           Z:        \\\\nas\\media               Microsoft Windows Network\r\nDisconnected Y:        \\\\old\\share               Microsoft Windows Network\r\n                       \\\\nas\\nodrive             Microsoft Windows Network\r\nThe command completed successfully.\r\n";
    let shares = shares_from_net_use(output);
    assert_eq!(shares.len(), 2);
    assert_eq!(shares[0].name, "Z:");
    assert_eq!(shares[0].path, "\\\\nas\\media");
    assert_eq!(shares[0].description, "Lecteur r\u{e9}seau sur nas");
    assert_eq!(shares[0].state, "Online");
    assert_eq!(shares[0].share_type, "Network Drive");
    assert_eq!(shares[0].current_users, 1);
    assert_eq!(shares[1].name, "Y:");
}

#[test]
fn eight_sources_are_asked_in_a_fixed_order() {
    let commands = list_shares_commands();
    assert_eq!(commands.len(), 8);
    assert_eq!(commands[0].program, "net");
    assert_eq!(commands[0].command_line(), vec!["use".to_string()]);
    assert!(commands[0].inline_script.is_none());
    for command in &commands[1..] {
        assert_eq!(command.program, "powershell");
        assert_eq!(command.arguments, vec!["-Command".to_string()]);
    }
    assert!(commands[1].inline_script.as_ref().unwrap().contains("Win32_LogicalDisk"));
    assert!(commands[5].inline_script.as_ref().unwrap().contains("net view"));
    assert!(commands[7].inline_script.as_ref().unwrap().contains("LastVisitedPidlMRU"));
}

#[test]
fn the_sources_are_united_without_duplicates() {
    let outcomes = vec![
        ran("OK           Z:        \\\\nas\\media     Microsoft Windows Network\r\n"),
        ran("[{\"DeviceID\":\"Z:\",\"ProviderName\":\"\\\\\\\\nas\\\\media\",\"VolumeName\":\"Media\"},{\"DeviceID\":\"Y:\",\"ProviderName\":\"\\\\\\\\nas\\\\docs\",\"VolumeName\":null},{\"DeviceID\":\"X:\",\"ProviderName\":null}]"),
        failed("boom"),
        ran("{\"Name\":\"R\u{e9}seau-1\",\"Path\":\"\\\\\\\\nas\\\\docs\",\"Type\":\"Network Location\"}"),
        ran("[{\"Name\":\"R\u{e9}cent-1\",\"Path\":\"\\\\\\\\srv\\\\tmp\",\"Type\":\"Recent Network\"},{\"Name\":\"R\u{e9}cent-2\",\"Path\":\"\\\\\\\\srv\\\\tmp\",\"Type\":\"Recent Network\"}]"),
        not_started(),
        ran("this is no json"),
        ran("[{\"Name\":\"Historique-1\",\"Path\":\"\\\\\\\\srv\\\\tmp\",\"Type\":\"Explorer History\"},{\"Name\":\"Historique-2\",\"Path\":\"\\\\\\\\far\\\\away\",\"Type\":\"Explorer History\"}]"),
    ];
    let shares = list_shares_response(&outcomes);
    let names: Vec<&str> = shares.iter().map(|s| s.name.as_str()).collect();
    assert_eq!(names, vec!["Z:", "Y:", "R\u{e9}cent-1", "Historique-2"]);
    assert_eq!(shares[1].path, "\\\\nas\\docs");
    assert_eq!(shares[1].description, "Lecteur r\u{e9}seau sur nas");
    assert_eq!(shares[2].state, "Recent");
    assert_eq!(shares[2].description, "Emplacement r\u{e9}cent sur srv");
    assert_eq!(shares[2].current_users, 0);
    assert_eq!(shares[3].state, "Historical");
    assert_eq!(shares[3].description, "Historique de navigation vers far");
    assert_eq!(shares[3].share_type, "Explorer History");
}

#[test]
fn locations_of_the_explorer_and_computers_of_the_network() {
    let mut outcomes: Vec<Result<ExecutionResult, ErrorKind>> = Vec::new();
    outcomes.push(ran(""));
    outcomes.push(ran(""));
    outcomes.push(ran("[{\"DeviceID\":\"V:\",\"ProviderName\":\"\\\\\\\\box\\\\v\",\"VolumeName\":\"Vol\",\"DriveType\":3},{\"DeviceID\":\"W:\"}]"));
    outcomes.push(ran(""));
    outcomes.push(ran(""));
    outcomes.push(ran("{\"Name\":\"\\\\\\\\PC1\",\"Path\":\"\\\\\\\\PC1\",\"Type\":\"Network Computer\",\"Description\":\"Poste 1\"}"));
    let shares = list_shares_response(&outcomes);
    assert_eq!(shares.len(), 3);
    assert_eq!(shares[0].description, "Vol sur box");
    assert_eq!(shares[0].share_type, "Network Location (Type 3)");
    assert_eq!(shares[1].path, "Emplacement r\u{e9}seau");
    assert_eq!(shares[1].description, "Emplacement r\u{e9}seau W:");
    assert_eq!(shares[1].share_type, "Network Location (Type 4)");
    assert_eq!(shares[2].description, "Poste 1");
    assert_eq!(shares[2].state, "Available");
}

#[test]
fn nothing_is_found_where_every_source_fails() {
    let outcomes: Vec<Result<ExecutionResult, ErrorKind>> = (0..8).map(|_| not_started()).collect();
    assert!(list_shares_response(&outcomes).is_empty());
    assert!(list_shares_response(&Vec::new()).is_empty());
}

#[test]
fn share_states_and_types_have_names() {
    assert_eq!(parse_share_state(0), "Offline");
    assert_eq!(parse_share_state(1), "Online");
    assert_eq!(parse_share_state(2), "Paused");
    assert_eq!(parse_share_state(3), "\u{c9}tat 3");
    assert_eq!(parse_share_state(4294967295), "\u{c9}tat 4294967295");
    assert_eq!(parse_share_type(0), "Disk");
    assert_eq!(parse_share_type(1), "Print");
    assert_eq!(parse_share_type(2), "Device");
    assert_eq!(parse_share_type(3), "IPC");
    assert_eq!(parse_share_type(4), "Type 4");
}

#[test]
fn a_drive_is_mapped_after_its_letter_was_found_free() {
    let (state, check) = match create_share_begin("Z:", "\\\\nas\\media") {
        Step::Run(state, invocation) => (state, invocation),
        Step::Done(_) => panic!("the letter must be looked up"),
    };
    assert_eq!(
        check.inline_script.unwrap(),
        "Get-PSDrive -Name \"Z\" -ErrorAction SilentlyContinue"
    );
    let map = match share_change_resume(state, ran("")) {
        Step::Run(ShareChange::Changing, invocation) => invocation,
        _ => panic!("the drive must be mapped"),
    };
    assert_eq!(map.program, "cmd");
    assert_eq!(
        map.command_line(),
        vec!["/c".to_string(), "net use Z: \"\\\\nas\\media\" /persistent:yes".to_string()]
    );
    assert!(matches!(share_change_resume(ShareChange::Changing, ran("")), Step::Done(Ok(()))));
}

#[test]
fn a_letter_in_use_is_not_mapped_again() {
    let state = match create_share_begin("Z:", "\\\\nas\\media") {
        Step::Run(state, _) => state,
        Step::Done(_) => panic!("the letter must be looked up"),
    };
    match share_change_resume(state, ran("Name Used\n---- ----\nZ    1.0\n")) {
        Step::Done(Err(ErrorKind::Unavailable { detail })) => {
            assert_eq!(detail, "La lettre de lecteur 'Z:' est d\u{e9}j\u{e0} utilis\u{e9}e")
        }
        _ => panic!("the mapping must be refused"),
    }
}

#[test]
fn mapping_refuses_bad_parameters_before_anything_is_run() {
    for name in ["Z", "ZZ:", "1:", "", ":Z", "Z:\\"] {
        assert!(matches!(
            create_share_begin(name, "\\\\nas\\media"),
            Step::Done(Err(ErrorKind::InvalidArgument { .. }))
        ));
    }
    for path in ["nas\\media", "\\nas", "", "\\\\nas\\me\"dia", "\\\\nas\\%TEMP%"] {
        assert!(matches!(
            create_share_begin("Z:", path),
            Step::Done(Err(ErrorKind::InvalidArgument { .. }))
        ));
    }
    assert!(matches!(delete_share_begin("ZZ"), Step::Done(Err(ErrorKind::InvalidArgument { .. }))));
}

#[test]
fn a_drive_is_unmapped_only_where_it_exists() {
    let state = match delete_share_begin("y:") {
        Step::Run(state, _) => state,
        Step::Done(_) => panic!("the letter must be looked up"),
    };
    match share_change_resume(state, ran("")) {
        Step::Done(Err(ErrorKind::Unavailable { detail })) => {
            assert_eq!(detail, "Le lecteur 'y:' n'existe pas")
        }
        _ => panic!("the unmapping must be refused"),
    }
    let state = match delete_share_begin("y:") {
        Step::Run(state, _) => state,
        Step::Done(_) => panic!("the letter must be looked up"),
    };
    let unmap = match share_change_resume(state, ran("y")) {
        Step::Run(ShareChange::Changing, invocation) => invocation,
        _ => panic!("the drive must be unmapped"),
    };
    assert_eq!(unmap.inline_script.unwrap(), "net use y: /delete /y");
    match share_change_resume(ShareChange::Changing, failed("The network connection could not be found.")) {
        Step::Done(Err(ErrorKind::ExternalToolFailed { stderr })) => {
            assert_eq!(stderr, "The network connection could not be found.")
        }
        _ => panic!("the failure must be reported"),
    }
}
