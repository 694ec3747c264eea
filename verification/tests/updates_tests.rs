use winadmin_core::error::ErrorKind;
use winadmin_core::execution::ExecutionResult;
use winadmin_core::flow::Step;
use winadmin_core::updates::{
    get_execution_policy_response, install_defender_updates_command,
    install_defender_updates_response, install_pswindowsupdate_module_begin,
    install_pswindowsupdate_module_resume, install_windows_updates_begin,
    install_windows_updates_resume, list_installed_updates_begin,
    list_installed_updates_resume, search_available_updates_begin,
    search_available_updates_resume, sort_unique, AvailableUpdateInfo, InstallPhase,
    InstalledSearch, InstalledUpdateInfo, ModuleInstall, OfferSearch, UpdateInstall,
};

fn ran(stdout: &str) -> Result<ExecutionResult, ErrorKind> {
    Ok(ExecutionResult {
        exit_success: true,
        stdout: stdout.as_bytes().to_vec(),
        stderr: Vec::new(),
    })
}

fn failed(stderr: &str) -> Result<ExecutionResult, ErrorKind> {
    Ok(ExecutionResult {
        exit_success: false,
        stdout: Vec::new(),
        stderr: stderr.as_bytes().to_vec(),
    })
}

fn not_started() -> Result<ExecutionResult, ErrorKind> {
    Err(ErrorKind::SpawnFailed { detail: "program not found".to_string() })
}

fn update(kb: &str, description: &str) -> InstalledUpdateInfo {
    InstalledUpdateInfo {
        kb_id: kb.to_string(),
        description: description.to_string(),
        installed_by: "x".to_string(),
        installed_on: "y".to_string(),
    }
}

/// Feeds the outcomes to the search one by one and records the scripts
/// that it asked for.
fn run_installed(outcomes: Vec<Result<ExecutionResult, ErrorKind>>) -> (Vec<String>, Vec<InstalledUpdateInfo>) {
    let (mut search, first): (InstalledSearch, _) = list_installed_updates_begin();
    let mut scripts = vec![first.inline_script.unwrap()];
    for outcome in outcomes {
        match list_installed_updates_resume(search, outcome) {
            Step::Run(next, invocation) => {
                assert_eq!(
                    invocation.arguments,
                    vec!["-ExecutionPolicy".to_string(), "Bypass".to_string(), "-Command".to_string()]
                );
                scripts.push(invocation.inline_script.unwrap());
                search = next;
            }
            Step::Done(result) => return (scripts, result),
        }
    }
    panic!("the search must end");
}

#[test]
fn one_entry_is_kept_for_each_identifier_in_their_order() {
    let items = vec![
        update("KB3", "first three"),
        update("KB1", "first one"),
        update("KB3", "second three"),
        update("KB2", "two"),
        update("KB1", "second one"),
    ];
    let kept = sort_unique(&items);
    let seen: Vec<(&str, &str)> = kept.iter().map(|u| (u.kb_id.as_str(), u.description.as_str())).collect();
    assert_eq!(seen, vec![("KB1", "first one"), ("KB2", "two"), ("KB3", "first three")]);
    assert!(sort_unique(&Vec::new()).is_empty());
}

#[test]
fn the_order_of_identifiers_is_that_of_their_characters() {
    let items = vec![update("KB10", "a"), update("KB9", "b"), update("EVT-19", "c"), update("", "d")];
    let kept = sort_unique(&items);
    let seen: Vec<&str> = kept.iter().map(|u| u.kb_id.as_str()).collect();
    assert_eq!(seen, vec!["", "EVT-19", "KB10", "KB9"]);
}

#[test]
fn the_history_spares_the_hotfixes() {
    let (scripts, result) = run_installed(vec![
        ran("[{\"Title\":\"Cumulative Update (KB5034441)\",\"Date\":\"2024-01-09T10:00:00\",\"KB\":\"KB5034441\"},{\"Description\":\"only described\",\"KB\":\"KB1\"}]"),
        ran("{\"HotFixID\":\"REG-LastInstall\",\"Description\":\"Derni\u{e8}re installation Windows Update\",\"InstalledBy\":\"Windows Update Service\",\"InstalledOn\":\"2024-01-10\"}"),
        ran("[{\"HotFixID\":\"KB5034441\",\"Description\":\"duplicate\",\"InstalledBy\":\"Windows Update Client\",\"InstalledOn\":\"2024-01-09T10:00:01\"},{\"HotFixID\":\"EVT-19\",\"Description\":\"e\",\"InstalledBy\":\"Windows Update Client\",\"InstalledOn\":\"t\"}]"),
    ]);
    assert_eq!(scripts.len(), 3);
    assert!(scripts[0].contains("Get-WUHistory"));
    assert!(scripts[1].contains("LastSuccessTime"));
    assert!(scripts[2].contains("WindowsUpdateClient/Operational"));
    let updates = result;
    let ids: Vec<&str> = updates.iter().map(|u| u.kb_id.as_str()).collect();
    assert_eq!(ids, vec!["EVT-19", "KB1", "KB5034441", "REG-LastInstall"]);
    assert_eq!(updates[1].description, "only described");
    assert_eq!(updates[1].installed_on, "N/A");
    assert_eq!(updates[2].description, "Cumulative Update (KB5034441)");
    assert_eq!(updates[2].installed_by, "Windows Update");
    assert_eq!(updates[2].installed_on, "2024-01-09T10:00:00");
}

#[test]
fn the_hotfixes_stand_in_where_the_history_cannot_serve() {
    for history in [
        ran("PSWindowsUpdate_NOT_AVAILABLE"),
        ran("PSWindowsUpdate_ERROR: boom"),
        ran(""),
        ran("null"),
        ran("[]"),
        ran("oops"),
        failed("x"),
        not_started(),
    ] {
        let (scripts, result) = run_installed(vec![
            history,
            ran("{\"HotFixID\":\"KB2\",\"InstalledOn\":{\"DateTime\":\"mardi\"}}"),
            failed("registry"),
            not_started(),
        ]);
        assert_eq!(scripts.len(), 4);
        assert!(scripts[1].contains("Win32_QuickFixEngineering"));
        let updates = result;
        assert_eq!(updates.len(), 1);
        assert_eq!(updates[0].kb_id, "KB2");
        assert_eq!(updates[0].description, "Hotfix Windows");
        assert_eq!(updates[0].installed_by, "Syst\u{e8}me");
        assert_eq!(updates[0].installed_on, "mardi");
    }
}

#[test]
fn a_source_that_fails_does_not_end_the_search() {
    for hotfixes in [failed("WMI is broken"), not_started()] {
        let (scripts, updates) = run_installed(vec![
            ran(""),
            hotfixes,
            ran("{\"HotFixID\":\"REG-LastInstall\",\"InstalledOn\":\"2024-01-10\"}"),
            ran("[{\"HotFixID\":\"KB7\",\"Description\":\"from the event log\"}]"),
        ]);
        assert_eq!(scripts.len(), 4);
        assert!(scripts[2].contains("LastSuccessTime"));
        assert!(scripts[3].contains("WindowsUpdateClient/Operational"));
        let ids: Vec<&str> = updates.iter().map(|u| u.kb_id.as_str()).collect();
        assert_eq!(ids, vec!["KB7", "REG-LastInstall"]);
        assert_eq!(updates[0].description, "from the event log");
    }
    let (scripts, updates) = run_installed(vec![not_started(), not_started(), not_started(), not_started()]);
    assert_eq!(scripts.len(), 4);
    assert!(updates.is_empty());
}

#[test]
fn hotfixes_that_cannot_be_read_are_no_failure() {
    let (_, result) = run_installed(vec![ran(""), ran("{{{"), ran(""), ran("")]);
    assert!(result.is_empty());
}

fn run_offers(outcomes: Vec<Result<ExecutionResult, ErrorKind>>) -> (usize, Result<Vec<AvailableUpdateInfo>, ErrorKind>) {
    let (mut search, _): (OfferSearch, _) = search_available_updates_begin();
    let mut asked = 1;
    for outcome in outcomes {
        match search_available_updates_resume(search, outcome) {
            Step::Run(next, _) => {
                asked += 1;
                search = next;
            }
            Step::Done(result) => return (asked, result),
        }
    }
    panic!("the search must end");
}

#[test]
fn offers_are_gathered_from_the_search_and_the_antivirus() {
    let (asked, result) = run_offers(vec![
        ran("ModuleType Version Name\n---------- ------- ----\nScript 2.2.1 PSWindowsUpdate\n"),
        ran("Module imported successfully"),
        ran("[{\"Title\":\"Update A\",\"KB\":\"KB1\",\"Size\":\"2 MB\",\"IsDownloaded\":true,\"IsInstalled\":false},{\"Title\":null,\"KB\":null,\"Size\":1},{\"KB\":\"KB2\",\"Size\":123},{\"Title\":\"No size\",\"Size\":null},{\"Title\":\"Odd size\",\"Size\":true}]"),
        ran("{\"Title\":\"Security Intelligence Update\",\"IsDownloaded\":false}"),
    ]);
    assert_eq!(asked, 4);
    let offers = result.unwrap();
    assert_eq!(offers.len(), 5);
    assert_eq!(offers[0].title, "Update A");
    assert_eq!(offers[0].kb_id, "KB1");
    assert_eq!(offers[0].size, 2097152);
    assert!(offers[0].is_downloaded);
    assert!(!offers[0].is_installed);
    assert_eq!(offers[1].title, "Mise \u{e0} jour sans titre");
    assert_eq!(offers[1].kb_id, "KB2");
    assert_eq!(offers[1].size, 123);
    assert_eq!(offers[2].kb_id, "N/A");
    assert_eq!(offers[2].size, 0);
    assert_eq!(offers[3].size, 0);
    assert_eq!(offers[4].title, "Security Intelligence Update");
    assert_eq!(offers[4].kb_id, "KB2267602");
    assert_eq!(offers[4].size, 15728640);
}

#[test]
fn a_failing_search_gives_no_offer_and_no_failure() {
    let (_, result) = run_offers(vec![ran("x"), ran("ok"), failed("no network"), ran("")]);
    assert!(result.unwrap().is_empty());
    let (_, result) = run_offers(vec![ran("x"), ran("ok"), ran("not json"), not_started()]);
    assert!(result.unwrap().is_empty());
}

#[test]
fn the_update_module_is_a_prerequisite() {
    for check in [ran(""), ran("  \n"), ran("Cannot find module")] {
        let (asked, result) = run_offers(vec![check]);
        assert_eq!(asked, 1);
        match result {
            Err(ErrorKind::Unavailable { detail }) => assert!(detail.starts_with("Le module PowerShell 'PSWindowsUpdate' n'est pas install\u{e9}.")),
            _ => panic!("the missing module must be reported"),
        }
    }
    let (asked, result) = run_offers(vec![ran("x"), failed("import failed")]);
    assert_eq!(asked, 2);
    match result {
        Err(ErrorKind::Unavailable { detail }) => {
            assert_eq!(detail, "Impossible d'importer le module PSWindowsUpdate. Erreur: import failed")
        }
        _ => panic!("the failed import must be reported"),
    }
    let (_, result) = run_offers(vec![not_started()]);
    assert!(matches!(result, Err(ErrorKind::SpawnFailed { .. })));
    let (asked, result) = run_offers(vec![
        ran("x"),
        ran("ok"),
        not_started(),
        ran("{\"Title\":\"Definitions\"}"),
    ]);
    assert_eq!(asked, 4);
    assert_eq!(result.unwrap().len(), 1);
}

fn run_module(outcomes: Vec<Result<ExecutionResult, ErrorKind>>) -> (Vec<String>, Result<String, ErrorKind>) {
    let (mut state, first): (ModuleInstall, _) = install_pswindowsupdate_module_begin();
    assert_eq!(state.phase, InstallPhase::Probing);
    let mut scripts = vec![first.inline_script.unwrap()];
    for outcome in outcomes {
        match install_pswindowsupdate_module_resume(state, outcome) {
            Step::Run(next, invocation) => {
                scripts.push(invocation.inline_script.unwrap());
                state = next;
            }
            Step::Done(result) => return (scripts, result),
        }
    }
    panic!("the installation must end");
}

#[test]
fn a_module_that_is_there_is_not_installed_again() {
    let (scripts, result) = run_module(vec![ran("{\"Name\":\"PSWindowsUpdate\"}")]);
    assert_eq!(scripts.len(), 1);
    assert_eq!(result.unwrap(), "Le module PSWindowsUpdate est d\u{e9}j\u{e0} install\u{e9}.");
}

#[test]
fn the_ways_of_installing_are_tried_in_order_until_one_works() {
    let (scripts, result) = run_module(vec![
        ran(""),
        failed("first way fails"),
        ran("second way runs"),
        ran("null"),
        ran("third way runs"),
        ran("{\"Name\":\"PSWindowsUpdate\"}"),
    ]);
    assert_eq!(scripts.len(), 6);
    assert!(scripts[1].starts_with("Set-ExecutionPolicy"));
    assert!(scripts[2].starts_with("Set-PSRepository"));
    assert_eq!(scripts[3], scripts[0]);
    assert!(scripts[4].starts_with("Install-PackageProvider"));
    assert_eq!(scripts[5], scripts[0]);
    assert_eq!(result.unwrap(), "Module PSWindowsUpdate install\u{e9} avec succ\u{e8}s (m\u{e9}thode 3).");
    let (scripts, result) = run_module(vec![ran("null"), ran("ok"), ran("found it")]);
    assert_eq!(scripts.len(), 3);
    assert_eq!(result.unwrap(), "Module PSWindowsUpdate install\u{e9} avec succ\u{e8}s (m\u{e9}thode 1).");
}

#[test]
fn the_installation_fails_where_no_way_works() {
    let (scripts, result) = run_module(vec![ran(""), not_started(), failed("x"), ran("ok"), not_started()]);
    assert_eq!(scripts.len(), 5);
    match result {
        Err(ErrorKind::Unavailable { detail }) => assert!(detail.starts_with("Impossible d'installer le module PSWindowsUpdate.")),
        _ => panic!("the failure must be reported"),
    }
    let (_, result) = run_module(vec![not_started()]);
    assert!(matches!(result, Err(ErrorKind::SpawnFailed { .. })));
}

#[test]
fn updates_are_installed_only_with_the_module() {
    let (state, check) = install_windows_updates_begin();
    assert_eq!(check.inline_script.unwrap(), "Get-Module -ListAvailable -Name PSWindowsUpdate | Select-Object -First 1");
    let install = match install_windows_updates_resume(state, ran("PSWindowsUpdate 2.2")) {
        Step::Run(UpdateInstall::Installing, invocation) => invocation,
        _ => panic!("the installation must be run"),
    };
    assert!(install.inline_script.unwrap().contains("Install-WindowsUpdate -MicrosoftUpdate -AcceptAll"));
    match install_windows_updates_resume(UpdateInstall::Installing, ran("[{\"Title\":\"a\"}]")) {
        Step::Done(Ok(message)) => assert_eq!(message, "Installation termin\u{e9}e:\n[{\"Title\":\"a\"}]"),
        _ => panic!("the report must be handed on"),
    }
    match install_windows_updates_resume(UpdateInstall::Installing, failed("denied")) {
        Step::Done(Err(ErrorKind::ExternalToolFailed { stderr })) => assert_eq!(stderr, "denied"),
        _ => panic!("the failure must be reported"),
    }
    match install_windows_updates_resume(UpdateInstall::CheckingModule, ran(" ")) {
        Step::Done(Err(ErrorKind::Unavailable { detail })) => {
            assert_eq!(detail, "Le module PSWindowsUpdate n'est pas install\u{e9}. Installez-le d'abord.")
        }
        _ => panic!("the missing module must be reported"),
    }
    for outcome in [failed("x"), not_started()] {
        match install_windows_updates_resume(UpdateInstall::CheckingModule, outcome) {
            Step::Done(Err(ErrorKind::Unavailable { detail })) => {
                assert_eq!(detail, "Impossible de v\u{e9}rifier la disponibilit\u{e9} du module PSWindowsUpdate.")
            }
            _ => panic!("the failed check must be reported"),
        }
    }
}

#[test]
fn antivirus_definitions_and_the_execution_policy() {
    assert_eq!(
        install_defender_updates_command().command_line(),
        vec!["-ExecutionPolicy", "Bypass", "-Command", "Update-MpSignature -Verbose | Out-String"]
    );
    assert_eq!(
        install_defender_updates_response(ran("done\n")).unwrap(),
        "Mise \u{e0} jour des d\u{e9}finitions de Microsoft Defender r\u{e9}ussie:\ndone\n"
    );
    assert!(matches!(
        install_defender_updates_response(failed("no")),
        Err(ErrorKind::ExternalToolFailed { .. })
    ));
    assert_eq!(get_execution_policy_response(ran(" RemoteSigned\r\n")).unwrap(), "RemoteSigned");
    assert!(matches!(
        get_execution_policy_response(failed("x")),
        Err(ErrorKind::Unavailable { .. })
    ));
}
