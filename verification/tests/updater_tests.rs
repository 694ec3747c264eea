use winadmin_core::command::Interpreter;
use winadmin_core::error::ErrorKind;
use winadmin_core::execution::ExecutionResult;
use winadmin_core::updater::{
    check_for_updates_command, check_for_updates_response, download_file_name,
    download_update_command, download_update_response, file_extension,
    get_current_version_command, get_current_version_response, install_update_command,
    install_update_response, is_newer_version, restart_app_command, restart_app_response,
};

fn ran(stdout: &str) -> Result<ExecutionResult, ErrorKind> {
    Ok(ExecutionResult {
        exit_success: true,
        stdout: stdout.as_bytes().to_vec(),
        stderr: Vec::new(),
    })
}

fn failed(stderr: &str) -> Result<ExecutionResult, ErrorKind> {
    Ok(ExecutionResult {
        exit_success: false,
        stdout: Vec::new(),
        stderr: stderr.as_bytes().to_vec(),
    })
}

fn not_started() -> Result<ExecutionResult, ErrorKind> {
    Err(ErrorKind::SpawnFailed { detail: "program not found".to_string() })
}

#[test]
fn versions_are_compared_number_by_number() {
    assert!(is_newer_version("1.1.0", "1.0.0"));
    assert!(is_newer_version("1.0.1", "1.0.0"));
    assert!(is_newer_version("2.0", "1.9.9"));
    assert!(is_newer_version("1.0.0.1", "1.0.0"));
    assert!(is_newer_version("1.10.0", "1.9.0"));
    assert!(!is_newer_version("1.0.0", "1.0.0"));
    assert!(!is_newer_version("1.0", "1.0.0"));
    assert!(!is_newer_version("1.0.0", "1.0"));
    assert!(!is_newer_version("0.9.9", "1.0.0"));
    assert!(!is_newer_version("", ""));
    assert!(is_newer_version("1", ""));
    assert!(!is_newer_version("", "1"));
}

#[test]
fn pieces_that_are_no_numbers_do_not_count() {
    assert!(!is_newer_version("1.0.0-beta", "1.0"));
    assert!(is_newer_version("1.x.5", "1.4"));
    assert!(!is_newer_version("v2.0.0", "1.0.0"));
    assert!(is_newer_version("+2.0", "1.5"));
    assert!(!is_newer_version("4294967296.0", "1.0"));
    assert!(is_newer_version("4294967295", "4294967294"));
}

#[test]
fn the_version_that_runs_has_a_default() {
    assert_eq!(get_current_version_response(ran(" 1.4.2\r\n")), "1.4.2");
    assert_eq!(get_current_version_response(ran("")), "1.0.0");
    assert_eq!(get_current_version_response(failed("x")), "1.0.0");
    assert_eq!(get_current_version_response(not_started()), "1.0.0");
    let windows = get_current_version_command(true);
    assert_eq!(windows.interpreter, Interpreter::PowerShell);
    assert_eq!(windows.arguments, vec!["-NoProfile", "-ExecutionPolicy", "Bypass", "-Command"]);
    let others = get_current_version_command(false);
    assert_eq!(others.interpreter, Interpreter::Bash);
    assert_eq!(others.program, "bash");
    assert_eq!(others.arguments, vec!["-c"]);
}

const RELEASES: &str = "[{\"tag_name\":\"v1.3.0-rc1\",\"name\":\"Next\",\"body\":\"\",\"published_at\":\"2025-05-01\",\"assets\":[],\"prerelease\":true},{\"tag_name\":\"v1.2.0\",\"name\":\"Version 1.2\",\"body\":\"## Changes\\n- Faster lists\\n  * nested star\\n* Fixed crash\\nThanks!\\n-- double\",\"published_at\":\"2025-04-15\",\"assets\":[{\"name\":\"notes.txt\",\"browser_download_url\":\"https://x/notes.txt\",\"size\":10},{\"name\":\"setup_1.2.0.exe\",\"browser_download_url\":\"https://x/setup_1.2.0.exe\",\"size\":25690112},{\"name\":\"setup.msi\",\"browser_download_url\":\"https://x/setup.msi\",\"size\":1}]},{\"tag_name\":\"v1.1.0\",\"name\":\"Old\",\"body\":\"\",\"published_at\":\"2025-01-01\",\"assets\":[]}]";

#[test]
fn the_latest_stable_release_is_offered() {
    let check = check_for_updates_response("1.0.0", ran(RELEASES)).unwrap();
    assert!(check.update_available);
    assert_eq!(check.current_version, "1.0.0");
    assert_eq!(check.latest_version, "1.2.0");
    let info = check.update_info.unwrap();
    assert_eq!(info.version, "1.2.0");
    assert_eq!(info.url, "https://x/setup_1.2.0.exe");
    assert_eq!(info.release_date, "2025-04-15");
    assert_eq!(info.description, "Version 1.2");
    assert!(!info.is_critical);
    assert_eq!(info.size_bytes, 25690112);
    assert_eq!(info.changes, vec!["Faster lists", "* nested star", "Fixed crash", "double"]);
}

#[test]
fn a_version_that_is_current_is_offered_nothing() {
    let check = check_for_updates_response("1.2.0", ran(RELEASES)).unwrap();
    assert!(!check.update_available);
    assert_eq!(check.latest_version, "1.2.0");
    assert!(check.update_info.is_none());
    let none = check_for_updates_response("1.0.0", ran("[]")).unwrap();
    assert!(!none.update_available);
    assert_eq!(none.latest_version, "1.0.0");
}

#[test]
fn a_release_without_installer_is_described_without_address() {
    let check = check_for_updates_response(
        "1.0.0",
        ran("{\"tag_name\":\"2.0\",\"name\":\"Two\",\"body\":\"- a\",\"published_at\":\"d\",\"assets\":[{\"name\":\"src.zip\",\"browser_download_url\":\"u\",\"size\":5}],\"prerelease\":true}"),
    )
    .unwrap();
    assert!(check.update_available);
    let info = check.update_info.unwrap();
    assert_eq!(info.url, "");
    assert_eq!(info.size_bytes, 0);
    assert_eq!(info.changes, vec!["Consultez les notes de version sur GitHub"]);
}

#[test]
fn errors_of_the_release_service_are_told_apart() {
    let limited = check_for_updates_response(
        "1.0.0",
        ran("{\"message\":\"API rate limit exceeded for 1.2.3.4\",\"documentation_url\":\"https://docs\"}"),
    )
    .unwrap();
    assert!(!limited.update_available);
    assert_eq!(limited.latest_version, "1.0.0");
    match check_for_updates_response("1.0.0", ran("{\"message\":\"Not Found\",\"documentation_url\":\"https://docs\"}")) {
        Err(ErrorKind::Unavailable { detail }) => assert_eq!(detail, "Erreur de l'API GitHub: Not Found"),
        _ => panic!("the error must be reported"),
    }
    match check_for_updates_response("1.0.0", ran("\"message\": \"documentation_url\": broken")) {
        Err(ErrorKind::Unavailable { detail }) => {
            assert_eq!(detail, "Erreur de l'API GitHub: Impossible d'analyser la r\u{e9}ponse")
        }
        _ => panic!("the error must be reported"),
    }
    assert!(matches!(
        check_for_updates_response("1.0.0", ran("[{\"tag_name\":\"v2\"}]")),
        Err(ErrorKind::MalformedOutput { .. })
    ));
    assert!(matches!(
        check_for_updates_response("1.0.0", failed("offline")),
        Err(ErrorKind::ExternalToolFailed { .. })
    ));
    let windows = check_for_updates_command("https://example.org/releases", true).inline_script.unwrap();
    assert!(windows.starts_with("$ReleasesUrl = 'https://example.org/releases';"));
    assert!(windows.contains("Invoke-RestMethod -Uri $ReleasesUrl -Headers $headers -Method Get"));
    let others = check_for_updates_command("https://example.org/it's", false).inline_script.unwrap();
    assert!(others.starts_with("RELEASES_URL='https://example.org/it'\\''s';"));
    assert!(others.contains("-H \"User-Agent: WindowsAdminTool/1.0\" \"$RELEASES_URL\")"));
}

#[test]
fn a_download_is_named_after_the_end_of_its_address() {
    assert_eq!(download_file_name("https://x/y/setup.exe"), "setup.exe");
    assert_eq!(download_file_name("setup.exe"), "setup.exe");
    assert_eq!(download_file_name("https://x/y/"), "");
    assert_eq!(download_file_name(""), "");
}

#[test]
fn the_download_command_sets_its_values_as_literals() {
    let windows = download_update_command("https://x/it's.exe", "C:\\Temp\\u", "C:\\Temp\\u\\it's.exe", true).unwrap();
    let script = windows.inline_script.unwrap();
    assert!(script.starts_with("$UpdateUrl = 'https://x/it''s.exe'; $TempDirGiven = 'C:\\Temp\\u'; $DownloadPathGiven = 'C:\\Temp\\u\\it''s.exe';"));
    assert!(script.contains("Invoke-WebRequest -Uri $UpdateUrl -OutFile $DownloadPath -UseBasicParsing"));
    assert!(!script.contains("{0}"));
    assert!(!script.contains("{{"));
    let others = download_update_command("https://x/it's.exe", "/tmp/u", "/tmp/u/it's.exe", false).unwrap();
    let script = others.inline_script.unwrap();
    assert!(script.starts_with("UPDATE_URL='https://x/it'\\''s.exe'; DOWNLOAD_PATH='/tmp/u/it'\\''s.exe';"));
    assert!(script.contains("curl -s -L -o \"$DOWNLOAD_PATH\" \"$UPDATE_URL\""));
    match download_update_command("", "t", "p", true) {
        Err(ErrorKind::InvalidArgument { detail }) => assert_eq!(detail, "URL de t\u{e9}l\u{e9}chargement vide"),
        _ => panic!("the empty address must be refused"),
    }
}

#[test]
fn the_report_of_a_download_is_read_past_its_diagnostics() {
    let done = download_update_response(
        ran("D\u{e9}but du t\u{e9}l\u{e9}chargement depuis https://x ...\r\n{\r\n  \"Success\": true,\r\n  \"FilePath\": \"C:\\\\t\\\\s.exe\",\r\n  \"Message\": \"T\u{e9}l\u{e9}chargement r\u{e9}ussi. Taille du fichier: 12 KB\"\r\n}\r\n"),
        "C:\\t\\s.exe",
        false,
    )
    .unwrap();
    assert!(done.success);
    assert_eq!(done.file_path, "C:\\t\\s.exe");
    assert_eq!(done.message, "T\u{e9}l\u{e9}chargement r\u{e9}ussi. Taille du fichier: 12 KB");
    let bare = download_update_response(ran("{}"), "p", false).unwrap();
    assert!(!bare.success);
    assert_eq!(bare.message, "T\u{e9}l\u{e9}chargement termin\u{e9}");
    let unread = download_update_response(ran("no report"), "p", true).unwrap();
    assert!(unread.success);
    assert_eq!(unread.message, "T\u{e9}l\u{e9}chargement r\u{e9}ussi (parsing JSON \u{e9}chou\u{e9})");
    assert!(matches!(download_update_response(ran("no report"), "p", false), Err(ErrorKind::MalformedOutput { .. })));
    assert!(matches!(download_update_response(failed("404"), "p", true), Err(ErrorKind::ExternalToolFailed { .. })));
}

#[test]
fn the_extension_of_a_file_is_what_follows_its_last_point() {
    assert_eq!(file_extension("C:\\Temp\\setup.MSI"), "msi");
    assert_eq!(file_extension("/tmp/a.b/setup.tar.Exe"), "exe");
    assert_eq!(file_extension("/tmp/a.b/setup"), "");
    assert_eq!(file_extension(".hidden"), "");
    assert_eq!(file_extension("dir/.hidden"), "");
    assert_eq!(file_extension("dir/.hidden.msi"), "msi");
    assert_eq!(file_extension("name."), "");
    assert_eq!(file_extension(""), "");
}

#[test]
fn only_installers_that_exist_are_installed() {
    let msi = install_update_command("C:\\t\\s.msi", true, true).unwrap().inline_script.unwrap();
    assert!(msi.starts_with("$FilePathGiven = 'C:\\t\\s.msi';"));
    assert!(msi.contains("msiexec.exe"));
    let exe = install_update_command("/t/s.EXE", true, false).unwrap().inline_script.unwrap();
    assert!(exe.starts_with("FILE_PATH='/t/s.EXE';"));
    assert!(exe.contains("chmod +x \"$FILE_PATH\""));
    match install_update_command("C:\\t\\s.zip", true, true) {
        Err(ErrorKind::InvalidArgument { detail }) => assert_eq!(detail, "Type de fichier non pris en charge: zip"),
        _ => panic!("the file must be refused"),
    }
    match install_update_command("C:\\t\\s.msi", false, true) {
        Err(ErrorKind::Unavailable { detail }) => {
            assert_eq!(detail, "Le fichier de mise \u{e0} jour n'existe pas: C:\\t\\s.msi")
        }
        _ => panic!("the missing file must be reported"),
    }
}

#[test]
fn the_report_of_an_installation_is_read() {
    let done = install_update_response(ran("V\u{e9}rification du fichier x\r\n{\"Success\":true,\"Message\":\"Installation MSI r\u{e9}ussie, red\u{e9}marrage requis\",\"RestartRequired\":true}")).unwrap();
    assert!(done.success);
    assert!(done.restart_required);
    assert_eq!(done.message, "Installation MSI r\u{e9}ussie, red\u{e9}marrage requis");
    let bare = install_update_response(ran("{\"Success\":\"yes\"}")).unwrap();
    assert!(!bare.success);
    assert!(!bare.restart_required);
    assert_eq!(bare.message, "Installation termin\u{e9}e");
    assert!(matches!(install_update_response(ran("")), Err(ErrorKind::MalformedOutput { .. })));
    assert!(matches!(install_update_response(failed("x")), Err(ErrorKind::ExternalToolFailed { .. })));
}

#[test]
fn a_new_start_is_scheduled() {
    assert!(restart_app_command(true).inline_script.unwrap().contains("Start-Process -FilePath \"powershell.exe\""));
    assert!(restart_app_command(false).inline_script.unwrap().contains("RESTART_SCRIPT"));
    assert!(restart_app_response(ran("")).is_ok());
    assert!(restart_app_response(failed("x")).is_err());
}
