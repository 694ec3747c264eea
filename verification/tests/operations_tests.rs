use winadmin_core::error::ErrorKind;
use winadmin_core::json::JsonValue;
use winadmin_core::network::address_map_of;
use winadmin_core::operations::build;
use winadmin_core::sizes::size_from_parts;
use winadmin_core::validate::{check_share_path, is_named, parse_mapped_drive, supported_file_system};

fn text(value: &str) -> JsonValue {
    JsonValue::Text(value.to_string())
}

fn object(members: Vec<(&str, JsonValue)>) -> JsonValue {
    JsonValue::Object(members.into_iter().map(|(k, v)| (k.to_string(), v)).collect())
}

fn script(operation: &str, params: &JsonValue) -> String {
    build(operation, params).unwrap().inline_script.unwrap()
}

#[test]
fn an_unknown_operation_has_no_template() {
    for name in ["", "list_everything", "LIST_DEVICES", "list_devices ", "list_disks"] {
        match build(name, &JsonValue::Null) {
            Err(ErrorKind::UnsupportedTemplate { operation }) => assert_eq!(operation, name),
            _ => panic!("no template must be found"),
        }
    }
}

#[test]
fn templates_without_parameters_ignore_what_is_given() {
    assert_eq!(
        script("list_local_groups", &JsonValue::Null),
        "Get-LocalGroup | Select-Object Name, Description, SID | ConvertTo-Json -Depth 3 -Compress"
    );
    assert_eq!(script("clear_recycle_bin", &object(vec![("x", text("y"))])), "Clear-RecycleBin -Force");
    let restart = build("restart_computer", &JsonValue::Null).unwrap();
    assert_eq!(restart.program, "shutdown");
    assert_eq!(restart.command_line(), vec!["/r", "/t", "0", "/f"]);
    let bypass = build("install_defender_updates", &JsonValue::Null).unwrap();
    assert_eq!(bypass.arguments.len(), 3);
}

#[test]
fn a_text_parameter_is_found_by_its_name() {
    assert_eq!(
        script("start_service", &object(vec![("other", text("x")), ("service_name", text("Spooler"))])),
        "Start-Service -Name \"Spooler\""
    );
    assert_eq!(
        script("search_ad_groups", &object(vec![("filter", text("adm*"))])),
        "Get-ADGroup -Filter { Name -like \"*adm*\" -or SamAccountName -like \"*adm*\" } | Select-Object SamAccountName, Name, GroupCategory, GroupScope, SID | ConvertTo-Json -Depth 3 -Compress"
    );
    for params in [
        JsonValue::Null,
        object(vec![]),
        object(vec![("service_name", JsonValue::Integer(5))]),
        object(vec![("Service_Name", text("x"))]),
        JsonValue::Array(vec![text("x")]),
    ] {
        match build("start_service", &params) {
            Err(ErrorKind::InvalidArgument { detail }) => {
                assert_eq!(detail, "param\u{e8}tre manquant ou invalide: service_name")
            }
            _ => panic!("the parameter must be refused"),
        }
    }
}

#[test]
fn a_template_validates_what_it_is_given() {
    let zz = object(vec![("drive_letter", text("ZZ")), ("file_system", text("NTFS"))]);
    match build("format_disk", &zz) {
        Err(ErrorKind::InvalidArgument { detail }) => assert_eq!(detail, "Lettre de lecteur invalide"),
        _ => panic!("the drive must be refused"),
    }
    let ext = object(vec![("drive_letter", text("C")), ("file_system", text("ext4"))]);
    match build("format_disk", &ext) {
        Err(ErrorKind::InvalidArgument { detail }) => {
            assert_eq!(detail, "Syst\u{e8}me de fichiers non support\u{e9} (NTFS, FAT32, EXFAT, REFS)")
        }
        _ => panic!("the file system must be refused"),
    }
    let fine = object(vec![("file_system", text("ntfs")), ("drive_letter", text("D:"))]);
    assert_eq!(script("format_disk", &fine), "Format-Volume -DriveLetter D -FileSystem NTFS -Force");
    assert!(matches!(
        build("format_disk", &object(vec![("drive_letter", text("D"))])),
        Err(ErrorKind::InvalidArgument { .. })
    ));
    assert!(matches!(
        build("enable_ad_account", &object(vec![("account_identity", text(" "))])),
        Err(ErrorKind::InvalidArgument { .. })
    ));
    assert!(matches!(
        build("create_restore_point", &object(vec![("description", text(""))])),
        Err(ErrorKind::InvalidArgument { .. })
    ));
}

#[test]
fn numbers_are_taken_within_their_range() {
    assert_eq!(
        script("terminate_process", &object(vec![("pid", JsonValue::Integer(4294967295))])),
        "Stop-Process -Id 4294967295 -Force -ErrorAction SilentlyContinue -PassThru | Select-Object -Property HasExited | ConvertTo-Json"
    );
    assert!(script("get_disk_partitions", &object(vec![("disk_number", JsonValue::Integer(0))])).starts_with("Get-Partition -DiskNumber 0 |"));
    for bad in [JsonValue::Integer(-1), JsonValue::Integer(4294967296), text("1"), JsonValue::Decimal("1.0".to_string()), JsonValue::Null] {
        assert!(matches!(
            build("terminate_process", &object(vec![("pid", bad)])),
            Err(ErrorKind::InvalidArgument { .. })
        ));
    }
}

#[test]
fn a_query_of_events_is_read_from_its_parameters() {
    let params = object(vec![
        ("log_name", text("System")),
        ("max_events", JsonValue::Integer(10)),
        ("level", JsonValue::Integer(3)),
        ("provider_name_filter", JsonValue::Null),
        ("event_id_filter", JsonValue::Integer(-7)),
        ("end_time", text("2024-12-31")),
    ]);
    assert!(script("get_events", &params).starts_with(
        "Get-WinEvent -FilterHashtable @{LogName='System'; Level=3; Id=-7; EndTime='2024-12-31'} -MaxEvents 10 "
    ));
    let missing = object(vec![("log_name", text("System"))]);
    match build("get_events", &missing) {
        Err(ErrorKind::InvalidArgument { detail }) => assert_eq!(detail, "param\u{e8}tre manquant ou invalide: max_events"),
        _ => panic!("the query must be refused"),
    }
    let level = object(vec![("log_name", text("System")), ("max_events", JsonValue::Integer(1)), ("level", JsonValue::Integer(256))]);
    match build("get_events", &level) {
        Err(ErrorKind::InvalidArgument { detail }) => assert_eq!(detail, "param\u{e8}tre manquant ou invalide: level"),
        _ => panic!("the query must be refused"),
    }
    let start = object(vec![("log_name", text("System")), ("max_events", JsonValue::Integer(1)), ("start_time", JsonValue::Bool(true))]);
    assert!(matches!(build("get_events", &start), Err(ErrorKind::InvalidArgument { .. })));
}

#[test]
fn a_user_is_built_from_named_parameters() {
    let params = object(vec![
        ("user_name", text("ann")),
        ("password", text("s3cret")),
        ("description", text("Compta")),
    ]);
    assert_eq!(
        script("add_local_user", &params),
        "$Password = ConvertTo-SecureString -String \"s3cret\" -AsPlainText -Force; New-LocalUser -Name \"ann\" -Password $Password -FullName \"\" -Description \"Compta\""
    );
    let empty = object(vec![("user_name", text("ann")), ("password", text(""))]);
    match build("add_local_user", &empty) {
        Err(ErrorKind::InvalidArgument { detail }) => assert_eq!(detail, "Le mot de passe ne peut pas \u{ea}tre vide."),
        _ => panic!("the password must be refused"),
    }
    let odd = object(vec![("user_name", text("ann")), ("password", text("x")), ("full_name", JsonValue::Integer(1))]);
    match build("add_local_user", &odd) {
        Err(ErrorKind::InvalidArgument { detail }) => assert_eq!(detail, "param\u{e8}tre manquant ou invalide: full_name"),
        _ => panic!("the name must be refused"),
    }
}

#[test]
fn the_first_member_of_a_name_counts() {
    let twice = object(vec![("task_path", text("\\one\\")), ("task_path", text("\\two\\"))]);
    assert_eq!(script("run_task", &twice), "Start-ScheduledTask -TaskPath \"\\one\\\"");
}

#[test]
fn an_address_map_must_be_an_object() {
    assert!(address_map_of(Some(object(vec![])), "{}").is_ok());
    for (decoding, line) in [(Some(JsonValue::Array(Vec::new())), "[]"), (Some(JsonValue::Null), "null"), (None, "oops")] {
        match address_map_of(decoding, line) {
            Err(ErrorKind::MalformedOutput { raw_snippet }) => assert_eq!(raw_snippet, line),
            _ => panic!("the line must be reported"),
        }
    }
}

#[test]
fn a_number_of_units_is_bytes() {
    let chars = |s: &str| s.chars().collect::<Vec<char>>();
    assert_eq!(size_from_parts(&chars("1.5"), &chars("MB")), 1572864);
    assert_eq!(size_from_parts(&chars("3"), &chars("mb")), 3);
    assert_eq!(size_from_parts(&chars("3"), &chars("")), 3);
    assert_eq!(size_from_parts(&chars("2.999"), &chars("B")), 2);
    assert_eq!(size_from_parts(&chars("0.9999999999999999999999999999"), &chars("KB")), 1023);
    assert_eq!(size_from_parts(&chars(""), &chars("KB")), 0);
    assert_eq!(size_from_parts(&chars("+1"), &chars("KB")), 0);
    assert_eq!(size_from_parts(&chars("1,5"), &chars("KB")), 0);
    assert_eq!(size_from_parts(&chars("00000000000000000000000000000000000001"), &chars("KB")), 1024);
}

#[test]
fn parameters_with_a_fixed_format_are_recognised() {
    assert!(supported_file_system("NTFS"));
    assert!(supported_file_system("REFS"));
    assert!(!supported_file_system("ntfs"));
    assert!(!supported_file_system(""));
    assert_eq!(parse_mapped_drive("Q:"), Some('Q'));
    assert_eq!(parse_mapped_drive("Q"), None);
    assert!(check_share_path("\\\\a\\b"));
    assert!(!check_share_path("\\a\\b"));
    assert!(is_named(" x "));
    assert!(!is_named("\u{2003}"));
}
