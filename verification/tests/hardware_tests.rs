use winadmin_core::error::ErrorKind;
use winadmin_core::execution::ExecutionResult;
use winadmin_core::flow::Step;
use winadmin_core::hardware::{
    first_val, get_gpu_dxdiag_response, get_gpu_wmi_response, get_hardware_info,
    get_hardware_info_commands, get_hardware_info_finish, get_wmi_json, push_gpu, read_report,
    GpuInfo, PhysicalMemory, Properties,
};

fn ran(stdout: &str) -> Result<ExecutionResult, ErrorKind> {
    Ok(ExecutionResult {
        exit_success: true,
        stdout: stdout.as_bytes().to_vec(),
        stderr: Vec::new(),
    })
}

fn failed(stderr: &str) -> Result<ExecutionResult, ErrorKind> {
    Ok(ExecutionResult {
        exit_success: false,
        stdout: Vec::new(),
        stderr: stderr.as_bytes().to_vec(),
    })
}

fn not_started() -> Result<ExecutionResult, ErrorKind> {
    Err(ErrorKind::SpawnFailed { detail: "program not found".to_string() })
}

fn properties(entries: &[(&str, &str)]) -> Properties {
    let mut map = Properties::new();
    for (key, value) in entries {
        map.insert(key.to_string(), value.to_string());
    }
    map
}

fn lines(text: &[&str]) -> Vec<String> {
    text.iter().map(|l| l.to_string()).collect()
}

#[test]
fn the_first_key_that_has_a_value_wins() {
    let map = properties(&[("b", "2"), ("a", "1"), ("c", "3")]);
    assert_eq!(first_val(&map, &["a", "b"]).unwrap(), "1");
    assert_eq!(first_val(&map, &["x", "c", "a"]).unwrap(), "3");
    assert!(first_val(&map, &["x", "y"]).is_none());
    assert!(first_val(&map, &[]).is_none());
    assert!(first_val(&Properties::new(), &["a"]).is_none());
}

#[test]
fn a_value_put_under_a_key_replaces_the_old_one() {
    let mut map = properties(&[("a", "1"), ("b", "2")]);
    map.insert("a".to_string(), "9".to_string());
    assert_eq!(map.entries.len(), 2);
    assert_eq!(map.get("a").unwrap(), "9");
    assert_eq!(map.get("b").unwrap(), "2");
    assert!(map.get("A").is_none());
    assert!(!map.is_empty());
}

#[test]
fn a_section_that_names_a_card_gives_a_card() {
    let mut list: Vec<GpuInfo> = Vec::new();
    push_gpu(&mut list, &properties(&[("Driver Version", "31.0.15"), ("Card name", "NVIDIA RTX"), ("Dedicated Memory", "8072 MB")]));
    push_gpu(&mut list, &properties(&[("Manufacturer", "x")]));
    push_gpu(&mut list, &properties(&[("Nom de la carte", "Intel UHD"), ("M\u{e9}moire d\u{e9}di\u{e9}e", "1,024 MB"), ("Approx. Total Memory", "9 MB")]));
    push_gpu(&mut list, &properties(&[("Nom du p\u{e9}riph\u{e9}rique", "Old"), ("Approx. Total Memory", "n/a")]));
    assert_eq!(list.len(), 3);
    assert_eq!(list[0].name, "NVIDIA RTX");
    assert_eq!(list[0].ram_bytes, 8072 * 1048576);
    assert_eq!(list[0].driver_version, "31.0.15");
    assert_eq!(list[1].name, "Intel UHD");
    assert_eq!(list[1].ram_bytes, 1024 * 1048576);
    assert_eq!(list[1].driver_version, "");
    assert_eq!(list[2].ram_bytes, 0);
}

#[test]
fn the_memory_of_a_card_is_capped() {
    let mut list: Vec<GpuInfo> = Vec::new();
    push_gpu(&mut list, &properties(&[("Card name", "a"), ("Dedicated Memory", "17592186044415 MB")]));
    push_gpu(&mut list, &properties(&[("Card name", "b"), ("Dedicated Memory", "17592186044416 MB")]));
    assert_eq!(list[0].ram_bytes, 17592186044415 * 1048576);
    assert_eq!(list[1].ram_bytes, u64::MAX);
}

#[test]
fn a_report_is_read_section_by_section() {
    let report = lines(&[
        "------------------",
        "System Information",
        "------------------",
        "      Time of this report: 1/1/2024, 10:00:00",
        "---------------",
        "Display Devices",
        "---------------",
        "           Card name: NVIDIA GeForce",
        "        Manufacturer: NVIDIA",
        "    Dedicated Memory: 8072 MB",
        "      Driver Version: 31.0.15.3623",
        "           Card name: Intel(R) UHD",
        "    Dedicated Memory: 128 MB",
        "-------------",
        "Sound Devices",
        "-------------",
        "         Description: Speakers",
    ]);
    let gpus = read_report(&report);
    assert_eq!(gpus.len(), 2);
    assert_eq!(gpus[0].name, "NVIDIA GeForce");
    assert_eq!(gpus[0].ram_bytes, 8072 * 1048576);
    assert_eq!(gpus[0].driver_version, "31.0.15.3623");
    assert_eq!(gpus[1].name, "Intel(R) UHD");
    assert_eq!(gpus[1].ram_bytes, 128 * 1048576);
    assert_eq!(gpus[1].driver_version, "");
    assert!(read_report(&Vec::new()).is_empty());
    let last = read_report(&lines(&["Card name: Only", "Driver Version: 1"]));
    assert_eq!(last.len(), 1);
    assert_eq!(last[0].driver_version, "1");
}

#[test]
fn the_diagnostic_output_must_be_a_list_of_lines() {
    let gpus = get_gpu_dxdiag_response(ran("[\"Card name: A\",\"Dedicated Memory: 2 MB\"]")).unwrap();
    assert_eq!(gpus.len(), 1);
    assert_eq!(gpus[0].ram_bytes, 2097152);
    assert!(get_gpu_dxdiag_response(ran("[\"Card name: A\", 5]")).unwrap().is_empty());
    assert!(get_gpu_dxdiag_response(ran("{\"Card name\": \"A\"}")).unwrap().is_empty());
    assert!(get_gpu_dxdiag_response(ran("")).unwrap().is_empty());
    assert!(get_gpu_dxdiag_response(ran("nonsense")).unwrap().is_empty());
    assert!(matches!(get_gpu_dxdiag_response(failed("x")), Err(ErrorKind::ExternalToolFailed { .. })));
    assert!(matches!(get_gpu_dxdiag_response(not_started()), Err(ErrorKind::SpawnFailed { .. })));
}

#[test]
fn video_controllers_are_mapped_with_defaults() {
    let gpus = get_gpu_wmi_response(ran("[{\"Name\":\"AMD\",\"AdapterRAM\":4293918720,\"DriverVersion\":\"1.0\"},{}]"));
    assert_eq!(gpus.len(), 2);
    assert_eq!(gpus[0].ram_bytes, 4293918720);
    assert_eq!(gpus[1].name, "GPU inconnu");
    assert_eq!(gpus[1].ram_bytes, 0);
    assert_eq!(gpus[1].driver_version, "");
    assert!(get_gpu_wmi_response(ran("")).is_empty());
    assert!(get_gpu_wmi_response(ran("[")).is_empty());
    assert!(get_gpu_wmi_response(not_started()).is_empty());
}

#[test]
fn objects_of_the_system_are_read_leniently_on_failure() {
    let modules: Vec<PhysicalMemory> = get_wmi_json(ran("[{\"Capacity\":8589934592},{\"Capacity\":null}]")).unwrap();
    assert_eq!(modules.len(), 2);
    assert_eq!(modules[0].capacity, Some(8589934592));
    assert_eq!(modules[1].capacity, None);
    assert!(get_wmi_json::<PhysicalMemory>(failed("x")).unwrap().is_empty());
    assert!(get_wmi_json::<PhysicalMemory>(ran("null")).unwrap().is_empty());
    assert!(matches!(get_wmi_json::<PhysicalMemory>(ran("[1]")), Err(ErrorKind::MalformedOutput { .. })));
    assert!(matches!(get_wmi_json::<PhysicalMemory>(not_started()), Err(ErrorKind::SpawnFailed { .. })));
}

#[test]
fn four_commands_make_up_the_picture() {
    let commands = get_hardware_info_commands();
    assert_eq!(commands.len(), 4);
    assert_eq!(
        commands[0].inline_script.as_ref().unwrap(),
        "Get-WmiObject -Class Win32_Processor -ErrorAction SilentlyContinue | Select-Object Name, NumberOfCores, NumberOfLogicalProcessors, MaxClockSpeed | ConvertTo-Json -Compress"
    );
    assert!(commands[1].inline_script.as_ref().unwrap().contains("Win32_BaseBoard"));
    assert!(commands[2].inline_script.as_ref().unwrap().contains("Win32_PhysicalMemory"));
    assert!(commands[3].inline_script.as_ref().unwrap().contains("dxdiag"));
    assert_eq!(commands[3].arguments.len(), 3);
}

#[test]
fn the_diagnostic_report_spares_the_video_controllers() {
    let step = get_hardware_info(
        ran("{\"Name\":\"Intel Core\",\"NumberOfCores\":8,\"NumberOfLogicalProcessors\":16,\"MaxClockSpeed\":3600}"),
        ran("{\"Manufacturer\":\"ASUS\",\"Product\":\"Z790\"}"),
        ran("[{\"Capacity\":17179869184},{\"Capacity\":17179869184}]"),
        ran("[\"Card name: RTX\",\"Dedicated Memory: 12,288 MB\"]"),
    );
    let info = match step {
        Step::Done(info) => info,
        Step::Run(_, _) => panic!("no further question is due"),
    };
    assert_eq!(info.cpu_name.as_deref(), Some("Intel Core"));
    assert_eq!(info.cpu_cores, Some(8));
    assert_eq!(info.cpu_threads, Some(16));
    assert_eq!(info.cpu_max_speed_mhz, Some(3600));
    assert_eq!(info.ram_total_bytes, Some(34359738368));
    assert_eq!(info.ram_modules_count, Some(2));
    assert_eq!(info.motherboard_manufacturer.as_deref(), Some("ASUS"));
    assert_eq!(info.motherboard_product.as_deref(), Some("Z790"));
    assert_eq!(info.gpus.len(), 1);
    assert_eq!(info.gpus[0].ram_bytes, 12288 * 1048576);
}

#[test]
fn the_video_controllers_stand_in_for_an_empty_report() {
    let step = get_hardware_info(not_started(), failed("x"), ran("oops"), ran("[\"nothing here\"]"));
    let (survey, invocation) = match step {
        Step::Run(survey, invocation) => (survey, invocation),
        Step::Done(_) => panic!("the video controllers must be asked for"),
    };
    assert!(invocation.inline_script.unwrap().contains("Win32_VideoController"));
    assert_eq!(survey.chain.next, 1);
    assert_eq!(survey.chain.winner, None);
    assert!(survey.info.cpu_name.is_none());
    assert!(survey.info.ram_total_bytes.is_none());
    assert!(survey.info.ram_modules_count.is_none());
    assert!(survey.info.motherboard_manufacturer.is_none());
    let info = get_hardware_info_finish(survey, ran("{\"Name\":\"Basic Display\"}"));
    assert_eq!(info.gpus.len(), 1);
    assert_eq!(info.gpus[0].name, "Basic Display");
    let step = get_hardware_info(ran(""), ran(""), ran(""), failed("dxdiag missing"));
    match step {
        Step::Run(survey, _) => {
            assert_eq!(survey.info.ram_total_bytes, Some(0));
            assert_eq!(survey.info.ram_modules_count, Some(0));
            assert!(get_hardware_info_finish(survey, not_started()).gpus.is_empty());
        }
        Step::Done(_) => panic!("the video controllers must be asked for"),
    }
}

#[test]
fn the_total_memory_is_capped() {
    let step = get_hardware_info(
        ran(""),
        ran(""),
        ran("[{\"Capacity\":18446744073709551615},{\"Capacity\":5}]"),
        ran("[\"Card name: x\"]"),
    );
    match step {
        Step::Done(info) => assert_eq!(info.ram_total_bytes, Some(u64::MAX)),
        Step::Run(_, _) => panic!("no further question is due"),
    }
}
