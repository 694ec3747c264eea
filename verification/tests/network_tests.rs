use winadmin_core::error::ErrorKind;
use winadmin_core::execution::ExecutionResult;
use winadmin_core::flow::Step;
use winadmin_core::network::{
    list_network_adapters_begin, list_network_adapters_resume, AdapterSurvey,
    NetworkAdapterInfo, SurveyStage,
};

fn ran(stdout: &str) -> Result<ExecutionResult, ErrorKind> {
    Ok(ExecutionResult {
        exit_success: true,
        stdout: stdout.as_bytes().to_vec(),
        stderr: Vec::new(),
    })
}

fn failed(stderr: &str) -> Result<ExecutionResult, ErrorKind> {
    Ok(ExecutionResult {
        exit_success: false,
        stdout: Vec::new(),
        stderr: stderr.as_bytes().to_vec(),
    })
}

fn not_started() -> Result<ExecutionResult, ErrorKind> {
    Err(ErrorKind::SpawnFailed { detail: "program not found".to_string() })
}

/// Feeds the outcomes to the survey one by one and records the stage and
/// the script of each question.
fn run(outcomes: Vec<Result<ExecutionResult, ErrorKind>>) -> (Vec<(SurveyStage, String)>, Result<Vec<NetworkAdapterInfo>, ErrorKind>) {
    let (mut survey, first): (AdapterSurvey, _) = list_network_adapters_begin();
    let mut asked = vec![(survey.stage, first.inline_script.unwrap())];
    for outcome in outcomes {
        match list_network_adapters_resume(survey, outcome) {
            Step::Run(next, invocation) => {
                asked.push((next.stage, invocation.inline_script.unwrap()));
                survey = next;
            }
            Step::Done(result) => return (asked, result),
        }
    }
    panic!("the survey must end");
}

const ADAPTERS: &str = "[{\"Name\":\"Ethernet\",\"InterfaceDescription\":\"Intel(R) I219\",\"MacAddress\":\"AA-BB\",\"Status\":\"Up\",\"InterfaceIndex\":5},{\"Name\":\"Wi-Fi\",\"InterfaceDescription\":\"Wireless\",\"MacAddress\":null,\"Status\":\"Disconnected\",\"InterfaceIndex\":7}]";

#[test]
fn adapters_with_known_addresses_need_no_further_question() {
    let (asked, result) = run(vec![
        ran(ADAPTERS),
        ran("VERBOSE: hello\r\n{\"5\": { \"IPv4\": [\"192.168.1.10\",\"\"], \"IPv6\": [\"fe80::1\",\"2001:db8::1\"] },\"7\": { \"IPv4\": [], \"IPv6\": [] }}\r\n"),
        ran("[{\"InterfaceIndex\":5,\"DNSServer\":[\"1.1.1.1\",\"8.8.8.8\"],\"Gateway\":\"192.168.1.1\"},{\"InterfaceIndex\":7,\"DNSServer\":\"9.9.9.9\",\"Gateway\":\"\"}]"),
    ]);
    let stages: Vec<SurveyStage> = asked.iter().map(|a| a.0).collect();
    assert_eq!(stages, vec![SurveyStage::Adapters, SurveyStage::Addresses, SurveyStage::Configurations]);
    let adapters = result.unwrap();
    assert_eq!(adapters.len(), 2);
    assert_eq!(adapters[0].name, "Ethernet");
    assert_eq!(adapters[0].description, "Intel(R) I219");
    assert_eq!(adapters[0].mac_address, "AA-BB");
    assert_eq!(adapters[0].status, "Up");
    assert_eq!(adapters[0].ip_addresses, vec!["192.168.1.10", "2001:db8::1"]);
    assert_eq!(adapters[0].dns_servers, vec!["1.1.1.1", "8.8.8.8"]);
    assert_eq!(adapters[0].gateway, "192.168.1.1");
    assert_eq!(adapters[1].mac_address, "N/A");
    assert_eq!(adapters[1].status, "Disconnected");
    assert!(adapters[1].ip_addresses.is_empty());
    assert_eq!(adapters[1].dns_servers, vec!["9.9.9.9"]);
    assert_eq!(adapters[1].gateway, "N/A");
}

#[test]
fn an_adapter_that_is_up_without_address_is_asked_twice_at_most() {
    let (asked, result) = run(vec![
        ran(ADAPTERS),
        ran("{}"),
        ran("[]"),
        ran("  \r\n"),
        ran(" 10.0.0.5 \r\n"),
    ]);
    let stages: Vec<SurveyStage> = asked.iter().map(|a| a.0).collect();
    assert_eq!(
        stages,
        vec![
            SurveyStage::Adapters,
            SurveyStage::Addresses,
            SurveyStage::Configurations,
            SurveyStage::DirectAddress,
            SurveyStage::LastResort
        ]
    );
    assert_eq!(
        asked[3].1,
        "Get-NetIPConfiguration -InterfaceIndex 5 | Select-Object -ExpandProperty IPv4Address | Select-Object -ExpandProperty IPAddress"
    );
    assert!(asked[4].1.contains("$_.InterfaceIndex -eq 5 -and"));
    let adapters = result.unwrap();
    assert_eq!(adapters[0].ip_addresses, vec!["10.0.0.5"]);
    assert!(adapters[1].ip_addresses.is_empty());
    assert_eq!(adapters[0].gateway, "N/A");
    assert!(adapters[0].dns_servers.is_empty());
}

#[test]
fn the_direct_question_spares_the_last_one() {
    let (asked, result) = run(vec![ran(ADAPTERS), ran("{}"), ran(""), ran("10.1.1.1")]);
    assert_eq!(asked.len(), 4);
    assert_eq!(result.unwrap()[0].ip_addresses, vec!["10.1.1.1"]);
    let (asked, result) = run(vec![ran(ADAPTERS), ran("{}"), ran(""), failed("x"), not_started()]);
    assert_eq!(asked.len(), 5);
    assert!(result.unwrap()[0].ip_addresses.is_empty());
}

#[test]
fn a_bluetooth_adapter_has_its_status_asked_for() {
    let adapters = "{\"Name\":\"BT\",\"InterfaceDescription\":\"BLUETOOTH Device (Personal Area Network)\",\"Status\":\"Disconnected\",\"InterfaceIndex\":9}";
    let (asked, result) = run(vec![
        ran(adapters),
        ran("{\"9\":{\"IPv4\":[\"169.254.1.1\"]}}"),
        ran(""),
        ran("[{\"Status\":\"OK\"},{\"Status\":\"Error\"}]"),
    ]);
    assert_eq!(asked.len(), 4);
    assert_eq!(asked[3].0, SurveyStage::Bluetooth);
    assert!(asked[3].1.starts_with("Get-PnpDevice | Where-Object { $_.FriendlyName -like '*Bluetooth*'"));
    let adapters_found = result.unwrap();
    assert_eq!(adapters_found[0].status, "Up");
    assert_eq!(adapters_found[0].ip_addresses, vec!["169.254.1.1"]);
    let (_, result) = run(vec![ran(adapters), ran("{}"), ran(""), ran("{\"Status\":\"Error\"}")]);
    assert_eq!(result.unwrap()[0].status, "Disconnected");
    let (_, result) = run(vec![ran(adapters), ran("{}"), ran(""), not_started()]);
    assert_eq!(result.unwrap()[0].status, "Disconnected");
}

#[test]
fn the_configuration_fills_in_where_the_map_has_nothing() {
    let (asked, result) = run(vec![
        ran(ADAPTERS),
        ran("{\"5\":{\"IPv4\":[],\"IPv6\":[\"fe80::2\"]}}"),
        ran("[{\"InterfaceIndex\":5,\"IPAddress\":[{\"IPAddress\":\"172.16.0.2\",\"PrefixLength\":24},{\"Other\":1}]},{\"InterfaceIndex\":5,\"IPAddress\":[{\"IPAddress\":\"172.16.0.3\"}],\"Gateway\":\"172.16.0.1\"}]"),
    ]);
    assert_eq!(asked.len(), 3);
    let adapters = result.unwrap();
    assert_eq!(adapters[0].ip_addresses, vec!["172.16.0.3"]);
    assert_eq!(adapters[0].gateway, "172.16.0.1");
}

#[test]
fn the_survey_fails_where_a_list_cannot_be_had() {
    let (asked, result) = run(vec![failed("no adapters")]);
    assert_eq!(asked.len(), 1);
    assert!(matches!(result, Err(ErrorKind::ExternalToolFailed { .. })));
    let (_, result) = run(vec![ran("{\"Name\":\"x\"}")]);
    assert!(matches!(result, Err(ErrorKind::MalformedOutput { .. })));
    let (_, result) = run(vec![ran(ADAPTERS), failed("no addresses")]);
    assert!(matches!(result, Err(ErrorKind::ExternalToolFailed { .. })));
    let (_, result) = run(vec![ran(ADAPTERS), ran("[1]")]);
    assert!(matches!(result, Err(ErrorKind::MalformedOutput { .. })));
    let (_, result) = run(vec![ran(ADAPTERS), ran("")]);
    assert!(matches!(result, Err(ErrorKind::MalformedOutput { .. })));
    let (_, result) = run(vec![ran(ADAPTERS), ran("{}"), not_started()]);
    assert!(matches!(result, Err(ErrorKind::SpawnFailed { .. })));
    let (_, result) = run(vec![ran(ADAPTERS), ran("{}"), ran("{\"Gateway\":\"x\"}")]);
    assert!(matches!(result, Err(ErrorKind::MalformedOutput { .. })));
}

#[test]
fn no_adapter_means_no_question_about_adapters() {
    let (asked, result) = run(vec![ran(""), ran("{}"), ran("")]);
    assert_eq!(asked.len(), 3);
    assert!(result.unwrap().is_empty());
}
