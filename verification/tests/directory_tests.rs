use winadmin_core::active_directory::{
    account_action_response, ad_groups_response, check_ad_prerequisites, directory_resume,
    disable_ad_account_command, enable_ad_account_command, force_gp_update_command,
    get_ad_computer_info_begin, get_ad_computer_info_resume, get_ad_group_members_command,
    get_ad_group_members_response, get_ad_principal_group_membership_command,
    get_logged_in_user_info, reset_ad_account_password_command, search_ad_computers_response,
    search_ad_groups_command, search_ad_users_command, search_ad_users_response,
    unlock_ad_account_command, DirectoryOperation, MembershipState,
};
use winadmin_core::error::ErrorKind;
use winadmin_core::execution::ExecutionResult;
use winadmin_core::flow::Step;
use winadmin_core::users::{
    add_local_user_command, delete_local_user_command, list_local_groups_response,
    list_local_users_command, list_local_users_response,
};

fn ran(stdout: &str) -> Result<ExecutionResult, ErrorKind> {
    Ok(ExecutionResult {
        exit_success: true,
        stdout: stdout.as_bytes().to_vec(),
        stderr: Vec::new(),
    })
}

fn failed(stderr: &str) -> Result<ExecutionResult, ErrorKind> {
    Ok(ExecutionResult {
        exit_success: false,
        stdout: Vec::new(),
        stderr: stderr.as_bytes().to_vec(),
    })
}

fn not_started() -> Result<ExecutionResult, ErrorKind> {
    Err(ErrorKind::SpawnFailed { detail: "program not found".to_string() })
}

#[test]
fn both_prerequisites_are_checked_before_the_command_runs() {
    let command = search_ad_users_command("ann");
    let script = command.inline_script.clone().unwrap();
    let (state, first) = check_ad_prerequisites(command);
    assert_eq!(first.inline_script.unwrap(), "(Get-WmiObject -Class Win32_ComputerSystem).PartOfDomain");
    let (state, second) = match directory_resume(state, ran("True\r\n")) {
        Step::Run(state, invocation) => (state, invocation),
        Step::Done(_) => panic!("the module must be checked"),
    };
    assert!(matches!(state, DirectoryOperation::CheckingModule { .. }));
    assert_eq!(
        second.inline_script.unwrap(),
        "if (Get-Module -ListAvailable -Name ActiveDirectory) { $true } else { $false }"
    );
    let (state, third) = match directory_resume(state, ran(" TRUE ")) {
        Step::Run(state, invocation) => (state, invocation),
        Step::Done(_) => panic!("the command must be run"),
    };
    assert!(matches!(state, DirectoryOperation::Running));
    assert_eq!(third.inline_script.unwrap(), script);
    let outcome = match directory_resume(state, ran("{\"SamAccountName\":\"ann\",\"Name\":\"Ann\",\"Enabled\":true,\"SID\":{\"Value\":\"S-1-5-21\"}}")) {
        Step::Done(outcome) => outcome,
        Step::Run(_, _) => panic!("the operation must end"),
    };
    let users = search_ad_users_response(outcome).unwrap();
    assert_eq!(users.len(), 1);
    assert_eq!(users[0].sam_account_name, "ann");
    assert_eq!(users[0].name, "Ann");
    assert!(users[0].enabled);
    assert_eq!(users[0].sid, "S-1-5-21");
}

#[test]
fn a_missing_prerequisite_ends_the_operation() {
    let begin = || check_ad_prerequisites(search_ad_groups_command("x")).0;
    match directory_resume(begin(), ran("False")) {
        Step::Done(Err(ErrorKind::Unavailable { detail })) => {
            assert_eq!(detail, "L'ordinateur n'est pas joint \u{e0} un domaine Active Directory.")
        }
        _ => panic!("the operation must end"),
    }
    match directory_resume(begin(), failed("x")) {
        Step::Done(Err(ErrorKind::Unavailable { detail })) => {
            assert_eq!(detail, "Impossible de v\u{e9}rifier l'appartenance au domaine.")
        }
        _ => panic!("the operation must end"),
    }
    assert!(matches!(directory_resume(begin(), not_started()), Step::Done(Err(ErrorKind::SpawnFailed { .. }))));
    let at_module = || match directory_resume(begin(), ran("true")) {
        Step::Run(state, _) => state,
        Step::Done(_) => panic!("the module must be checked"),
    };
    match directory_resume(at_module(), ran("false")) {
        Step::Done(Err(ErrorKind::Unavailable { detail })) => {
            assert_eq!(detail, "Le module PowerShell Active Directory n'est pas install\u{e9} sur cette machine.")
        }
        _ => panic!("the operation must end"),
    }
    match directory_resume(at_module(), failed("x")) {
        Step::Done(Err(ErrorKind::Unavailable { detail })) => {
            assert_eq!(detail, "Impossible de v\u{e9}rifier la pr\u{e9}sence du module Active Directory.")
        }
        _ => panic!("the operation must end"),
    }
}

#[test]
fn the_run_of_the_command_is_handed_on_as_it_came() {
    match directory_resume(DirectoryOperation::Running, failed("Access denied")) {
        Step::Done(outcome) => match account_action_response(outcome) {
            Err(ErrorKind::ExternalToolFailed { stderr }) => assert_eq!(stderr, "Access denied"),
            _ => panic!("the failure must be reported"),
        },
        Step::Run(_, _) => panic!("the operation must end"),
    }
}

#[test]
fn computers_groups_and_members_are_mapped() {
    let computers = search_ad_computers_response(ran("[{\"Name\":\"PC1\",\"DNSHostName\":\"pc1.corp\",\"Enabled\":false},{\"Name\":\"PC2\",\"DNSHostName\":\"pc2.corp\",\"Enabled\":true,\"OperatingSystem\":\"Windows 11\"}]")).unwrap();
    assert_eq!(computers[0].operating_system, "Inconnu");
    assert!(!computers[0].enabled);
    assert_eq!(computers[1].operating_system, "Windows 11");
    let groups = ad_groups_response(ran("[{\"SamAccountName\":\"g\",\"Name\":\"G\",\"GroupCategory\":1,\"GroupScope\":\"Global\",\"SID\":{\"Value\":\"S-1\"}},{\"SamAccountName\":\"h\",\"Name\":\"H\",\"GroupCategory\":\"Security\",\"GroupScope\":0}]")).unwrap();
    assert_eq!(groups[0].category, "1");
    assert_eq!(groups[0].scope, "Global");
    assert_eq!(groups[0].sid, "S-1");
    assert_eq!(groups[1].category, "Security");
    assert_eq!(groups[1].scope, "0");
    assert_eq!(groups[1].sid, "N/A");
    let members = get_ad_group_members_response(ran("{\"SamAccountName\":\"m\",\"Name\":\"M\",\"objectClass\":\"user\",\"SID\":\"S-plain\"}")).unwrap();
    assert_eq!(members[0].object_class, "user");
    assert_eq!(members[0].sid, "N/A");
    assert!(matches!(
        get_ad_group_members_response(ran("{\"SamAccountName\":\"m\",\"Name\":\"M\"}")),
        Err(ErrorKind::MalformedOutput { .. })
    ));
}

#[test]
fn commands_on_an_identity_quote_it() {
    assert_eq!(
        get_ad_group_members_command("Domain Admins").unwrap().inline_script.unwrap(),
        "Get-ADGroupMember -Identity \"Domain Admins\" | Select-Object SamAccountName, Name, objectClass, SID | ConvertTo-Json -Depth 3 -Compress"
    );
    assert!(get_ad_principal_group_membership_command("u$er").unwrap().inline_script.unwrap().starts_with("Get-ADPrincipalGroupMembership -Identity \"u`$er\" |"));
    assert_eq!(enable_ad_account_command("CN=a,DC=b").unwrap().inline_script.unwrap(), "Enable-ADAccount -Identity \"CN=a,DC=b\"");
    assert_eq!(disable_ad_account_command("a\"b").unwrap().inline_script.unwrap(), "Disable-ADAccount -Identity \"a\"\"b\"");
    assert_eq!(unlock_ad_account_command("x").unwrap().inline_script.unwrap(), "Unlock-ADAccount -Identity \"x\"");
    assert_eq!(reset_ad_account_password_command("x").unwrap().inline_script.unwrap(), "Set-ADAccountPassword -Identity \"x\" -Reset");
    for blank in ["", "  ", "\t\n"] {
        match enable_ad_account_command(blank) {
            Err(ErrorKind::InvalidArgument { detail }) => assert_eq!(detail, "L'identit\u{e9} ne peut pas \u{ea}tre vide."),
            _ => panic!("the identity must be refused"),
        }
    }
    let update = force_gp_update_command();
    assert_eq!(update.program, "gpupdate");
    assert_eq!(update.command_line(), vec!["/force"]);
}

#[test]
fn the_membership_of_the_machine_is_asked_in_two_steps() {
    let (state, first) = get_ad_computer_info_begin(Some("\\\\DC01".to_string()));
    assert_eq!(first.inline_script.unwrap(), "(Get-WmiObject -Class Win32_ComputerSystem).Domain");
    let (state, second) = match get_ad_computer_info_resume(state, ran("corp.example\r\n")) {
        Step::Run(state, invocation) => (state, invocation),
        Step::Done(_) => panic!("the site must be asked for"),
    };
    assert!(second.inline_script.unwrap().contains("ClientSiteName"));
    let info = match get_ad_computer_info_resume(state, ran(" Paris \n")) {
        Step::Done(Ok(info)) => info,
        _ => panic!("the question must end"),
    };
    assert!(info.is_joined);
    assert_eq!(info.domain_name.as_deref(), Some("corp.example"));
    assert_eq!(info.site_name.as_deref(), Some("Paris"));
    assert_eq!(info.logon_server.as_deref(), Some("DC01"));
}

#[test]
fn a_machine_without_domain_is_asked_nothing_more() {
    let (state, _) = get_ad_computer_info_begin(Some("\\\\DC01".to_string()));
    match get_ad_computer_info_resume(state, ran("\r\n")) {
        Step::Done(Ok(info)) => {
            assert!(!info.is_joined);
            assert!(info.domain_name.is_none());
            assert!(info.site_name.is_none());
            assert!(info.logon_server.is_none());
        }
        _ => panic!("the question must end"),
    }
    let (state, _) = get_ad_computer_info_begin(None);
    assert!(matches!(get_ad_computer_info_resume(state, failed("x")), Step::Done(Err(ErrorKind::ExternalToolFailed { .. }))));
    let site = MembershipState::AskingSite { domain_name: "d".to_string(), logon_server: None };
    match get_ad_computer_info_resume(site, failed("x")) {
        Step::Done(Ok(info)) => {
            assert!(info.site_name.is_none());
            assert!(info.logon_server.is_none());
        }
        _ => panic!("the question must end"),
    }
    let site = MembershipState::AskingSite { domain_name: "d".to_string(), logon_server: None };
    assert!(matches!(get_ad_computer_info_resume(site, not_started()), Step::Done(Err(ErrorKind::SpawnFailed { .. }))));
}

#[test]
fn the_domain_of_the_user_is_left_out_where_it_is_the_machine() {
    let user = |domain: Option<&str>, computer: Option<&str>| {
        get_logged_in_user_info(Some("ann".to_string()), domain.map(|s| s.to_string()), computer.map(|s| s.to_string()))
    };
    assert_eq!(user(Some("CORP"), Some("PC1")).user_domain.as_deref(), Some("CORP"));
    assert_eq!(user(Some("PC1"), Some("PC1")).user_domain, None);
    assert_eq!(user(Some("CORP"), None).user_domain.as_deref(), Some("CORP"));
    assert_eq!(user(None, Some("PC1")).user_domain, None);
    assert_eq!(user(None, None).user_name.as_deref(), Some("ann"));
    assert!(get_logged_in_user_info(None, None, None).user_name.is_none());
}

#[test]
fn local_users_and_groups_are_mapped() {
    assert_eq!(
        list_local_users_command().inline_script.unwrap(),
        "Get-LocalUser | Select-Object Name, FullName, Description, Enabled, SID | ConvertTo-Json -Depth 3 -Compress"
    );
    let users = list_local_users_response(ran("[{\"Name\":\"Administrateur\",\"FullName\":null,\"Description\":\"Compte\",\"Enabled\":false,\"SID\":{\"BinaryLength\":28,\"Value\":\"S-1-5-21-500\"}},{\"Name\":\"ann\",\"Enabled\":1,\"Sid\":{\"Value\":\"S-2\"}}]")).unwrap();
    assert_eq!(users.len(), 2);
    assert_eq!(users[0].name, "Administrateur");
    assert_eq!(users[0].full_name, "");
    assert_eq!(users[0].description, "Compte");
    assert!(!users[0].enabled);
    assert_eq!(users[0].sid, "S-1-5-21-500");
    assert!(users[1].enabled);
    assert_eq!(users[1].sid, "S-2");
    let groups = list_local_groups_response(ran("{\"Name\":\"Utilisateurs\",\"Description\":null}")).unwrap();
    assert_eq!(groups[0].name, "Utilisateurs");
    assert_eq!(groups[0].description, "");
    assert_eq!(groups[0].sid, "N/A");
    assert!(matches!(list_local_users_response(ran("{\"Name\":\"x\"}")), Err(ErrorKind::MalformedOutput { .. })));
}

#[test]
fn a_new_user_needs_a_name_and_a_password() {
    match add_local_user_command(" ", "pw", None, None) {
        Err(ErrorKind::InvalidArgument { detail }) => assert_eq!(detail, "Le nom d'utilisateur ne peut pas \u{ea}tre vide."),
        _ => panic!("the name must be refused"),
    }
    match add_local_user_command("ann", "", None, None) {
        Err(ErrorKind::InvalidArgument { detail }) => assert_eq!(detail, "Le mot de passe ne peut pas \u{ea}tre vide."),
        _ => panic!("the password must be refused"),
    }
    assert_eq!(
        add_local_user_command("ann", "p\"w$1`", Some("Ann O'Neil"), None).unwrap().inline_script.unwrap(),
        "$Password = ConvertTo-SecureString -String \"p\"\"w`$1``\" -AsPlainText -Force; New-LocalUser -Name \"ann\" -Password $Password -FullName \"Ann O'Neil\" -Description \"\""
    );
    assert_eq!(delete_local_user_command("ann").inline_script.unwrap(), "Remove-LocalUser -Name \"ann\"");
}
