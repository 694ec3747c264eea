//! The directory of the domain: the machine's membership, searches, group
//! membership and account actions.

use vstd::prelude::*;
use vstd::string::*;
use crate::command::{builds, native, option_text, powershell, Invocation, InvocationView};
use crate::error::{ErrorKind, ErrorView};
use crate::execution::{utf8_lossy, ExecutionResult};
use crate::flow::Step;
use crate::json::{JsonTree, JsonValue};
use crate::mapper::{
    acknowledge, acknowledged, coded_at, coded_field, first_text_at, first_text_field,
    list_records, listed, switch_at, switch_field, text_at, text_field, text_field_or, text_or,
    yields_all, yields_unit, Coded, CodedView, Record,
};
use crate::quoting::{double_quoted, like_pattern, quote_double, quote_like_pattern};
use crate::text::{
    chars_of, is_blank, lower, lowercase, same_chars, same_text, signed_decimal, signed_decimal_of,
    strip_leading, text_of, trim, trimmed, views, without_leading,
};
use crate::users::{parse_sid, sid_at};
use crate::validate::is_named;

verus! {

// ---------------------------------------------------------------------------
// Records
// ---------------------------------------------------------------------------

#[derive(Debug)]
pub struct AdComputerInfo {
    pub is_joined: bool,
    pub domain_name: Option<String>,
    pub site_name: Option<String>,
    /// The server that logged the user on.
    pub logon_server: Option<String>,
}

pub struct AdComputerView {
    pub is_joined: bool,
    pub domain_name: Option<Seq<char>>,
    pub site_name: Option<Seq<char>>,
    pub logon_server: Option<Seq<char>>,
}

impl View for AdComputerInfo {
    type V = AdComputerView;

    open spec fn view(&self) -> AdComputerView {
        AdComputerView {
            is_joined: self.is_joined,
            domain_name: match self.domain_name {
                Some(t) => Some(t@),
                None => None,
            },
            site_name: match self.site_name {
                Some(t) => Some(t@),
                None => None,
            },
            logon_server: match self.logon_server {
                Some(t) => Some(t@),
                None => None,
            },
        }
    }
}

#[derive(Debug)]
pub struct LoggedInUserInfo {
    pub user_name: Option<String>,
    pub user_domain: Option<String>,
}

pub struct LoggedInUserView {
    pub user_name: Option<Seq<char>>,
    pub user_domain: Option<Seq<char>>,
}

impl View for LoggedInUserInfo {
    type V = LoggedInUserView;

    open spec fn view(&self) -> LoggedInUserView {
        LoggedInUserView {
            user_name: match self.user_name {
                Some(t) => Some(t@),
                None => None,
            },
            user_domain: match self.user_domain {
                Some(t) => Some(t@),
                None => None,
            },
        }
    }
}

#[derive(Debug)]
pub struct AdUserInfo {
    pub sam_account_name: String,
    pub name: String,
    pub enabled: bool,
    pub sid: String,
}

pub struct AdUserView {
    pub sam_account_name: Seq<char>,
    pub name: Seq<char>,
    pub enabled: bool,
    pub sid: Seq<char>,
}

impl View for AdUserInfo {
    type V = AdUserView;

    open spec fn view(&self) -> AdUserView {
        AdUserView {
            sam_account_name: self.sam_account_name@,
            name: self.name@,
            enabled: self.enabled,
            sid: self.sid@,
        }
    }
}

#[derive(Debug)]
pub struct FoundAdComputerInfo {
    pub name: String,
    pub dns_host_name: String,
    pub enabled: bool,
    pub operating_system: String,
}

pub struct FoundAdComputerView {
    pub name: Seq<char>,
    pub dns_host_name: Seq<char>,
    pub enabled: bool,
    pub operating_system: Seq<char>,
}

impl View for FoundAdComputerInfo {
    type V = FoundAdComputerView;

    open spec fn view(&self) -> FoundAdComputerView {
        FoundAdComputerView {
            name: self.name@,
            dns_host_name: self.dns_host_name@,
            enabled: self.enabled,
            operating_system: self.operating_system@,
        }
    }
}

#[derive(Debug)]
pub struct AdGroupInfo {
    pub sam_account_name: String,
    pub name: String,
    pub category: String,
    pub scope: String,
    pub sid: String,
}

pub struct AdGroupView {
    pub sam_account_name: Seq<char>,
    pub name: Seq<char>,
    pub category: Seq<char>,
    pub scope: Seq<char>,
    pub sid: Seq<char>,
}

impl View for AdGroupInfo {
    type V = AdGroupView;

    open spec fn view(&self) -> AdGroupView {
        AdGroupView {
            sam_account_name: self.sam_account_name@,
            name: self.name@,
            category: self.category@,
            scope: self.scope@,
            sid: self.sid@,
        }
    }
}

#[derive(Debug)]
pub struct AdMemberInfo {
    pub sam_account_name: String,
    pub name: String,
    pub object_class: String,
    pub sid: String,
}

pub struct AdMemberView {
    pub sam_account_name: Seq<char>,
    pub name: Seq<char>,
    pub object_class: Seq<char>,
    pub sid: Seq<char>,
}

impl View for AdMemberInfo {
    type V = AdMemberView;

    open spec fn view(&self) -> AdMemberView {
        AdMemberView {
            sam_account_name: self.sam_account_name@,
            name: self.name@,
            object_class: self.object_class@,
            sid: self.sid@,
        }
    }
}

pub const UNKNOWN_SYSTEM: &'static str = "Inconnu";

impl Record for AdUserInfo {
    /// A user needs its account name, its name and the switch that says
    /// whether the account is enabled.
    open spec fn mapped(tree: JsonTree) -> Option<AdUserView> {
        match (text_at(tree, "SamAccountName"@), text_at(tree, "Name"@), switch_at(tree, "Enabled"@)) {
            (Some(sam_account_name), Some(name), Some(enabled)) => Some(
                AdUserView { sam_account_name, name, enabled, sid: sid_at(tree) },
            ),
            _ => None,
        }
    }

    fn map(value: &JsonValue) -> (r: Option<AdUserInfo>) {
        let sam_account_name = text_field(value, "SamAccountName")?;
        let name = text_field(value, "Name")?;
        let enabled = switch_field(value, "Enabled")?;
        Some(AdUserInfo { sam_account_name, name, enabled, sid: parse_sid(value) })
    }
}

impl Record for FoundAdComputerInfo {
    /// A computer needs its name, its host name and the switch that says
    /// whether the account is enabled.
    open spec fn mapped(tree: JsonTree) -> Option<FoundAdComputerView> {
        match (text_at(tree, "Name"@), text_at(tree, "DNSHostName"@), switch_at(tree, "Enabled"@)) {
            (Some(name), Some(dns_host_name), Some(enabled)) => Some(
                FoundAdComputerView {
                    name,
                    dns_host_name,
                    enabled,
                    operating_system: text_or(tree, "OperatingSystem"@, UNKNOWN_SYSTEM@),
                },
            ),
            _ => None,
        }
    }

    fn map(value: &JsonValue) -> (r: Option<FoundAdComputerInfo>) {
        let name = text_field(value, "Name")?;
        let dns_host_name = text_field(value, "DNSHostName")?;
        let enabled = switch_field(value, "Enabled")?;
        Some(
            FoundAdComputerInfo {
                name,
                dns_host_name,
                enabled,
                operating_system: text_field_or(value, "OperatingSystem", UNKNOWN_SYSTEM),
            },
        )
    }
}

/// The word of a member that arrives as a name or as a number: the name
/// as it is, the number as it is written.
pub open spec fn word_of(c: CodedView) -> Seq<char> {
    match c {
        CodedView::Text(t) => t,
        CodedView::Code(code) => signed_decimal(code),
    }
}

fn word(c: Coded) -> (r: String)
    ensures
        r@ == word_of(c@),
{
    match c {
        Coded::Text(t) => t,
        Coded::Code(code) => text_of(&signed_decimal_of(code)),
    }
}

impl Record for AdGroupInfo {
    /// A group needs its account name, its name, its category and its
    /// scope.
    open spec fn mapped(tree: JsonTree) -> Option<AdGroupView> {
        match (
            text_at(tree, "SamAccountName"@),
            text_at(tree, "Name"@),
            coded_at(tree, "GroupCategory"@),
            coded_at(tree, "GroupScope"@),
        ) {
            (Some(sam_account_name), Some(name), Some(category), Some(scope)) => Some(
                AdGroupView {
                    sam_account_name,
                    name,
                    category: word_of(category),
                    scope: word_of(scope),
                    sid: sid_at(tree),
                },
            ),
            _ => None,
        }
    }

    fn map(value: &JsonValue) -> (r: Option<AdGroupInfo>) {
        let sam_account_name = text_field(value, "SamAccountName")?;
        let name = text_field(value, "Name")?;
        let category = coded_field(value, "GroupCategory")?;
        let scope = coded_field(value, "GroupScope")?;
        Some(
            AdGroupInfo {
                sam_account_name,
                name,
                category: word(category),
                scope: word(scope),
                sid: parse_sid(value),
            },
        )
    }
}

impl Record for AdMemberInfo {
    /// A member needs its account name, its name and its class, under
    /// either spelling of that member's name.
    open spec fn mapped(tree: JsonTree) -> Option<AdMemberView> {
        match (
            text_at(tree, "SamAccountName"@),
            text_at(tree, "Name"@),
            first_text_at(tree, seq!["objectClass"@, "ObjectClass"@]),
        ) {
            (Some(sam_account_name), Some(name), Some(object_class)) => Some(
                AdMemberView { sam_account_name, name, object_class, sid: sid_at(tree) },
            ),
            _ => None,
        }
    }

    fn map(value: &JsonValue) -> (r: Option<AdMemberInfo>) {
        let sam_account_name = text_field(value, "SamAccountName")?;
        let name = text_field(value, "Name")?;
        let names = ["objectClass", "ObjectClass"];
        assert(views(names@) =~= seq!["objectClass"@, "ObjectClass"@]);
        let object_class = first_text_field(value, &names)?;
        Some(AdMemberInfo { sam_account_name, name, object_class, sid: parse_sid(value) })
    }
}

// ---------------------------------------------------------------------------
// Prerequisites
// ---------------------------------------------------------------------------

pub const CHECK_DOMAIN: &'static str = "(Get-WmiObject -Class Win32_ComputerSystem).PartOfDomain";

pub const CHECK_MODULE: &'static str =
    "if (Get-Module -ListAvailable -Name ActiveDirectory) { $true } else { $false }";

pub const TRUE_WORD: &'static str = "true";

pub const DOMAIN_UNCHECKED: &'static str = "Impossible de vérifier l'appartenance au domaine.";

pub const NOT_JOINED: &'static str = "L'ordinateur n'est pas joint à un domaine Active Directory.";

pub const MODULE_UNCHECKED: &'static str =
    "Impossible de vérifier la présence du module Active Directory.";

pub const MODULE_MISSING: &'static str =
    "Le module PowerShell Active Directory n'est pas installé sur cette machine.";

/// How far a directory operation has come.
#[derive(Debug)]
pub enum DirectoryOperation {
    /// The check that the machine is joined to a domain is running;
    /// `command` is the command of the operation itself.
    CheckingDomain { command: Invocation },
    /// The check that the directory module is installed is running.
    CheckingModule { command: Invocation },
    /// The command of the operation itself is running.
    Running,
}

/// What a check says where it could be made: yes where the tool wrote the
/// word "true", in any case and with white space around it.
pub open spec fn says_true(out: Seq<char>) -> bool {
    lowercase(trimmed(out)) == TRUE_WORD@
}

fn is_true(out: &str) -> (r: bool)
    ensures
        r == says_true(out@),
{
    same_chars(&lower(&trim(&chars_of(out))), &chars_of(TRUE_WORD))
}

/// What a check of a prerequisite came to: nothing where it passed, else
/// what is reported: the failure to run the tool, `unchecked` where the
/// tool failed, `missing` where it denied.
pub open spec fn prerequisite(
    outcome: Result<ExecutionResult, ErrorKind>,
    unchecked: Seq<char>,
    missing: Seq<char>,
) -> Option<ErrorView> {
    match outcome {
        Err(e) => Some(e@),
        Ok(raw) => if !raw.exit_success {
            Some(ErrorView::Unavailable { detail: unchecked })
        } else if !says_true(utf8_lossy(raw.stdout@)) {
            Some(ErrorView::Unavailable { detail: missing })
        } else {
            None
        },
    }
}

fn check_prerequisite(outcome: Result<ExecutionResult, ErrorKind>, unchecked: &str, missing: &str) -> (r:
    Option<ErrorKind>)
    ensures
        match r {
            Some(e) => prerequisite(outcome, unchecked@, missing@) == Some(e@),
            None => prerequisite(outcome, unchecked@, missing@) is None,
        },
{
    match outcome {
        Err(e) => Some(e),
        Ok(raw) => if !raw.exit_success {
            Some(ErrorKind::unavailable(unchecked))
        } else if !is_true(raw.stdout_text().as_str()) {
            Some(ErrorKind::unavailable(missing))
        } else {
            None
        },
    }
}

/// A directory operation before anything was run, and the check that the
/// machine is joined to a domain.
pub fn check_ad_prerequisites(command: Invocation) -> (r: (DirectoryOperation, Invocation))
    ensures
        r.0 matches DirectoryOperation::CheckingDomain { command: kept } && kept@ == command@,
        r.1@ == powershell(CHECK_DOMAIN@),
{
    (
        DirectoryOperation::CheckingDomain { command },
        Invocation::powershell(String::from_str(CHECK_DOMAIN)),
    )
}

/// The next step of a directory operation. Both prerequisites are checked
/// before the command of the operation is run, and the operation ends at
/// once where one is missing. It ends with what the run of its command
/// came to.
pub fn directory_resume(state: DirectoryOperation, outcome: Result<ExecutionResult, ErrorKind>) -> (r:
    Step<DirectoryOperation, Result<ExecutionResult, ErrorKind>>)
    ensures
        match state {
            DirectoryOperation::CheckingDomain { command } => match prerequisite(
                outcome,
                DOMAIN_UNCHECKED@,
                NOT_JOINED@,
            ) {
                Some(e) => r matches Step::Done(Err(err)) && err@ == e,
                None => {
                    &&& r matches Step::Run(
                        DirectoryOperation::CheckingModule { command: kept },
                        invocation,
                    )
                    &&& kept@ == command@
                    &&& invocation@ == powershell(CHECK_MODULE@)
                },
            },
            DirectoryOperation::CheckingModule { command } => match prerequisite(
                outcome,
                MODULE_UNCHECKED@,
                MODULE_MISSING@,
            ) {
                Some(e) => r matches Step::Done(Err(err)) && err@ == e,
                None => r matches Step::Run(DirectoryOperation::Running, invocation) && invocation@
                    == command@,
            },
            DirectoryOperation::Running => r matches Step::Done(result) && result == outcome,
        },
{
    match state {
        DirectoryOperation::CheckingDomain { command } => match check_prerequisite(
            outcome,
            DOMAIN_UNCHECKED,
            NOT_JOINED,
        ) {
            Some(e) => Step::Done(Err(e)),
            None => Step::Run(
                DirectoryOperation::CheckingModule { command },
                Invocation::powershell(String::from_str(CHECK_MODULE)),
            ),
        },
        DirectoryOperation::CheckingModule { command } => match check_prerequisite(
            outcome,
            MODULE_UNCHECKED,
            MODULE_MISSING,
        ) {
            Some(e) => Step::Done(Err(e)),
            None => Step::Run(DirectoryOperation::Running, command),
        },
        DirectoryOperation::Running => Step::Done(outcome),
    }
}

// ---------------------------------------------------------------------------
// Searches
// ---------------------------------------------------------------------------

pub const FIND_USERS: &'static str = "Get-ADUser -Filter { Name -like ";

pub const OR_ACCOUNT: &'static str = " -or SamAccountName -like ";

pub const SELECT_USERS: &'static str =
    " } | Select-Object SamAccountName, Name, Enabled, SID | ConvertTo-Json -Depth 3 -Compress";

pub const FIND_COMPUTERS: &'static str = "Get-ADComputer -Filter { Name -like ";

pub const OR_HOST: &'static str = " -or DNSHostName -like ";

pub const SELECT_COMPUTERS: &'static str =
    " } | Select-Object Name, DNSHostName, Enabled, OperatingSystem | ConvertTo-Json -Depth 3 -Compress";

pub const FIND_GROUPS: &'static str = "Get-ADGroup -Filter { Name -like ";

pub const SELECT_GROUPS: &'static str =
    " } | Select-Object SamAccountName, Name, GroupCategory, GroupScope, SID | ConvertTo-Json -Depth 3 -Compress";

/// The script of a search: the filter's plain characters are looked for
/// in either of two members.
pub open spec fn search_script(
    open: Seq<char>,
    or: Seq<char>,
    close: Seq<char>,
    filter: Seq<char>,
) -> Seq<char> {
    open + like_pattern(filter) + or + like_pattern(filter) + close
}

fn search_invocation(open: &str, or: &str, close: &str, filter: &str) -> (r: Invocation)
    ensures
        r@ == powershell(search_script(open@, or@, close@, filter@)),
{
    let pattern = quote_like_pattern(filter);
    Invocation::powershell(
        String::from_str(open).concat(pattern.as_str()).concat(or).concat(pattern.as_str()).concat(
            close,
        ),
    )
}

/// The command that searches the users whose name or account name holds
/// the filter.
pub fn search_ad_users_command(filter: &str) -> (r: Invocation)
    ensures
        r@ == powershell(search_script(FIND_USERS@, OR_ACCOUNT@, SELECT_USERS@, filter@)),
{
    search_invocation(FIND_USERS, OR_ACCOUNT, SELECT_USERS, filter)
}

/// The users that the search gave.
pub fn search_ad_users_response(outcome: Result<ExecutionResult, ErrorKind>) -> (r: Result<
    Vec<AdUserInfo>,
    ErrorKind,
>)
    ensures
        yields_all(r, listed::<AdUserInfo>(outcome)),
{
    list_records::<AdUserInfo>(outcome)
}

/// The command that searches the computers whose name or host name holds
/// the filter.
pub fn search_ad_computers_command(filter: &str) -> (r: Invocation)
    ensures
        r@ == powershell(search_script(FIND_COMPUTERS@, OR_HOST@, SELECT_COMPUTERS@, filter@)),
{
    search_invocation(FIND_COMPUTERS, OR_HOST, SELECT_COMPUTERS, filter)
}

/// The computers that the search gave.
pub fn search_ad_computers_response(outcome: Result<ExecutionResult, ErrorKind>) -> (r: Result<
    Vec<FoundAdComputerInfo>,
    ErrorKind,
>)
    ensures
        yields_all(r, listed::<FoundAdComputerInfo>(outcome)),
{
    list_records::<FoundAdComputerInfo>(outcome)
}

/// The command that searches the groups whose name or account name holds
/// the filter.
pub fn search_ad_groups_command(filter: &str) -> (r: Invocation)
    ensures
        r@ == powershell(search_script(FIND_GROUPS@, OR_ACCOUNT@, SELECT_GROUPS@, filter@)),
{
    search_invocation(FIND_GROUPS, OR_ACCOUNT, SELECT_GROUPS, filter)
}

/// The groups that a search or a question for membership gave.
pub fn ad_groups_response(outcome: Result<ExecutionResult, ErrorKind>) -> (r: Result<
    Vec<AdGroupInfo>,
    ErrorKind,
>)
    ensures
        yields_all(r, listed::<AdGroupInfo>(outcome)),
{
    list_records::<AdGroupInfo>(outcome)
}

// ---------------------------------------------------------------------------
// Operations on one identity
// ---------------------------------------------------------------------------

pub const BAD_IDENTITY: &'static str = "L'identité ne peut pas être vide.";

pub const GROUP_MEMBERS: &'static str = "Get-ADGroupMember -Identity ";

pub const SELECT_MEMBERS: &'static str =
    " | Select-Object SamAccountName, Name, objectClass, SID | ConvertTo-Json -Depth 3 -Compress";

pub const MEMBERSHIP: &'static str = "Get-ADPrincipalGroupMembership -Identity ";

pub const SELECT_MEMBERSHIP: &'static str =
    " | Select-Object SamAccountName, Name, GroupCategory, GroupScope, SID | ConvertTo-Json -Depth 3 -Compress";

pub const ENABLE_ACCOUNT: &'static str = "Enable-ADAccount -Identity ";

pub const DISABLE_ACCOUNT: &'static str = "Disable-ADAccount -Identity ";

pub const UNLOCK_ACCOUNT: &'static str = "Unlock-ADAccount -Identity ";

pub const RESET_PASSWORD: &'static str = "Set-ADAccountPassword -Identity ";

pub const RESET_FLAG: &'static str = " -Reset";

pub const NOTHING: &'static str = "";

/// The command on one identity: the identity stands as a double-quoted
/// literal between what opens and what closes the script. An identity
/// that holds nothing is refused.
pub open spec fn identity_command(open: Seq<char>, close: Seq<char>, identity: Seq<char>) -> Result<
    InvocationView,
    ErrorView,
> {
    if is_blank(identity) {
        Err(ErrorView::InvalidArgument { detail: BAD_IDENTITY@ })
    } else {
        Ok(powershell(open + double_quoted(identity) + close))
    }
}

fn identity_invocation(open: &str, close: &str, identity: &str) -> (r: Result<
    Invocation,
    ErrorKind,
>)
    ensures
        match r {
            Ok(invocation) => identity_command(open@, close@, identity@) == Ok::<
                InvocationView,
                ErrorView,
            >(invocation@),
            Err(e) => identity_command(open@, close@, identity@) == Err::<
                InvocationView,
                ErrorView,
            >(e@),
        },
{
    if !is_named(identity) {
        return Err(ErrorKind::invalid_argument(BAD_IDENTITY));
    }
    Ok(
        Invocation::powershell(
            String::from_str(open).concat(quote_double(identity).as_str()).concat(close),
        ),
    )
}

/// The command that lists the members of a group.
pub fn get_ad_group_members_command(group_identity: &str) -> (r: Result<Invocation, ErrorKind>)
    ensures
        builds(r, identity_command(GROUP_MEMBERS@, SELECT_MEMBERS@, group_identity@)),
{
    identity_invocation(GROUP_MEMBERS, SELECT_MEMBERS, group_identity)
}

/// The members that the command gave.
pub fn get_ad_group_members_response(outcome: Result<ExecutionResult, ErrorKind>) -> (r: Result<
    Vec<AdMemberInfo>,
    ErrorKind,
>)
    ensures
        yields_all(r, listed::<AdMemberInfo>(outcome)),
{
    list_records::<AdMemberInfo>(outcome)
}

/// The command that lists the groups that a principal belongs to.
pub fn get_ad_principal_group_membership_command(principal_identity: &str) -> (r: Result<
    Invocation,
    ErrorKind,
>)
    ensures
        builds(r, identity_command(MEMBERSHIP@, SELECT_MEMBERSHIP@, principal_identity@)),
{
    identity_invocation(MEMBERSHIP, SELECT_MEMBERSHIP, principal_identity)
}

/// The command that enables an account.
pub fn enable_ad_account_command(account_identity: &str) -> (r: Result<Invocation, ErrorKind>)
    ensures
        builds(r, identity_command(ENABLE_ACCOUNT@, NOTHING@, account_identity@)),
{
    identity_invocation(ENABLE_ACCOUNT, NOTHING, account_identity)
}

/// The command that disables an account.
pub fn disable_ad_account_command(account_identity: &str) -> (r: Result<Invocation, ErrorKind>)
    ensures
        builds(r, identity_command(DISABLE_ACCOUNT@, NOTHING@, account_identity@)),
{
    identity_invocation(DISABLE_ACCOUNT, NOTHING, account_identity)
}

/// The command that unlocks an account.
pub fn unlock_ad_account_command(account_identity: &str) -> (r: Result<Invocation, ErrorKind>)
    ensures
        builds(r, identity_command(UNLOCK_ACCOUNT@, NOTHING@, account_identity@)),
{
    identity_invocation(UNLOCK_ACCOUNT, NOTHING, account_identity)
}

/// The command that resets the password of an account.
pub fn reset_ad_account_password_command(account_identity: &str) -> (r: Result<
    Invocation,
    ErrorKind,
>)
    ensures
        builds(r, identity_command(RESET_PASSWORD@, RESET_FLAG@, account_identity@)),
{
    identity_invocation(RESET_PASSWORD, RESET_FLAG, account_identity)
}

/// What an action on an account, or the refresh of the group policy,
/// came to.
pub fn account_action_response(outcome: Result<ExecutionResult, ErrorKind>) -> (r: Result<
    (),
    ErrorKind,
>)
    ensures
        yields_unit(r, acknowledged(outcome)),
{
    acknowledge(outcome)
}

pub const GPUPDATE: &'static str = "gpupdate";

pub const FORCE: &'static str = "/force";

/// The command that refreshes the group policy.
pub fn force_gp_update_command() -> (r: Invocation)
    ensures
        r@ == native(GPUPDATE@, seq![FORCE@]),
{
    let r = Invocation::native(GPUPDATE, &[FORCE]);
    assert(r@.arguments =~= seq![FORCE@]);
    r
}

// ---------------------------------------------------------------------------
// The machine and the user
// ---------------------------------------------------------------------------

pub const GET_DOMAIN: &'static str = "(Get-WmiObject -Class Win32_ComputerSystem).Domain";

pub const GET_SITE: &'static str =
    "try { (Get-WmiObject -Class Win32_NTDomain -Filter \"DomainName='$((Get-WmiObject -Class Win32_ComputerSystem).Domain)'\").ClientSiteName } catch { Write-Output \"\" }";

/// How far the question for the machine's membership has come.
#[derive(Debug)]
pub enum MembershipState {
    /// The domain is being asked for.
    AskingDomain { logon_server: Option<String> },
    /// The site is being asked for.
    AskingSite { domain_name: String, logon_server: Option<String> },
}

/// The name that a tool wrote, where it wrote one.
pub open spec fn written_name(out: Seq<char>) -> Option<Seq<char>> {
    if trimmed(out).len() > 0 {
        Some(trimmed(out))
    } else {
        None
    }
}

fn read_name(out: &str) -> (r: Option<String>)
    ensures
        option_text(r) == written_name(out@),
{
    let v = trim(&chars_of(out));
    if v.len() > 0 {
        Some(text_of(&v))
    } else {
        None
    }
}

/// The question for the machine's membership before anything was run, and
/// the command that asks for the domain. `logon_server` is the name of the
/// server that logged the user on, as the environment gives it.
pub fn get_ad_computer_info_begin(logon_server: Option<String>) -> (r: (MembershipState, Invocation))
    ensures
        r.0 matches MembershipState::AskingDomain { logon_server: l } && l == logon_server,
        r.1@ == powershell(GET_DOMAIN@),
{
    (
        MembershipState::AskingDomain { logon_server },
        Invocation::powershell(String::from_str(GET_DOMAIN)),
    )
}

/// The server that logged the user on, without the backslashes in front
/// of its name.
pub open spec fn logon_server_of(given: Option<String>) -> Option<Seq<char>> {
    match given {
        Some(s) => Some(without_leading(s@, '\\')),
        None => None,
    }
}

/// The next step of the question for the machine's membership. It fails
/// where the domain cannot be asked for. A machine that names no domain is
/// not joined, and nothing more is asked. The site is left out where the
/// tool fails.
pub fn get_ad_computer_info_resume(
    state: MembershipState,
    outcome: Result<ExecutionResult, ErrorKind>,
) -> (r: Step<MembershipState, Result<AdComputerInfo, ErrorKind>>)
    ensures
        match state {
            MembershipState::AskingDomain { logon_server } => match outcome {
                Err(e) => r matches Step::Done(Err(err)) && err@ == e@,
                Ok(raw) => if !raw.exit_success {
                    r matches Step::Done(Err(err)) && err@ == (ErrorView::ExternalToolFailed {
                        stderr: utf8_lossy(raw.stderr@),
                    })
                } else {
                    match written_name(utf8_lossy(raw.stdout@)) {
                        None => r matches Step::Done(Ok(info)) && info@ == (AdComputerView {
                            is_joined: false,
                            domain_name: None,
                            site_name: None,
                            logon_server: None,
                        }),
                        Some(domain) => {
                            &&& r matches Step::Run(
                                MembershipState::AskingSite { domain_name, logon_server: l },
                                invocation,
                            )
                            &&& domain_name@ == domain
                            &&& l == logon_server
                            &&& invocation@ == powershell(GET_SITE@)
                        },
                    }
                },
            },
            MembershipState::AskingSite { domain_name, logon_server } => match outcome {
                Err(e) => r matches Step::Done(Err(err)) && err@ == e@,
                Ok(raw) => r matches Step::Done(Ok(info)) && info@ == (AdComputerView {
                    is_joined: true,
                    domain_name: Some(domain_name@),
                    site_name: if raw.exit_success {
                        written_name(utf8_lossy(raw.stdout@))
                    } else {
                        None
                    },
                    logon_server: logon_server_of(logon_server),
                }),
            },
        },
{
    match state {
        MembershipState::AskingDomain { logon_server } => match outcome {
            Err(e) => Step::Done(Err(e)),
            Ok(raw) => if !raw.exit_success {
                Step::Done(Err(ErrorKind::ExternalToolFailed { stderr: raw.stderr_text() }))
            } else {
                match read_name(raw.stdout_text().as_str()) {
                    None => Step::Done(
                        Ok(
                            AdComputerInfo {
                                is_joined: false,
                                domain_name: None,
                                site_name: None,
                                logon_server: None,
                            },
                        ),
                    ),
                    Some(domain_name) => Step::Run(
                        MembershipState::AskingSite { domain_name, logon_server },
                        Invocation::powershell(String::from_str(GET_SITE)),
                    ),
                }
            },
        },
        MembershipState::AskingSite { domain_name, logon_server } => match outcome {
            Err(e) => Step::Done(Err(e)),
            Ok(raw) => {
                let site_name = if raw.exit_success {
                    read_name(raw.stdout_text().as_str())
                } else {
                    None
                };
                let server = match logon_server {
                    Some(s) => Some(text_of(&strip_leading(&chars_of(s.as_str()), '\\'))),
                    None => None,
                };
                Step::Done(
                    Ok(
                        AdComputerInfo {
                            is_joined: true,
                            domain_name: Some(domain_name),
                            site_name,
                            logon_server: server,
                        },
                    ),
                )
            },
        },
    }
}

/// The user who is logged on, from what the environment names: the user,
/// and the user's domain unless it is the name of the machine itself.
pub fn get_logged_in_user_info(
    user_name: Option<String>,
    user_domain: Option<String>,
    computer_name: Option<String>,
) -> (r: LoggedInUserInfo)
    ensures
        r@.user_name == option_text(user_name),
        r@.user_domain == match (user_domain, computer_name) {
            (Some(d), Some(c)) => if c@ == d@ {
                None
            } else {
                Some(d@)
            },
            (Some(d), None) => Some(d@),
            (None, _) => None,
        },
{
    let user_domain = match user_domain {
        Some(d) => match computer_name {
            Some(c) => if same_text(c.as_str(), d.as_str()) {
                None
            } else {
                Some(d)
            },
            None => Some(d),
        },
        None => None,
    };
    LoggedInUserInfo { user_name, user_domain }
}

} // verus!
