//! Firewall rules and the state of the antivirus.

use vstd::prelude::*;
use vstd::string::*;
use crate::command::{powershell, Invocation};
use crate::error::{ErrorKind};
use crate::execution::{ExecutionResult};
use crate::json::{JsonTree, JsonValue};
use crate::mapper::{
    bool_at, bool_field, coded_at, coded_field, date_at, date_field, first_text_at,
    first_text_field, list_records, listed, single, single_record, switch_at, switch_field,
    text_field_or, text_or, yields, yields_all, CodeName, CodeView, Coded, CodedView, Record,
    NOT_AVAILABLE,
};
use crate::text::{chars_of, views};

verus! {

// ---------------------------------------------------------------------------
// Coded fields of a firewall rule
// ---------------------------------------------------------------------------

pub open spec fn firewall_direction_of(code: int) -> CodeView {
    if code == 1 {
        CodeView::Known("Inbound"@)
    } else if code == 2 {
        CodeView::Known("Outbound"@)
    } else {
        CodeView::Unknown(code)
    }
}

pub fn firewall_direction(code: i128) -> (r: CodeName)
    ensures
        r@ == firewall_direction_of(code as int),
{
    if code == 1 {
        CodeName::Known("Inbound")
    } else if code == 2 {
        CodeName::Known("Outbound")
    } else {
        CodeName::Unknown(code)
    }
}

pub open spec fn firewall_action_of(code: int) -> CodeView {
    if code == 1 {
        CodeView::Known("NotConfigured"@)
    } else if code == 2 {
        CodeView::Known("Allow"@)
    } else if code == 3 {
        CodeView::Known("Block"@)
    } else {
        CodeView::Unknown(code)
    }
}

pub fn firewall_action(code: i128) -> (r: CodeName)
    ensures
        r@ == firewall_action_of(code as int),
{
    if code == 1 {
        CodeName::Known("NotConfigured")
    } else if code == 2 {
        CodeName::Known("Allow")
    } else if code == 3 {
        CodeName::Known("Block")
    } else {
        CodeName::Unknown(code)
    }
}

pub const UNKNOWN_OPEN: &'static str = "Inconnu (";

pub const UNKNOWN_CLOSE: &'static str = ")";

pub const PROFILE_DOMAIN: &'static str = "Domain";

pub const PROFILE_PRIVATE: &'static str = "Private";

pub const PROFILE_PUBLIC: &'static str = "Public";

pub const PROFILE_ANY: &'static str = "Any";

pub const PROFILE_SEPARATOR: &'static str = ", ";

/// `names` with `name` added, after a separator where `names` holds
/// something already.
pub open spec fn with_name(names: Seq<char>, name: Seq<char>) -> Seq<char> {
    if names.len() == 0 {
        name
    } else {
        names + PROFILE_SEPARATOR@ + name
    }
}

/// The names of the profiles whose bits are set in `mask`: 1 is the domain
/// profile, 2 the private one, 4 the public one; "Any" where none is set.
pub open spec fn firewall_profile_of(mask: u64) -> Seq<char> {
    let domain = if mask & 1 != 0 {
        PROFILE_DOMAIN@
    } else {
        Seq::empty()
    };
    let private = if mask & 2 != 0 {
        with_name(domain, PROFILE_PRIVATE@)
    } else {
        domain
    };
    let public = if mask & 4 != 0 {
        with_name(private, PROFILE_PUBLIC@)
    } else {
        private
    };
    if mask & 7 == 0 {
        PROFILE_ANY@
    } else {
        public
    }
}

fn add_name(names: String, name: &str) -> (r: String)
    ensures
        r@ == with_name(names@, name@),
{
    if chars_of(names.as_str()).len() == 0 {
        String::from_str(name)
    } else {
        names.concat(PROFILE_SEPARATOR).concat(name)
    }
}

pub fn firewall_profile(mask: u64) -> (r: String)
    ensures
        r@ == firewall_profile_of(mask),
{
    if mask & 7 == 0 {
        return String::from_str(PROFILE_ANY);
    }
    let mut names = String::new();
    if mask & 1 != 0 {
        names = String::from_str(PROFILE_DOMAIN);
    }
    if mask & 2 != 0 {
        names = add_name(names, PROFILE_PRIVATE);
    }
    if mask & 4 != 0 {
        names = add_name(names, PROFILE_PUBLIC);
    }
    names
}

// ---------------------------------------------------------------------------
// Firewall rules
// ---------------------------------------------------------------------------

#[derive(Debug)]
pub struct FirewallRuleInfo {
    pub name: String,
    pub enabled: bool,
    pub direction: String,
    pub action: String,
    pub profile: String,
}

pub struct FirewallRuleView {
    pub name: Seq<char>,
    pub enabled: bool,
    pub direction: Seq<char>,
    pub action: Seq<char>,
    pub profile: Seq<char>,
}

impl View for FirewallRuleInfo {
    type V = FirewallRuleView;

    open spec fn view(&self) -> FirewallRuleView {
        FirewallRuleView {
            name: self.name@,
            enabled: self.enabled,
            direction: self.direction@,
            action: self.action@,
            profile: self.profile@,
        }
    }
}

/// The label of a rule's direction.
pub open spec fn direction_label(c: CodedView) -> Seq<char> {
    match c {
        CodedView::Text(t) => t,
        CodedView::Code(code) => firewall_direction_of(code).label(UNKNOWN_OPEN@, UNKNOWN_CLOSE@),
    }
}

/// The label of a rule's action.
pub open spec fn action_label(c: CodedView) -> Seq<char> {
    match c {
        CodedView::Text(t) => t,
        CodedView::Code(code) => firewall_action_of(code).label(UNKNOWN_OPEN@, UNKNOWN_CLOSE@),
    }
}

/// The label of a rule's profiles; a code that is no bit mask of 64 bits
/// counts as no restriction.
pub open spec fn profile_label(c: CodedView) -> Seq<char> {
    match c {
        CodedView::Text(t) => t,
        CodedView::Code(code) => if 0 <= code <= u64::MAX {
            firewall_profile_of(code as u64)
        } else {
            PROFILE_ANY@
        },
    }
}

impl Record for FirewallRuleInfo {
    /// A rule needs a name, under either of its two member names, a switch,
    /// and its three coded members.
    open spec fn mapped(tree: JsonTree) -> Option<FirewallRuleView> {
        match (
            first_text_at(tree, seq!["DisplayName"@, "Name"@]),
            switch_at(tree, "Enabled"@),
            coded_at(tree, "Direction"@),
            coded_at(tree, "Action"@),
            coded_at(tree, "Profile"@),
        ) {
            (Some(name), Some(enabled), Some(direction), Some(action), Some(profile)) => Some(
                FirewallRuleView {
                    name,
                    enabled,
                    direction: direction_label(direction),
                    action: action_label(action),
                    profile: profile_label(profile),
                },
            ),
            _ => None,
        }
    }

    fn map(value: &JsonValue) -> (r: Option<FirewallRuleInfo>) {
        let names = ["DisplayName", "Name"];
        assert(views(names@) =~= seq!["DisplayName"@, "Name"@]);
        let name = first_text_field(value, &names)?;
        let enabled = switch_field(value, "Enabled")?;
        let direction = match coded_field(value, "Direction")? {
            Coded::Text(t) => t,
            Coded::Code(code) => firewall_direction(code).label(UNKNOWN_OPEN, UNKNOWN_CLOSE),
        };
        let action = match coded_field(value, "Action")? {
            Coded::Text(t) => t,
            Coded::Code(code) => firewall_action(code).label(UNKNOWN_OPEN, UNKNOWN_CLOSE),
        };
        let profile = match coded_field(value, "Profile")? {
            Coded::Text(t) => t,
            Coded::Code(code) => if 0 <= code && code <= 0xFFFF_FFFF_FFFF_FFFF {
                firewall_profile(code as u64)
            } else {
                String::from_str(PROFILE_ANY)
            },
        };
        Some(FirewallRuleInfo { name, enabled, direction, action, profile })
    }
}

pub const LIST_FIREWALL_RULES: &'static str =
    "Get-NetFirewallRule | Select-Object DisplayName, Enabled, Direction, Action, Profile | ConvertTo-Json -Depth 3 -Compress";

/// The command that lists the firewall rules.
pub fn list_firewall_rules_command() -> (r: Invocation)
    ensures
        r@ == powershell(LIST_FIREWALL_RULES@),
{
    Invocation::powershell(String::from_str(LIST_FIREWALL_RULES))
}

/// The firewall rules that the command gave.
pub fn list_firewall_rules_response(outcome: Result<ExecutionResult, ErrorKind>) -> (r: Result<
    Vec<FirewallRuleInfo>,
    ErrorKind,
>)
    ensures
        yields_all(r, listed::<FirewallRuleInfo>(outcome)),
{
    list_records::<FirewallRuleInfo>(outcome)
}

// ---------------------------------------------------------------------------
// Antivirus
// ---------------------------------------------------------------------------

#[derive(Debug)]
pub struct AntivirusStatusInfo {
    pub antispyware_enabled: bool,
    pub real_time_protection_enabled: bool,
    pub antivirus_signature_version: String,
    pub nis_signature_version: String,
    pub last_full_scan_end_time: String,
}

pub struct AntivirusStatusView {
    pub antispyware_enabled: bool,
    pub real_time_protection_enabled: bool,
    pub antivirus_signature_version: Seq<char>,
    pub nis_signature_version: Seq<char>,
    pub last_full_scan_end_time: Seq<char>,
}

impl View for AntivirusStatusInfo {
    type V = AntivirusStatusView;

    open spec fn view(&self) -> AntivirusStatusView {
        AntivirusStatusView {
            antispyware_enabled: self.antispyware_enabled,
            real_time_protection_enabled: self.real_time_protection_enabled,
            antivirus_signature_version: self.antivirus_signature_version@,
            nis_signature_version: self.nis_signature_version@,
            last_full_scan_end_time: self.last_full_scan_end_time@,
        }
    }
}

/// The truth value of the member `name`, or false.
pub open spec fn bool_or_false(tree: JsonTree, name: Seq<char>) -> bool {
    match bool_at(tree, name) {
        Some(b) => b,
        None => false,
    }
}

impl Record for AntivirusStatusInfo {
    /// Any object is a status; each member that is missing gets its default.
    open spec fn mapped(tree: JsonTree) -> Option<AntivirusStatusView> {
        if tree is Object {
            Some(
                AntivirusStatusView {
                    antispyware_enabled: bool_or_false(tree, "AntispywareEnabled"@),
                    real_time_protection_enabled: bool_or_false(
                        tree,
                        "RealTimeProtectionEnabled"@,
                    ),
                    antivirus_signature_version: text_or(
                        tree,
                        "AntivirusSignatureVersion"@,
                        NOT_AVAILABLE@,
                    ),
                    nis_signature_version: text_or(tree, "NisSignatureVersion"@, NOT_AVAILABLE@),
                    last_full_scan_end_time: date_at(tree, "LastFullScanEndTime"@),
                },
            )
        } else {
            None
        }
    }

    fn map(value: &JsonValue) -> (r: Option<AntivirusStatusInfo>) {
        if !value.is_object() {
            return None;
        }
        Some(
            AntivirusStatusInfo {
                antispyware_enabled: match bool_field(value, "AntispywareEnabled") {
                    Some(b) => b,
                    None => false,
                },
                real_time_protection_enabled: match bool_field(
                    value,
                    "RealTimeProtectionEnabled",
                ) {
                    Some(b) => b,
                    None => false,
                },
                antivirus_signature_version: text_field_or(
                    value,
                    "AntivirusSignatureVersion",
                    NOT_AVAILABLE,
                ),
                nis_signature_version: text_field_or(value, "NisSignatureVersion", NOT_AVAILABLE),
                last_full_scan_end_time: date_field(value, "LastFullScanEndTime"),
            },
        )
    }
}

pub const GET_ANTIVIRUS_STATUS: &'static str =
    "Get-MpComputerStatus | Select-Object AntispywareEnabled, RealTimeProtectionEnabled, AntivirusSignatureVersion, NisSignatureVersion, LastFullScanEndTime | ConvertTo-Json -Depth 3 -Compress";

pub const NO_ANTIVIRUS_STATUS: &'static str =
    "Get-MpComputerStatus n'a retourné aucune information.";

/// The command that asks for the state of the antivirus.
pub fn get_antivirus_status_command() -> (r: Invocation)
    ensures
        r@ == powershell(GET_ANTIVIRUS_STATUS@),
{
    Invocation::powershell(String::from_str(GET_ANTIVIRUS_STATUS))
}

/// The state of the antivirus that the command gave.
pub fn get_antivirus_status_response(outcome: Result<ExecutionResult, ErrorKind>) -> (r: Result<
    AntivirusStatusInfo,
    ErrorKind,
>)
    ensures
        yields(r, single::<AntivirusStatusInfo>(outcome, NO_ANTIVIRUS_STATUS@)),
{
    single_record::<AntivirusStatusInfo>(outcome, NO_ANTIVIRUS_STATUS)
}

} // verus!
