//! Local users and groups.

use vstd::prelude::*;
use vstd::string::*;
use crate::command::{powershell, Invocation};
use crate::error::{ErrorKind, ErrorView};
use crate::execution::ExecutionResult;
use crate::json::{JsonTree, JsonValue};
use crate::mapper::{
    acknowledge, acknowledged, list_records, listed, nested_text_at, nested_text_field, switch_at,
    switch_field, text_at, text_field, text_field_or, text_or, yields_all, yields_unit, Record,
    NOT_AVAILABLE, VALUE_MEMBER,
};
use crate::quoting::{double_quoted, quote_double};
use crate::text::{chars_of, is_blank};
use crate::validate::is_named;

verus! {

/// The security identifier of a record: the text wrapped in the member
/// that holds it, under either spelling of the member's name, else the
/// sentinel.
pub open spec fn sid_at(tree: JsonTree) -> Seq<char> {
    match nested_text_at(tree, "SID"@, VALUE_MEMBER@) {
        Some(t) => t,
        None => match nested_text_at(tree, "Sid"@, VALUE_MEMBER@) {
            Some(t) => t,
            None => NOT_AVAILABLE@,
        },
    }
}

pub fn parse_sid(value: &JsonValue) -> (r: String)
    ensures
        r@ == sid_at(value@),
{
    match nested_text_field(value, "SID", VALUE_MEMBER) {
        Some(t) => t,
        None => match nested_text_field(value, "Sid", VALUE_MEMBER) {
            Some(t) => t,
            None => String::from_str(NOT_AVAILABLE),
        },
    }
}

pub const NOTHING: &'static str = "";

#[derive(Debug)]
pub struct LocalUserInfo {
    pub name: String,
    pub full_name: String,
    pub description: String,
    pub enabled: bool,
    pub sid: String,
}

pub struct LocalUserView {
    pub name: Seq<char>,
    pub full_name: Seq<char>,
    pub description: Seq<char>,
    pub enabled: bool,
    pub sid: Seq<char>,
}

impl View for LocalUserInfo {
    type V = LocalUserView;

    open spec fn view(&self) -> LocalUserView {
        LocalUserView {
            name: self.name@,
            full_name: self.full_name@,
            description: self.description@,
            enabled: self.enabled,
            sid: self.sid@,
        }
    }
}

impl Record for LocalUserInfo {
    /// A user needs a name and the switch that says whether the account
    /// is enabled.
    open spec fn mapped(tree: JsonTree) -> Option<LocalUserView> {
        match (text_at(tree, "Name"@), switch_at(tree, "Enabled"@)) {
            (Some(name), Some(enabled)) => Some(
                LocalUserView {
                    name,
                    full_name: text_or(tree, "FullName"@, NOTHING@),
                    description: text_or(tree, "Description"@, NOTHING@),
                    enabled,
                    sid: sid_at(tree),
                },
            ),
            _ => None,
        }
    }

    fn map(value: &JsonValue) -> (r: Option<LocalUserInfo>) {
        let name = text_field(value, "Name")?;
        let enabled = switch_field(value, "Enabled")?;
        Some(
            LocalUserInfo {
                name,
                full_name: text_field_or(value, "FullName", NOTHING),
                description: text_field_or(value, "Description", NOTHING),
                enabled,
                sid: parse_sid(value),
            },
        )
    }
}

#[derive(Debug)]
pub struct LocalGroupInfo {
    pub name: String,
    pub description: String,
    pub sid: String,
}

pub struct LocalGroupView {
    pub name: Seq<char>,
    pub description: Seq<char>,
    pub sid: Seq<char>,
}

impl View for LocalGroupInfo {
    type V = LocalGroupView;

    open spec fn view(&self) -> LocalGroupView {
        LocalGroupView {
            name: self.name@,
            description: self.description@,
            sid: self.sid@,
        }
    }
}

impl Record for LocalGroupInfo {
    /// A group needs a name.
    open spec fn mapped(tree: JsonTree) -> Option<LocalGroupView> {
        match text_at(tree, "Name"@) {
            Some(name) => Some(
                LocalGroupView {
                    name,
                    description: text_or(tree, "Description"@, NOTHING@),
                    sid: sid_at(tree),
                },
            ),
            None => None,
        }
    }

    fn map(value: &JsonValue) -> (r: Option<LocalGroupInfo>) {
        let name = text_field(value, "Name")?;
        Some(
            LocalGroupInfo {
                name,
                description: text_field_or(value, "Description", NOTHING),
                sid: parse_sid(value),
            },
        )
    }
}

pub const LIST_LOCAL_USERS: &'static str =
    "Get-LocalUser | Select-Object Name, FullName, Description, Enabled, SID | ConvertTo-Json -Depth 3 -Compress";

pub const LIST_LOCAL_GROUPS: &'static str =
    "Get-LocalGroup | Select-Object Name, Description, SID | ConvertTo-Json -Depth 3 -Compress";

pub const SET_PASSWORD: &'static str = "$Password = ConvertTo-SecureString -String ";

pub const NEW_USER: &'static str = " -AsPlainText -Force; New-LocalUser -Name ";

pub const WITH_FULL_NAME: &'static str = " -Password $Password -FullName ";

pub const WITH_DESCRIPTION: &'static str = " -Description ";

pub const REMOVE_USER: &'static str = "Remove-LocalUser -Name ";

pub const NO_USER_NAME: &'static str = "Le nom d'utilisateur ne peut pas être vide.";

pub const NO_PASSWORD: &'static str = "Le mot de passe ne peut pas être vide.";

/// The command that lists the local users.
pub fn list_local_users_command() -> (r: Invocation)
    ensures
        r@ == powershell(LIST_LOCAL_USERS@),
{
    Invocation::powershell(String::from_str(LIST_LOCAL_USERS))
}

/// The local users that the command gave.
pub fn list_local_users_response(outcome: Result<ExecutionResult, ErrorKind>) -> (r: Result<
    Vec<LocalUserInfo>,
    ErrorKind,
>)
    ensures
        yields_all(r, listed::<LocalUserInfo>(outcome)),
{
    list_records::<LocalUserInfo>(outcome)
}

/// The command that lists the local groups.
pub fn list_local_groups_command() -> (r: Invocation)
    ensures
        r@ == powershell(LIST_LOCAL_GROUPS@),
{
    Invocation::powershell(String::from_str(LIST_LOCAL_GROUPS))
}

/// The local groups that the command gave.
pub fn list_local_groups_response(outcome: Result<ExecutionResult, ErrorKind>) -> (r: Result<
    Vec<LocalGroupInfo>,
    ErrorKind,
>)
    ensures
        yields_all(r, listed::<LocalGroupInfo>(outcome)),
{
    list_records::<LocalGroupInfo>(outcome)
}

/// The text of an optional parameter; nothing where it was not given.
pub open spec fn given(o: Option<&str>) -> Seq<char> {
    match o {
        Some(t) => t@,
        None => Seq::empty(),
    }
}

/// The script that creates a local user.
pub open spec fn add_local_user_script(
    user_name: Seq<char>,
    password: Seq<char>,
    full_name: Seq<char>,
    description: Seq<char>,
) -> Seq<char> {
    SET_PASSWORD@ + double_quoted(password) + NEW_USER@ + double_quoted(user_name)
        + WITH_FULL_NAME@ + double_quoted(full_name) + WITH_DESCRIPTION@ + double_quoted(
        description,
    )
}

/// The command that creates a local user; a user name that holds nothing
/// and an empty password are refused.
pub fn add_local_user_command(
    user_name: &str,
    password: &str,
    full_name: Option<&str>,
    description: Option<&str>,
) -> (r: Result<Invocation, ErrorKind>)
    ensures
        match r {
            Ok(invocation) => {
                &&& !is_blank(user_name@)
                &&& password@.len() > 0
                &&& invocation@ == powershell(
                    add_local_user_script(
                        user_name@,
                        password@,
                        given(full_name),
                        given(description),
                    ),
                )
            },
            Err(e) => {
                ||| is_blank(user_name@) && e@ == (ErrorView::InvalidArgument {
                    detail: NO_USER_NAME@,
                })
                ||| !is_blank(user_name@) && password@.len() == 0 && e@ == (
                ErrorView::InvalidArgument { detail: NO_PASSWORD@ })
            },
        },
{
    if !is_named(user_name) {
        return Err(ErrorKind::invalid_argument(NO_USER_NAME));
    }
    if chars_of(password).len() == 0 {
        return Err(ErrorKind::invalid_argument(NO_PASSWORD));
    }
    let full = match full_name {
        Some(t) => quote_double(t),
        None => quote_double(""),
    };
    let described = match description {
        Some(t) => quote_double(t),
        None => quote_double(""),
    };
    proof {
        reveal_strlit("");
        assert(""@ =~= Seq::<char>::empty());
    }
    Ok(
        Invocation::powershell(
            String::from_str(SET_PASSWORD).concat(quote_double(password).as_str()).concat(
                NEW_USER,
            ).concat(quote_double(user_name).as_str()).concat(WITH_FULL_NAME).concat(
                full.as_str(),
            ).concat(WITH_DESCRIPTION).concat(described.as_str()),
        ),
    )
}

/// The command that removes the local user `user_name`.
pub fn delete_local_user_command(user_name: &str) -> (r: Invocation)
    ensures
        r@ == powershell(REMOVE_USER@ + double_quoted(user_name@)),
{
    Invocation::powershell(String::from_str(REMOVE_USER).concat(quote_double(user_name).as_str()))
}

/// What creating or removing a local user came to.
pub fn user_action_response(outcome: Result<ExecutionResult, ErrorKind>) -> (r: Result<
    (),
    ErrorKind,
>)
    ensures
        yields_unit(r, acknowledged(outcome)),
{
    acknowledge(outcome)
}

} // verus!
