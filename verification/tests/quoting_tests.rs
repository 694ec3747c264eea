use winadmin_core::active_directory::{search_ad_computers_command, search_ad_users_command};
use winadmin_core::quoting::{
    escape_double_quotes, escape_single_quotes, quote_bash, quote_double, quote_like_pattern,
    quote_single, strip_wildcards,
};
use winadmin_core::tasks::enable_task_command;
use winadmin_core::windows_service::start_service_command;

fn is_single(c: char) -> bool {
    matches!(c, '\'' | '\u{2018}' | '\u{2019}' | '\u{201a}' | '\u{201b}')
}

fn is_double(c: char) -> bool {
    matches!(c, '"' | '\u{201c}' | '\u{201d}' | '\u{201e}')
}

/// Reads a single-quoted literal the way the shell does: a single quote of
/// any form closes, unless another follows at once, which makes the first
/// stand for itself. Gives the value and what follows.
fn echo_single(text: &str) -> Option<(String, String)> {
    let chars: Vec<char> = text.chars().collect();
    if !chars.first().map_or(false, |c| is_single(*c)) {
        return None;
    }
    let mut value = String::new();
    let mut i = 1;
    while i < chars.len() {
        if is_single(chars[i]) {
            if i + 1 < chars.len() && is_single(chars[i + 1]) {
                value.push(chars[i]);
                i += 2;
            } else {
                return Some((value, chars[i + 1..].iter().collect()));
            }
        } else {
            value.push(chars[i]);
            i += 1;
        }
    }
    None
}

/// Reads a double-quoted literal the way the shell does: a backtick makes
/// the next character literal, a double quote of any form closes unless
/// another follows at once, a bare dollar sign would be a substitution.
fn echo_double(text: &str) -> Option<(String, String)> {
    let chars: Vec<char> = text.chars().collect();
    if !chars.first().map_or(false, |c| is_double(*c)) {
        return None;
    }
    let mut value = String::new();
    let mut i = 1;
    while i < chars.len() {
        match chars[i] {
            '$' => return None,
            '`' => {
                if i + 1 >= chars.len() {
                    return None;
                }
                value.push(chars[i + 1]);
                i += 2;
            }
            c if is_double(c) => {
                if i + 1 < chars.len() && is_double(chars[i + 1]) {
                    value.push(c);
                    i += 2;
                } else {
                    return Some((value, chars[i + 1..].iter().collect()));
                }
            }
            c => {
                value.push(c);
                i += 1;
            }
        }
    }
    None
}

#[test]
fn single_quotes_are_doubled() {
    assert_eq!(escape_single_quotes("O'Brien"), "O''Brien");
    assert_eq!(quote_single("O'Brien"), "'O''Brien'");
    assert_eq!(quote_single(""), "''");
    assert_eq!(quote_single("'"), "''''");
}

#[test]
fn single_quoted_text_reads_back() {
    for value in [
        "plain",
        "O'Brien",
        "''",
        "a' ; Remove-Item C:\\ -Recurse ; '",
        "*?\"$`",
        "",
        "x\u{2019}; Stop-Computer; \u{2018}",
        "\u{201a}low\u{201b}",
        "'\u{2019}'",
    ] {
        let quoted = quote_single(value);
        let (read, rest) = echo_single(&format!("{} -Next", quoted)).unwrap();
        assert_eq!(read, value);
        assert_eq!(rest, " -Next");
    }
}

#[test]
fn typographic_quotes_are_doubled_as_they_are() {
    assert_eq!(escape_single_quotes("a\u{2019}b"), "a\u{2019}\u{2019}b");
    assert_eq!(escape_single_quotes("\u{2018}\u{201a}\u{201b}"), "\u{2018}\u{2018}\u{201a}\u{201a}\u{201b}\u{201b}");
    assert_eq!(escape_single_quotes("\u{201c}"), "\u{201c}");
    assert_eq!(escape_double_quotes("a\u{201d}b"), "a\u{201d}\u{201d}b");
    assert_eq!(escape_double_quotes("\u{201c}\u{201e}"), "\u{201c}\u{201c}\u{201e}\u{201e}");
    assert_eq!(escape_double_quotes("\u{2019}"), "\u{2019}");
}

#[test]
fn double_quotes_backticks_and_dollars_are_escaped() {
    assert_eq!(escape_double_quotes("say \"hi\""), "say \"\"hi\"\"");
    assert_eq!(escape_double_quotes("$env:USERNAME"), "`$env:USERNAME");
    assert_eq!(escape_double_quotes("a`b"), "a``b");
    assert_eq!(quote_double("x"), "\"x\"");
}

#[test]
fn double_quoted_text_reads_back() {
    for value in [
        "Spooler",
        "a\"b",
        "\"; Stop-Computer; \"",
        "$(Remove-Item x)",
        "back`tick",
        "star*and?mark",
        "",
        "x\u{201d}; Stop-Computer; \u{201c}",
        "\u{201e}low",
        "\"\u{201d}\"",
        "O\u{2019}Brien",
    ] {
        let quoted = quote_double(value);
        let (read, rest) = echo_double(&format!("{} | Out-Null", quoted)).unwrap();
        assert_eq!(read, value);
        assert_eq!(rest, " | Out-Null");
    }
}

#[test]
fn wildcards_are_stripped_from_a_filter() {
    assert_eq!(strip_wildcards("ad*min?"), "admin");
    assert_eq!(strip_wildcards("plain"), "plain");
    assert_eq!(quote_like_pattern("jo*hn"), "\"*john*\"");
    let (read, _) = echo_double(&quote_like_pattern("a\"b*")).unwrap();
    assert_eq!(read, "*a\"b*");
}

#[test]
fn a_word_for_the_bourne_shell_closes_and_opens_its_quotes() {
    assert_eq!(quote_bash("plain"), "'plain'");
    assert_eq!(quote_bash("it's"), "'it'\\''s'");
    assert_eq!(quote_bash(""), "''");
}

#[test]
fn a_service_name_cannot_leave_its_literal() {
    let invocation = start_service_command("x\"; Restart-Computer; \"");
    let script = invocation.inline_script.unwrap();
    let literal = script.strip_prefix("Start-Service -Name ").unwrap();
    let (read, rest) = echo_double(literal).unwrap();
    assert_eq!(read, "x\"; Restart-Computer; \"");
    assert_eq!(rest, "");
}

#[test]
fn a_task_path_is_quoted() {
    let invocation = enable_task_command("\\Microsoft\\Windows\\Defrag\\");
    assert_eq!(
        invocation.inline_script.unwrap(),
        "Enable-ScheduledTask -TaskPath \"\\Microsoft\\Windows\\Defrag\\\""
    );
}

#[test]
fn a_directory_search_looks_for_the_plain_filter() {
    let users = search_ad_users_command("j*o").inline_script.unwrap();
    assert_eq!(
        users,
        "Get-ADUser -Filter { Name -like \"*jo*\" -or SamAccountName -like \"*jo*\" } | Select-Object SamAccountName, Name, Enabled, SID | ConvertTo-Json -Depth 3 -Compress"
    );
    let computers = search_ad_computers_command("pc\"1").inline_script.unwrap();
    assert!(computers.starts_with("Get-ADComputer -Filter { Name -like \"*pc\"\"1*\" -or DNSHostName -like \"*pc\"\"1*\" }"));
}
