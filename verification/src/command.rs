//! Invocations of external tools: which program is run, with which
//! arguments, and with which inline script.

use vstd::prelude::*;
use vstd::string::*;
use crate::error::{ErrorKind, ErrorView};
use crate::text::views;

verus! {

/// The kind of program that an invocation runs.
#[derive(Clone, Copy, Debug, PartialEq, Eq, Structural)]
pub enum Interpreter {
    PowerShell,
    CommandPrompt,
    Bash,
    /// A tool that is run directly, without a shell in between.
    Native,
}

/// A fully built external command, ready to be run.
#[derive(Debug)]
pub struct Invocation {
    pub interpreter: Interpreter,
    /// The name of the program to start.
    pub program: String,
    /// The arguments that stand before the script, if there is one.
    pub arguments: Vec<String>,
    /// The script text handed to a shell as its last argument.
    pub inline_script: Option<String>,
}

pub struct InvocationView {
    pub interpreter: Interpreter,
    pub program: Seq<char>,
    pub arguments: Seq<Seq<char>>,
    pub inline_script: Option<Seq<char>>,
}

/// The view of an optional text.
pub open spec fn option_text(o: Option<String>) -> Option<Seq<char>> {
    match o {
        Some(s) => Some(s@),
        None => None,
    }
}

impl View for Invocation {
    type V = InvocationView;

    open spec fn view(&self) -> InvocationView {
        InvocationView {
            interpreter: self.interpreter,
            program: self.program@,
            arguments: views(self.arguments@),
            inline_script: option_text(self.inline_script),
        }
    }
}

pub const POWERSHELL: &'static str = "powershell";

pub const COMMAND_PROMPT: &'static str = "cmd";

pub const BASH: &'static str = "bash";

pub const FLAG_COMMAND: &'static str = "-Command";

pub const FLAG_EXECUTION_POLICY: &'static str = "-ExecutionPolicy";

pub const FLAG_BYPASS: &'static str = "Bypass";

pub const FLAG_NO_PROFILE: &'static str = "-NoProfile";

pub const FLAG_CMD_RUN: &'static str = "/c";

pub const FLAG_BASH_RUN: &'static str = "-c";

impl InvocationView {
    /// Everything that the program receives: the arguments, then the script.
    pub open spec fn command_line(self) -> Seq<Seq<char>> {
        match self.inline_script {
            Some(script) => self.arguments.push(script),
            None => self.arguments,
        }
    }
}

/// PowerShell running `script`.
pub open spec fn powershell(script: Seq<char>) -> InvocationView {
    InvocationView {
        interpreter: Interpreter::PowerShell,
        program: POWERSHELL@,
        arguments: seq![FLAG_COMMAND@],
        inline_script: Some(script),
    }
}

/// PowerShell running `script` whatever the machine's execution policy.
pub open spec fn powershell_bypass(script: Seq<char>) -> InvocationView {
    InvocationView {
        interpreter: Interpreter::PowerShell,
        program: POWERSHELL@,
        arguments: seq![FLAG_EXECUTION_POLICY@, FLAG_BYPASS@, FLAG_COMMAND@],
        inline_script: Some(script),
    }
}

/// PowerShell running `script` without the user's profile, whatever the
/// machine's execution policy.
pub open spec fn powershell_clean(script: Seq<char>) -> InvocationView {
    InvocationView {
        interpreter: Interpreter::PowerShell,
        program: POWERSHELL@,
        arguments: seq![FLAG_NO_PROFILE@, FLAG_EXECUTION_POLICY@, FLAG_BYPASS@, FLAG_COMMAND@],
        inline_script: Some(script),
    }
}

/// The command prompt running one command line.
pub open spec fn command_prompt(line: Seq<char>) -> InvocationView {
    InvocationView {
        interpreter: Interpreter::CommandPrompt,
        program: COMMAND_PROMPT@,
        arguments: seq![FLAG_CMD_RUN@],
        inline_script: Some(line),
    }
}

/// Bash running `script`.
pub open spec fn bash(script: Seq<char>) -> InvocationView {
    InvocationView {
        interpreter: Interpreter::Bash,
        program: BASH@,
        arguments: seq![FLAG_BASH_RUN@],
        inline_script: Some(script),
    }
}

/// A tool run directly with the given arguments.
pub open spec fn native(program: Seq<char>, arguments: Seq<Seq<char>>) -> InvocationView {
    InvocationView {
        interpreter: Interpreter::Native,
        program,
        arguments,
        inline_script: None,
    }
}

/// Whether an invocation, or the refusal to build one, is what `expected`
/// says.
pub open spec fn builds(r: Result<Invocation, ErrorKind>, expected: Result<InvocationView, ErrorView>) -> bool {
    match r {
        Ok(invocation) => expected == Ok::<InvocationView, ErrorView>(invocation@),
        Err(e) => expected == Err::<InvocationView, ErrorView>(e@),
    }
}

/// A list of owned texts from string slices.
pub fn owned_list(items: &[&str]) -> (r: Vec<String>)
    ensures
        r@.len() == items@.len(),
        forall|i: int| 0 <= i < items@.len() ==> (#[trigger] r@[i])@ == items@[i]@,
{
    let mut r: Vec<String> = Vec::new();
    let mut i: usize = 0;
    while i < items.len()
        invariant
            i <= items.len(),
            r@.len() == i,
            forall|k: int| 0 <= k < i ==> (#[trigger] r@[k])@ == items@[k]@,
        decreases items.len() - i,
    {
        r.push(String::from_str(items[i]));
        i += 1;
    }
    r
}

impl Invocation {
    pub fn powershell(script: String) -> (r: Invocation)
        ensures
            r@ == powershell(script@),
    {
        let arguments = owned_list(&[FLAG_COMMAND]);
        assert(views(arguments@) =~= seq![FLAG_COMMAND@]);
        Invocation {
            interpreter: Interpreter::PowerShell,
            program: String::from_str(POWERSHELL),
            arguments,
            inline_script: Some(script),
        }
    }

    pub fn powershell_bypass(script: String) -> (r: Invocation)
        ensures
            r@ == powershell_bypass(script@),
    {
        let arguments = owned_list(&[FLAG_EXECUTION_POLICY, FLAG_BYPASS, FLAG_COMMAND]);
        assert(views(arguments@) =~= seq![FLAG_EXECUTION_POLICY@, FLAG_BYPASS@, FLAG_COMMAND@]);
        Invocation {
            interpreter: Interpreter::PowerShell,
            program: String::from_str(POWERSHELL),
            arguments,
            inline_script: Some(script),
        }
    }

    pub fn powershell_clean(script: String) -> (r: Invocation)
        ensures
            r@ == powershell_clean(script@),
    {
        let arguments = owned_list(
            &[FLAG_NO_PROFILE, FLAG_EXECUTION_POLICY, FLAG_BYPASS, FLAG_COMMAND],
        );
        assert(views(arguments@) =~= seq![
            FLAG_NO_PROFILE@,
            FLAG_EXECUTION_POLICY@,
            FLAG_BYPASS@,
            FLAG_COMMAND@,
        ]);
        Invocation {
            interpreter: Interpreter::PowerShell,
            program: String::from_str(POWERSHELL),
            arguments,
            inline_script: Some(script),
        }
    }

    pub fn command_prompt(line: String) -> (r: Invocation)
        ensures
            r@ == command_prompt(line@),
    {
        let arguments = owned_list(&[FLAG_CMD_RUN]);
        assert(views(arguments@) =~= seq![FLAG_CMD_RUN@]);
        Invocation {
            interpreter: Interpreter::CommandPrompt,
            program: String::from_str(COMMAND_PROMPT),
            arguments,
            inline_script: Some(line),
        }
    }

    pub fn bash(script: String) -> (r: Invocation)
        ensures
            r@ == bash(script@),
    {
        let arguments = owned_list(&[FLAG_BASH_RUN]);
        assert(views(arguments@) =~= seq![FLAG_BASH_RUN@]);
        Invocation {
            interpreter: Interpreter::Bash,
            program: String::from_str(BASH),
            arguments,
            inline_script: Some(script),
        }
    }

    pub fn native(program: &str, arguments: &[&str]) -> (r: Invocation)
        ensures
            r@.interpreter == Interpreter::Native,
            r@.program == program@,
            r@.inline_script is None,
            r@.arguments.len() == arguments@.len(),
            forall|i: int| 0 <= i < arguments@.len() ==> #[trigger] r@.arguments[i] == arguments@[i]@,
    {
        let list = owned_list(arguments);
        Invocation {
            interpreter: Interpreter::Native,
            program: String::from_str(program),
            arguments: list,
            inline_script: None,
        }
    }

    /// Everything that the program receives: the arguments, then the script.
    pub fn command_line(&self) -> (r: Vec<String>)
        ensures
            views(r@) == self@.command_line(),
    {
        let mut r: Vec<String> = Vec::new();
        let mut i: usize = 0;
        while i < self.arguments.len()
            invariant
                i <= self.arguments.len(),
                views(r@) == views(self.arguments@).subrange(0, i as int),
            decreases self.arguments.len() - i,
        {
            let ghost before = views(r@);
            let item = self.arguments[i].clone();
            assert(item@ == self.arguments@[i as int]@);
            r.push(item);
            assert(views(r@) =~= before.push(self.arguments@[i as int]@));
            i += 1;
            assert(views(r@) =~= views(self.arguments@).subrange(0, i as int));
        }
        assert(views(self.arguments@).subrange(0, self.arguments.len() as int) == views(
            self.arguments@,
        ));
        match &self.inline_script {
            Some(script) => {
                let ghost before = views(r@);
                r.push(script.clone());
                assert(views(r@) =~= before.push(script@));
            },
            None => {},
        }
        r
    }
}

} // verus!
