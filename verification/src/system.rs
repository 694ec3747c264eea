//! Processes, the load of the system, and restarting or shutting down.

use vstd::prelude::*;
use vstd::string::*;
use crate::command::{native, powershell, Invocation};
use crate::disks::{u32_at, u32_field, u64_at, u64_field};
use crate::error::{ErrorKind, ErrorView};
use crate::execution::{utf8_lossy, ExecutionResult};
use crate::flow::Step;
use crate::json::{decode, json_decoding, JsonTree, JsonValue};
use crate::mapper::{
    acknowledge, acknowledged, list_records, listed, text_at, text_field, yields_all, yields_unit,
    Record,
};
use crate::text::{chars_of, decimal, decimal_of, is_digit, slice_of, text_of, trim, trimmed};

verus! {

// ---------------------------------------------------------------------------
// Processes
// ---------------------------------------------------------------------------

#[derive(Debug)]
pub struct ProcessInfo {
    pub pid: u32,
    pub name: String,
    /// The share of processor time, as the tool wrote the number.
    pub cpu_usage: String,
    /// The working set in bytes.
    pub memory: u64,
}

pub struct ProcessView {
    pub pid: u32,
    pub name: Seq<char>,
    pub cpu_usage: Seq<char>,
    pub memory: u64,
}

impl View for ProcessInfo {
    type V = ProcessView;

    open spec fn view(&self) -> ProcessView {
        ProcessView {
            pid: self.pid,
            name: self.name@,
            cpu_usage: self.cpu_usage@,
            memory: self.memory,
        }
    }
}

pub const NO_LOAD: &'static str = "0";

/// The load of a process as the tool wrote the number; zero where it
/// wrote none.
pub open spec fn load_at(tree: JsonTree) -> Seq<char> {
    match tree.field("CPU"@) {
        Some(v) => match v.number_text() {
            Some(t) => t,
            None => NO_LOAD@,
        },
        None => NO_LOAD@,
    }
}

impl Record for ProcessInfo {
    /// A process needs its identifier, its name and its working set.
    open spec fn mapped(tree: JsonTree) -> Option<ProcessView> {
        match (u32_at(tree, "Id"@), text_at(tree, "ProcessName"@), u64_at(tree, "WS"@)) {
            (Some(pid), Some(name), Some(memory)) => Some(
                ProcessView { pid, name, cpu_usage: load_at(tree), memory },
            ),
            _ => None,
        }
    }

    fn map(value: &JsonValue) -> (r: Option<ProcessInfo>) {
        let pid = u32_field(value, "Id")?;
        let name = text_field(value, "ProcessName")?;
        let memory = u64_field(value, "WS")?;
        let cpu_usage = match value.get("CPU") {
            Some(v) => match v.number_text() {
                Some(t) => t,
                None => String::from_str(NO_LOAD),
            },
            None => String::from_str(NO_LOAD),
        };
        Some(ProcessInfo { pid, name, cpu_usage, memory })
    }
}

/// Lists the processes with their share of processor time and their working set.
pub const LIST_PROCESSES_SCRIPT: &'static str = r#"
        $processors = (Get-CimInstance Win32_ComputerSystem).NumberOfLogicalProcessors
        Get-Process | ForEach-Object {
            $cpuPercent = if ($_.CPU -gt 0) { [math]::Min([math]::Round(($_.CPU / $processors), 2), 100) } else { 0 }
            [PSCustomObject]@{
                Id = $_.Id
                ProcessName = $_.ProcessName
                CPU = $cpuPercent
                WS = $_.WS
            }
        } | ConvertTo-Json -Depth 3 -Compress
    "#;

/// The command that lists the processes.
pub fn list_processes_command() -> (r: Invocation)
    ensures
        r@ == powershell(LIST_PROCESSES_SCRIPT@),
{
    Invocation::powershell(String::from_str(LIST_PROCESSES_SCRIPT))
}

/// The processes that the command gave.
pub fn list_processes_response(outcome: Result<ExecutionResult, ErrorKind>) -> (r: Result<
    Vec<ProcessInfo>,
    ErrorKind,
>)
    ensures
        yields_all(r, listed::<ProcessInfo>(outcome)),
{
    list_records::<ProcessInfo>(outcome)
}

pub const STOP_PROCESS_OPEN: &'static str = "Stop-Process -Id ";

pub const STOP_PROCESS_CLOSE: &'static str =
    " -Force -ErrorAction SilentlyContinue -PassThru | Select-Object -Property HasExited | ConvertTo-Json";

/// The command that ends the process `pid`.
pub fn terminate_process_command(pid: u32) -> (r: Invocation)
    ensures
        r@ == powershell(STOP_PROCESS_OPEN@ + decimal(pid as nat) + STOP_PROCESS_CLOSE@),
{
    let digits = text_of(&decimal_of(pid as u128));
    Invocation::powershell(
        String::from_str(STOP_PROCESS_OPEN).concat(digits.as_str()).concat(STOP_PROCESS_CLOSE),
    )
}

/// What the tool says of the process it was to end: what it reports
/// under the member that tells whether the process has exited, and yes
/// where it reports nothing that can be read.
pub open spec fn has_exited(out: Seq<char>) -> bool {
    match json_decoding(trimmed(out)) {
        Some(tree) => match tree.field("HasExited"@) {
            Some(JsonTree::Bool(b)) => b,
            _ => true,
        },
        None => true,
    }
}

/// Whether the process was ended: no where the tool failed; yes where it
/// wrote nothing; else what it says.
pub open spec fn terminated(outcome: Result<ExecutionResult, ErrorKind>) -> Result<bool, ErrorView> {
    match outcome {
        Err(e) => Err(e@),
        Ok(raw) => if !raw.exit_success {
            Ok(false)
        } else if trimmed(utf8_lossy(raw.stdout@)).len() == 0 {
            Ok(true)
        } else {
            Ok(has_exited(utf8_lossy(raw.stdout@)))
        },
    }
}

/// What the decoded answer of the tool says of the process.
pub fn exit_reported(answer: Option<JsonValue>) -> (r: bool)
    ensures
        r == match answer {
            Some(value) => match value@.field("HasExited"@) {
                Some(JsonTree::Bool(b)) => b,
                _ => true,
            },
            None => true,
        },
{
    match answer {
        Some(value) => match value.get("HasExited") {
            Some(JsonValue::Bool(b)) => *b,
            _ => true,
        },
        None => true,
    }
}

pub fn terminate_process_response(outcome: Result<ExecutionResult, ErrorKind>) -> (r: Result<
    bool,
    ErrorKind,
>)
    ensures
        match r {
            Ok(b) => terminated(outcome) == Ok::<bool, ErrorView>(b),
            Err(e) => terminated(outcome) == Err::<bool, ErrorView>(e@),
        },
{
    match outcome {
        Err(e) => Err(e),
        Ok(raw) => if !raw.exit_success {
            Ok(false)
        } else {
            let out = trim(&chars_of(raw.stdout_text().as_str()));
            if out.len() == 0 {
                Ok(true)
            } else {
                Ok(exit_reported(decode(text_of(&out).as_str())))
            }
        },
    }
}

// ---------------------------------------------------------------------------
// Restarting and shutting down
// ---------------------------------------------------------------------------

pub const SHUTDOWN: &'static str = "shutdown";

pub const RESTART_FLAG: &'static str = "/r";

pub const HALT_FLAG: &'static str = "/s";

pub const DELAY_FLAG: &'static str = "/t";

pub const NO_DELAY: &'static str = "0";

pub const FORCE_FLAG: &'static str = "/f";

/// The command that restarts the machine at once.
pub fn restart_computer_command() -> (r: Invocation)
    ensures
        r@ == native(SHUTDOWN@, seq![RESTART_FLAG@, DELAY_FLAG@, NO_DELAY@, FORCE_FLAG@]),
{
    let r = Invocation::native(SHUTDOWN, &[RESTART_FLAG, DELAY_FLAG, NO_DELAY, FORCE_FLAG]);
    assert(r@.arguments =~= seq![RESTART_FLAG@, DELAY_FLAG@, NO_DELAY@, FORCE_FLAG@]);
    r
}

/// The command that shuts the machine down at once.
pub fn shutdown_computer_command() -> (r: Invocation)
    ensures
        r@ == native(SHUTDOWN@, seq![HALT_FLAG@, DELAY_FLAG@, NO_DELAY@, FORCE_FLAG@]),
{
    let r = Invocation::native(SHUTDOWN, &[HALT_FLAG, DELAY_FLAG, NO_DELAY, FORCE_FLAG]);
    assert(r@.arguments =~= seq![HALT_FLAG@, DELAY_FLAG@, NO_DELAY@, FORCE_FLAG@]);
    r
}

/// What restarting or shutting down came to.
pub fn power_action_response(outcome: Result<ExecutionResult, ErrorKind>) -> (r: Result<
    (),
    ErrorKind,
>)
    ensures
        yields_unit(r, acknowledged(outcome)),
{
    acknowledge(outcome)
}

// ---------------------------------------------------------------------------
// The load of the system
// ---------------------------------------------------------------------------

/// Asks for the load of the processors in one of several ways and writes the first answer.
pub const CPU_SCRIPT: &'static str = r#"
    try {
        # Méthode 1: Utiliser Get-Counter (peut échouer silencieusement sur certains systèmes)
        $cpu1 = [math]::Round((Get-Counter '\processor(_total)\% processor time' -SampleInterval 1 -MaxSamples 1 -ErrorAction Stop).CounterSamples.CookedValue, 2)
        Write-Output $cpu1 | ConvertTo-Json
    } catch {
        try {
            # Méthode 2: Utiliser WMI/CIM pour obtenir le LoadPercentage
            $cpu2 = [math]::Round((Get-CimInstance -ClassName Win32_Processor | Measure-Object -Property LoadPercentage -Average).Average, 2)
            if ($null -eq $cpu2 -or $cpu2 -eq 0) { throw "CPU usage is zero or null" }
            Write-Output $cpu2 | ConvertTo-Json
        } catch {
            try {
                # Méthode 3: Utiliser WMI/CIM avec PercentProcessorTime
                $cpu3 = [math]::Round((Get-CimInstance -ClassName Win32_PerfFormattedData_PerfOS_Processor -Filter "Name='_Total'" -ErrorAction Stop).PercentProcessorTime, 2)
                if ($null -eq $cpu3 -or $cpu3 -eq 0) { throw "CPU usage is zero or null" }
                Write-Output $cpu3 | ConvertTo-Json
            } catch {
                # Méthode de secours: fournir une estimation basée sur les processus actifs
                $processors = (Get-CimInstance Win32_ComputerSystem).NumberOfLogicalProcessors
                $totalCpu = (Get-Process).CPU | Measure-Object -Sum | Select-Object -ExpandProperty Sum
                $estimatedCpu = [math]::Min([math]::Round(($totalCpu / $processors), 2), 100)
                Write-Output $estimatedCpu | ConvertTo-Json
            }
        }
    }
    "#;

pub const MEMORY_SCRIPT: &'static str =
    "Get-CimInstance Win32_OperatingSystem | Select-Object TotalVisibleMemorySize, FreePhysicalMemory | ConvertTo-Json";

pub const NO_CPU_OUTPUT: &'static str = "Sortie CPU vide";

pub const NO_TOTAL_MEMORY: &'static str = "Impossible d'obtenir TotalVisibleMemorySize";

pub const NO_FREE_MEMORY: &'static str = "Impossible d'obtenir FreePhysicalMemory";

/// What the tools report of the load, each number as it was written.
#[derive(Debug)]
pub struct SystemUsageReading {
    /// The load of the processors in percent.
    pub cpu: String,
    /// The memory of the machine in kilobytes.
    pub total_kb: String,
    /// The memory that is free, in kilobytes.
    pub free_kb: String,
}

pub struct SystemUsageReadingView {
    pub cpu: Seq<char>,
    pub total_kb: Seq<char>,
    pub free_kb: Seq<char>,
}

impl View for SystemUsageReading {
    type V = SystemUsageReadingView;

    open spec fn view(&self) -> SystemUsageReadingView {
        SystemUsageReadingView {
            cpu: self.cpu@,
            total_kb: self.total_kb@,
            free_kb: self.free_kb@,
        }
    }
}

/// The characters of which a number is written.
pub open spec fn is_numeral_char(c: char) -> bool {
    is_digit(c) || c == '.' || c == '-'
}

/// The position of the first character of a number, or the length.
pub open spec fn numeral_start(s: Seq<char>) -> int
    decreases s.len(),
{
    if s.len() == 0 || is_numeral_char(s[0]) {
        0
    } else {
        1 + numeral_start(s.drop_first())
    }
}

/// The number of characters of a number at the start of `s`.
pub open spec fn numeral_length(s: Seq<char>) -> int
    decreases s.len(),
{
    if s.len() == 0 || !is_numeral_char(s[0]) {
        0
    } else {
        1 + numeral_length(s.drop_first())
    }
}

/// The first number written in `s`: from the first character of which a
/// number is written to the last that follows it without a gap; all of
/// nothing where it holds no such character.
pub open spec fn first_numeral(s: Seq<char>) -> Seq<char> {
    let t = trimmed(s);
    let from = if numeral_start(t) < t.len() {
        numeral_start(t)
    } else {
        0
    };
    let rest = t.subrange(from, t.len() as int);
    rest.subrange(0, numeral_length(rest))
}

fn numeral_char(c: char) -> (r: bool)
    ensures
        r == is_numeral_char(c),
{
    (c >= '0' && c <= '9') || c == '.' || c == '-'
}

/// The first number written in the output of a tool.
pub fn read_numeral(out: &str) -> (r: String)
    ensures
        r@ == first_numeral(out@),
{
    let t = trim(&chars_of(out));
    let mut from: usize = 0;
    assert(t@.subrange(0, t.len() as int) == t@);
    while from < t.len() && !numeral_char(t[from])
        invariant
            from <= t.len(),
            numeral_start(t@) == from + numeral_start(t@.subrange(from as int, t.len() as int)),
        decreases t.len() - from,
    {
        let ghost rest = t@.subrange(from as int, t.len() as int);
        assert(rest[0] == t@[from as int]);
        assert(rest.drop_first() == t@.subrange(from + 1, t.len() as int));
        from += 1;
    }
    proof {
        let rest = t@.subrange(from as int, t.len() as int);
        if from < t.len() {
            assert(rest[0] == t@[from as int]);
        }
    }
    if from == t.len() {
        from = 0;
    }
    let ghost rest = t@.subrange(from as int, t.len() as int);
    let mut to: usize = from;
    assert(rest.subrange(0, rest.len() as int) == rest);
    while to < t.len() && numeral_char(t[to])
        invariant
            from <= to <= t.len(),
            rest == t@.subrange(from as int, t.len() as int),
            numeral_length(rest) == (to - from) + numeral_length(
                rest.subrange(to - from, rest.len() as int),
            ),
        decreases t.len() - to,
    {
        let ghost tail = rest.subrange(to - from, rest.len() as int);
        assert(tail[0] == t@[to as int]);
        assert(tail.drop_first() == rest.subrange(to - from + 1, rest.len() as int));
        to += 1;
    }
    proof {
        let tail = rest.subrange(to - from, rest.len() as int);
        if to < t.len() {
            assert(tail[0] == t@[to as int]);
        }
        assert(rest.subrange(0, to - from) == t@.subrange(from as int, to as int));
    }
    text_of(&slice_of(&t, from, to))
}

/// The memory that the tool reports, in kilobytes: the total and what is
/// free, each a number as it was written, or what is reported where one is
/// missing.
pub open spec fn memory_in(answer: Option<JsonTree>) -> Result<(Seq<char>, Seq<char>), ErrorView> {
    match answer {
        None => Err(ErrorView::MalformedOutput { raw_snippet: Seq::empty() }),
        Some(tree) => match tree.field("TotalVisibleMemorySize"@) {
            Some(total) => match total.number_text() {
                Some(total_text) => match tree.field("FreePhysicalMemory"@) {
                    Some(free) => match free.number_text() {
                        Some(free_text) => Ok((total_text, free_text)),
                        None => Err(ErrorView::MalformedOutput { raw_snippet: NO_FREE_MEMORY@ }),
                    },
                    None => Err(ErrorView::MalformedOutput { raw_snippet: NO_FREE_MEMORY@ }),
                },
                None => Err(ErrorView::MalformedOutput { raw_snippet: NO_TOTAL_MEMORY@ }),
            },
            None => Err(ErrorView::MalformedOutput { raw_snippet: NO_TOTAL_MEMORY@ }),
        },
    }
}

/// The memory that the decoded answer of the tool reports.
pub fn read_memory(answer: Option<JsonValue>) -> (r: Result<(String, String), ErrorKind>)
    ensures
        match r {
            Ok(pair) => memory_in(
                match answer {
                    Some(v) => Some(v@),
                    None => None,
                },
            ) == Ok::<(Seq<char>, Seq<char>), ErrorView>((pair.0@, pair.1@)),
            Err(e) => memory_in(
                match answer {
                    Some(v) => Some(v@),
                    None => None,
                },
            ) == Err::<(Seq<char>, Seq<char>), ErrorView>(e@),
        },
{
    let value = match answer {
        Some(v) => v,
        None => {
            return Err(ErrorKind::MalformedOutput { raw_snippet: String::new() });
        },
    };
    let total = match value.get("TotalVisibleMemorySize") {
        Some(v) => match v.number_text() {
            Some(t) => t,
            None => {
                return Err(
                    ErrorKind::MalformedOutput { raw_snippet: String::from_str(NO_TOTAL_MEMORY) },
                );
            },
        },
        None => {
            return Err(
                ErrorKind::MalformedOutput { raw_snippet: String::from_str(NO_TOTAL_MEMORY) },
            );
        },
    };
    let free = match value.get("FreePhysicalMemory") {
        Some(v) => match v.number_text() {
            Some(t) => t,
            None => {
                return Err(
                    ErrorKind::MalformedOutput { raw_snippet: String::from_str(NO_FREE_MEMORY) },
                );
            },
        },
        None => {
            return Err(
                ErrorKind::MalformedOutput { raw_snippet: String::from_str(NO_FREE_MEMORY) },
            );
        },
    };
    Ok((total, free))
}

/// How far the reading of the load has come.
#[derive(Debug)]
pub enum UsageState {
    /// The load of the processors is being asked for.
    AskingCpu,
    /// The memory is being asked for; `cpu` is the load that was read.
    AskingMemory { cpu: String },
}

/// The reading of the load before anything was run, and the command that
/// asks for the load of the processors.
pub fn get_system_usage_begin() -> (r: (UsageState, Invocation))
    ensures
        r.0 is AskingCpu,
        r.1@ == powershell(CPU_SCRIPT@),
{
    (UsageState::AskingCpu, Invocation::powershell(String::from_str(CPU_SCRIPT)))
}

/// The next step of the reading of the load. It fails where a tool cannot
/// be run or fails, where the load of the processors is not written, and
/// where the memory cannot be read.
pub fn get_system_usage_resume(state: UsageState, outcome: Result<ExecutionResult, ErrorKind>) -> (r:
    Step<UsageState, Result<SystemUsageReading, ErrorKind>>)
    ensures
        match outcome {
            Err(e) => r matches Step::Done(Err(err)) && err@ == e@,
            Ok(raw) => if !raw.exit_success {
                r matches Step::Done(Err(err)) && err@ == (ErrorView::ExternalToolFailed {
                    stderr: utf8_lossy(raw.stderr@),
                })
            } else {
                match state {
                    UsageState::AskingCpu => if trimmed(utf8_lossy(raw.stdout@)).len() == 0 {
                        r matches Step::Done(Err(err)) && err@ == (ErrorView::MalformedOutput {
                            raw_snippet: NO_CPU_OUTPUT@,
                        })
                    } else {
                        &&& r matches Step::Run(UsageState::AskingMemory { cpu }, invocation)
                        &&& cpu@ == first_numeral(utf8_lossy(raw.stdout@))
                        &&& invocation@ == powershell(MEMORY_SCRIPT@)
                    },
                    UsageState::AskingMemory { cpu } => match memory_in(
                        json_decoding(utf8_lossy(raw.stdout@)),
                    ) {
                        Ok(pair) => r matches Step::Done(Ok(reading)) && reading@ == (
                        SystemUsageReadingView { cpu: cpu@, total_kb: pair.0, free_kb: pair.1 }),
                        Err(e) => r matches Step::Done(Err(err)) && err@ == e,
                    },
                }
            },
        },
{
    let raw = match outcome {
        Err(e) => {
            return Step::Done(Err(e));
        },
        Ok(raw) => raw,
    };
    if !raw.exit_success {
        return Step::Done(Err(ErrorKind::ExternalToolFailed { stderr: raw.stderr_text() }));
    }
    let out = raw.stdout_text();
    match state {
        UsageState::AskingCpu => {
            if trim(&chars_of(out.as_str())).len() == 0 {
                return Step::Done(
                    Err(ErrorKind::MalformedOutput { raw_snippet: String::from_str(NO_CPU_OUTPUT) }),
                );
            }
            Step::Run(
                UsageState::AskingMemory { cpu: read_numeral(out.as_str()) },
                Invocation::powershell(String::from_str(MEMORY_SCRIPT)),
            )
        },
        UsageState::AskingMemory { cpu } => match read_memory(decode(out.as_str())) {
            Ok(pair) => Step::Done(
                Ok(SystemUsageReading { cpu, total_kb: pair.0, free_kb: pair.1 }),
            ),
            Err(e) => Step::Done(Err(e)),
        },
    }
}

} // verus!
