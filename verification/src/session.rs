//! The decisions of one debugger session, separated from the process and
//! file work that surrounds them: the session-unique file names, the launch
//! argument list, the completion-poll policy, and the terminal verdict
//! computed from the child's exit status and its captured output. The caller
//! spawns the debugger, sleeps, polls and reads files, and hands the results
//! in as plain values.

use vstd::prelude::*;
use vstd::string::StringExecFns;

use crate::matcher::{parse, spec_error_of, spec_error_message, spec_verdict, ParseError,
    SpecVerdict};
use crate::text::{fmt_u64, spec_dec};

verus! {

/// The three files one session owns, named uniquely from the host binary's
/// stem and the test's symbolic name so that parallel sessions never
/// collide: the command script, and the files the child's standard output
/// and standard error are redirected to.
pub struct SessionFiles {
    pub script: String,
    pub stdout: String,
    pub stderr: String,
}

impl SessionFiles {
    /// Derives the session's file names from the host binary's stem and the
    /// test's symbolic name.
    pub fn new(exe_stem: &str, test_name: &str) -> (r: SessionFiles)
        ensures
            r.script@ == exe_stem@ + "_"@ + test_name@ + ".debugger_script"@,
            r.stdout@ == exe_stem@ + "_"@ + test_name@ + ".debugger_out"@,
            r.stderr@ == exe_stem@ + "_"@ + test_name@ + ".debugger_err"@,
    {
        let mut base = exe_stem.to_owned();
        base.append("_");
        base.append(test_name);
        let mut script = base.clone();
        script.append(".debugger_script");
        let mut stdout = base.clone();
        stdout.append(".debugger_out");
        let mut stderr = base;
        stderr.append(".debugger_err");
        SessionFiles { script, stdout, stderr }
    }
}

/// The name one test instance runs under: the test function's name and the
/// debugger's canonical name, joined so that the same function tested under
/// two debuggers stays distinct.
pub fn test_instance_name(fn_name: &str, debugger_name: &str) -> (r: String)
    ensures
        r@ == fn_name@ + "__"@ + debugger_name@,
{
    let mut name = fn_name.to_owned();
    name.append("__");
    name.append(debugger_name);
    name
}

/// The argument list that launches CDB non-interactively: attach by pid
/// without requesting a break-in, and run the command script from the given
/// file.
pub fn debugger_launch_args(pid: u64, script_path: &str) -> (r: Vec<String>)
    ensures
        r@.len() == 5,
        r@[0]@ == "-pd"@,
        r@[1]@ == "-p"@,
        r@[2]@ == spec_dec(pid as nat),
        r@[3]@ == "-cf"@,
        r@[4]@ == script_path@,
{
    let mut args: Vec<String> = Vec::new();
    args.push(String::from_str("-pd"));
    args.push(String::from_str("-p"));
    args.push(fmt_u64(pid));
    args.push(String::from_str("-cf"));
    args.push(script_path.to_owned());
    args
}

/// What the completion-wait loop does next.
pub enum PollAction {
    ReadOutput,
    SleepAndRetry,
    Kill,
}

/// Decides one step of the completion-wait loop: read the output once the
/// child has exited; otherwise sleep and poll again until the attempt budget
/// is spent, then force-terminate the child. The budget counts the polls
/// already made, so a hung debugger is killed after `budget` polls rather
/// than blocking forever.
pub fn poll_decision(exited: bool, attempts: u64, budget: u64) -> (r: PollAction)
    ensures
        exited ==> r == PollAction::ReadOutput,
        !exited && attempts + 1 < budget ==> r == PollAction::SleepAndRetry,
        !exited && attempts + 1 >= budget ==> r == PollAction::Kill,
{
    if exited {
        PollAction::ReadOutput
    } else if budget > 0 && attempts < budget - 1 {
        PollAction::SleepAndRetry
    } else {
        PollAction::Kill
    }
}

/// How the debugger process ended: whether its exit status reported success,
/// and that status rendered for display.
pub struct ExitInfo {
    pub success: bool,
    pub status: String,
}

/// The terminal result of one session, as surfaced to the caller.
pub enum SessionOutcome {
    /// The debugger exited successfully and every expectation was found.
    Success,
    /// The debugger exited successfully but the output verification failed.
    VerificationFailed(ParseError),
    /// The debugger exited with a non-success status; its output is attached
    /// for diagnosis.
    DebuggerProcessFailed { status: String, stderr: String, stdout: String },
    /// The debugger process could not be launched.
    DebuggerLaunchFailed { cause: String },
    /// The debugger exceeded its completion budget and was force-terminated;
    /// whatever output it had flushed is attached.
    KilledWithoutExit { stdout: String },
}

/// The human-readable text of a [`SessionOutcome`]; empty on success.
pub open spec fn spec_outcome_message(r: SessionOutcome) -> Seq<char> {
    match r {
        SessionOutcome::Success => Seq::empty(),
        SessionOutcome::VerificationFailed(e) => spec_error_message(e@),
        SessionOutcome::DebuggerProcessFailed { status, stderr, stdout } => "Debugger failed with "@
            + status@ + ".\n"@ + stderr@ + "\n"@ + stdout@ + "\n"@,
        SessionOutcome::DebuggerLaunchFailed { cause } => "Failed to launch CDB: "@ + cause@
            + "\n"@,
        SessionOutcome::KilledWithoutExit { stdout } => "Debugger stdout:\n"@ + stdout@ + "\n"@,
    }
}

impl SessionOutcome {
    /// Whether the session is reported as having passed.
    pub fn is_success(&self) -> (r: bool)
        ensures
            r == (*self is Success),
    {
        match self {
            SessionOutcome::Success => true,
            _ => false,
        }
    }

    /// Renders the outcome for display, self-contained: process failures
    /// carry the status and both output streams. Empty on success.
    pub fn message(&self) -> (r: String)
        ensures
            r@ == spec_outcome_message(*self),
    {
        match self {
            SessionOutcome::Success => String::new(),
            SessionOutcome::VerificationFailed(e) => e.message(),
            SessionOutcome::DebuggerProcessFailed { status, stderr, stdout } => {
                let mut m = String::from_str("Debugger failed with ");
                m.append(status.as_str());
                m.append(".\n");
                m.append(stderr.as_str());
                m.append("\n");
                m.append(stdout.as_str());
                m.append("\n");
                assert(m@ =~= spec_outcome_message(*self));
                m
            },
            SessionOutcome::DebuggerLaunchFailed { cause } => {
                let mut m = String::from_str("Failed to launch CDB: ");
                m.append(cause.as_str());
                m.append("\n");
                assert(m@ =~= spec_outcome_message(*self));
                m
            },
            SessionOutcome::KilledWithoutExit { stdout } => {
                let mut m = String::from_str("Debugger stdout:\n");
                m.append(stdout.as_str());
                m.append("\n");
                assert(m@ =~= spec_outcome_message(*self));
                m
            },
        }
    }
}

/// The terminal verdict of a session whose debugger was launched: a child
/// that never exited was killed and reports its partial output; a non-success
/// exit status is a process failure carrying both streams; a successful exit
/// hands the captured output to the matcher, whose verdict decides between
/// success and a verification failure.
pub fn session_verdict(
    exit: Option<ExitInfo>,
    stdout: String,
    stderr: String,
    expected_contents: Vec<&str>,
) -> (r: SessionOutcome)
    ensures
        ({
            let verdict = spec_verdict(stdout@, expected_contents@.map_values(|s: &str| s@));
            match exit {
                Option::None => r matches SessionOutcome::KilledWithoutExit { stdout: o } && o@
                    == stdout@,
                Option::Some(info) => {
                    if !info.success {
                        r matches SessionOutcome::DebuggerProcessFailed {
                            status,
                            stderr: e,
                            stdout: o,
                        } && status@ == info.status@ && e@ == stderr@ && o@ == stdout@
                    } else {
                        match verdict {
                            SpecVerdict::Matched => r is Success,
                            _ => r matches SessionOutcome::VerificationFailed(pe) && pe@
                                == spec_error_of(verdict),
                        }
                    }
                },
            }
        }),
{
    match exit {
        Option::None => SessionOutcome::KilledWithoutExit { stdout },
        Option::Some(info) => {
            if !info.success {
                SessionOutcome::DebuggerProcessFailed { status: info.status, stderr, stdout }
            } else {
                match parse(stdout, expected_contents) {
                    Ok(_) => SessionOutcome::Success,
                    Err(e) => SessionOutcome::VerificationFailed(e),
                }
            }
        },
    }
}

} // verus!
