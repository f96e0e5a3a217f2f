//! What the user interface receives: error messages and the result shapes of
//! its commands.
use vstd::prelude::*;
use crate::launch::{launch_error_text, words_view};
use crate::supervisor::{DirectoryRole, SupervisorError};

verus! {

pub open spec fn digit_char(d: nat) -> char {
    if d == 0 { '0' } else if d == 1 { '1' } else if d == 2 { '2' } else if d == 3 { '3' }
    else if d == 4 { '4' } else if d == 5 { '5' } else if d == 6 { '6' } else if d == 7 { '7' }
    else if d == 8 { '8' } else { '9' }
}

/// The decimal digits of `n`, without leading zeros.
pub open spec fn decimal_text(n: nat) -> Seq<char>
    decreases n,
{
    if n < 10 {
        seq![digit_char(n)]
    } else {
        decimal_text(n / 10).push(digit_char(n % 10))
    }
}

fn digit_str(d: u64) -> (r: &'static str)
    requires
        d < 10,
    ensures
        r@ == seq![digit_char(d as nat)],
{
    proof {
        reveal_strlit("0");
        reveal_strlit("1");
        reveal_strlit("2");
        reveal_strlit("3");
        reveal_strlit("4");
        reveal_strlit("5");
        reveal_strlit("6");
        reveal_strlit("7");
        reveal_strlit("8");
        reveal_strlit("9");
    }
    let r = if d == 0 { "0" } else if d == 1 { "1" } else if d == 2 { "2" } else if d == 3 { "3" }
    else if d == 4 { "4" } else if d == 5 { "5" } else if d == 6 { "6" } else if d == 7 { "7" }
    else if d == 8 { "8" } else { "9" };
    assert(r@ =~= seq![digit_char(d as nat)]);
    r
}

/// Writes `n` in decimal.
pub fn decimal_string(n: u64) -> (r: String)
    ensures
        r@ == decimal_text(n as nat),
    decreases n,
{
    if n < 10 {
        digit_str(n).to_owned()
    } else {
        let mut s = decimal_string(n / 10);
        s.append(digit_str(n % 10));
        s
    }
}

/// A word in double quotes.
pub open spec fn quoted(w: Seq<char>) -> Seq<char> {
    "\""@ + w + "\""@
}

/// Quoted words separated by commas.
pub open spec fn quoted_items(words: Seq<Seq<char>>) -> Seq<char>
    decreases words.len(),
{
    if words.len() == 0 {
        Seq::empty()
    } else if words.len() == 1 {
        quoted(words[0])
    } else {
        quoted_items(words.drop_last()) + ", "@ + quoted(words.last())
    }
}

/// A command line written as a bracketed list of quoted words, such as
/// `["uv", "run"]`. Characters inside the words are written as they are.
pub open spec fn command_list(words: Seq<Seq<char>>) -> Seq<char> {
    "["@ + quoted_items(words) + "]"@
}

/// Writes a command line as a bracketed list of quoted words.
pub fn format_command(words: &Vec<String>) -> (r: String)
    ensures
        r@ == command_list(words_view(words@)),
{
    let mut out = "[".to_owned();
    let mut i: usize = 0;
    while i < words.len()
        invariant
            i <= words@.len(),
            out@ == "["@ + quoted_items(words_view(words@.subrange(0, i as int))),
        decreases words@.len() - i,
    {
        let ghost prev = words_view(words@.subrange(0, i as int));
        let ghost next = words_view(words@.subrange(0, i + 1));
        assert(next.drop_last() =~= prev);
        let ghost before = out@;
        if i > 0 {
            out.append(", ");
        }
        out.append("\"");
        out.append(words[i].as_str());
        out.append("\"");
        proof {
            if i == 0 {
                assert(prev =~= Seq::<Seq<char>>::empty());
                assert(before =~= "["@ + Seq::<char>::empty());
                assert(out@ =~= "["@ + quoted(next[0]));
            } else {
                assert(out@ =~= "["@ + quoted_items(prev) + ", "@ + quoted(next.last()));
            }
        }
        i = i + 1;
    }
    assert(words@.subrange(0, words@.len() as int) =~= words@);
    out.append("]");
    out
}

/// How the message of a failed directory creation begins.
pub open spec fn directory_text(role: DirectoryRole) -> Seq<char> {
    match role {
        DirectoryRole::WorkingDir => "Failed to create backend cwd "@,
        DirectoryRole::RootDir => "Failed to create backend root directory "@,
        DirectoryRole::LogDir => "Failed to create backend log directory "@,
    }
}

/// The text shown for an error.
pub open spec fn error_text(e: SupervisorError) -> Seq<char> {
    match e {
        SupervisorError::Launch(l) => launch_error_text(l),
        SupervisorError::AutoStartDisabled => AUTO_START_DISABLED_TEXT@,
        SupervisorError::DirectoryCreation { role, path, reason } => directory_text(role) + path@
            + ": "@ + reason@,
        SupervisorError::LogFileUnavailable { path, reason } => "Failed to open backend log "@
            + path@ + ": "@ + reason@,
        SupervisorError::Spawn { command, reason } => "Failed to spawn backend process with command "@
            + command_list(words_view(command@)) + ": "@ + reason@,
        SupervisorError::WorkerExitedPrematurely(s) => "Backend process exited before becoming reachable: "@
            + s@,
        SupervisorError::WorkerNotRunning => "Backend process is not running."@,
        SupervisorError::StatusPollFailed(e) => "Failed to poll backend process status: "@ + e@,
        SupervisorError::ReadinessTimeout(ms) => "Timed out after "@ + decimal_text(ms as nat)
            + "ms waiting for backend startup."@,
        SupervisorError::ActionInProgress => ACTION_IN_PROGRESS_TEXT@,
        SupervisorError::LockUnavailable => "Backend process lock poisoned."@,
    }
}

pub const AUTO_START_DISABLED_TEXT: &'static str = "Backend auto-start is disabled (ASTRBOT_BACKEND_AUTO_START=0).";

pub const ACTION_IN_PROGRESS_TEXT: &'static str = "Backend action already in progress.";

fn concat2(a: &str, b: &str) -> (r: String)
    ensures
        r@ == a@ + b@,
{
    let mut s = a.to_owned();
    s.append(b);
    s
}

fn concat3(a: &str, b: &str, c: &str) -> (r: String)
    ensures
        r@ == a@ + b@ + c@,
{
    let mut s = a.to_owned();
    s.append(b);
    s.append(c);
    s
}

fn concat4(a: &str, b: &str, c: &str, d: &str) -> (r: String)
    ensures
        r@ == a@ + b@ + c@ + d@,
{
    let mut s = concat3(a, b, c);
    s.append(d);
    s
}

impl SupervisorError {
    /// The message reported to the trigger of the failed operation.
    pub fn message(&self) -> (r: String)
        ensures
            r@ == error_text(*self),
    {
        match self {
            SupervisorError::Launch(l) => l.message(),
            SupervisorError::AutoStartDisabled => AUTO_START_DISABLED_TEXT.to_owned(),
            SupervisorError::DirectoryCreation { role, path, reason } => {
                let lead = match role {
                    DirectoryRole::WorkingDir => "Failed to create backend cwd ",
                    DirectoryRole::RootDir => "Failed to create backend root directory ",
                    DirectoryRole::LogDir => "Failed to create backend log directory ",
                };
                concat4(lead, path.as_str(), ": ", reason.as_str())
            },
            SupervisorError::LogFileUnavailable { path, reason } => concat4(
                "Failed to open backend log ",
                path.as_str(),
                ": ",
                reason.as_str(),
            ),
            SupervisorError::Spawn { command, reason } => {
                let c = format_command(command);
                concat4(
                    "Failed to spawn backend process with command ",
                    c.as_str(),
                    ": ",
                    reason.as_str(),
                )
            },
            SupervisorError::WorkerExitedPrematurely(s) => concat2(
                "Backend process exited before becoming reachable: ",
                s.as_str(),
            ),
            SupervisorError::WorkerNotRunning => "Backend process is not running.".to_owned(),
            SupervisorError::StatusPollFailed(e) => concat2(
                "Failed to poll backend process status: ",
                e.as_str(),
            ),
            SupervisorError::ReadinessTimeout(ms) => {
                let n = decimal_string(*ms);
                concat3("Timed out after ", n.as_str(), "ms waiting for backend startup.")
            },
            SupervisorError::ActionInProgress => ACTION_IN_PROGRESS_TEXT.to_owned(),
            SupervisorError::LockUnavailable => "Backend process lock poisoned.".to_owned(),
        }
    }
}

/// The generic result of a bridge command.
#[derive(Debug)]
pub struct BackendBridgeResult {
    pub ok: bool,
    pub reason: Option<String>,
}

/// The bridge result of an operation: success without reason, or failure with
/// the error's message.
pub fn bridge_result(outcome: &Result<(), SupervisorError>) -> (r: BackendBridgeResult)
    ensures
        r.ok == outcome is Ok,
        match outcome {
            Ok(_) => r.reason.is_none(),
            Err(e) => r.reason matches Some(m) && m@ == error_text(*e),
        },
{
    match outcome {
        Ok(()) => BackendBridgeResult { ok: true, reason: None },
        Err(e) => BackendBridgeResult { ok: false, reason: Some(e.message()) },
    }
}

/// What a check for a newer desktop app found.
pub enum UpdateCheckOutcome {
    /// A newer version exists.
    Available(String),
    /// The running version is the latest.
    UpToDate,
    /// The check failed; it is reported quietly, as no newer version found.
    CheckFailed,
    /// The updater could not be set up, for this reason.
    UpdaterUnavailable(String),
}

/// The result of an update check as the user interface receives it.
#[derive(Debug)]
pub struct DesktopAppUpdateCheckResult {
    pub ok: bool,
    pub reason: Option<String>,
    pub current_version: String,
    pub latest_version: Option<String>,
    pub has_update: bool,
}

/// Shapes the result of an update check. A failed check counts as success
/// without a newer version, since a release feed may simply not exist yet.
pub fn update_check_result(current_version: String, outcome: UpdateCheckOutcome) -> (r:
    DesktopAppUpdateCheckResult)
    ensures
        r.current_version@ == current_version@,
        r.ok == !(outcome is UpdaterUnavailable),
        r.has_update == outcome is Available,
        match outcome {
            UpdateCheckOutcome::Available(v) => r.latest_version matches Some(l) && l@ == v@
                && r.reason.is_none(),
            UpdateCheckOutcome::UpToDate => r.latest_version matches Some(l) && l@
                == current_version@ && r.reason.is_none(),
            UpdateCheckOutcome::CheckFailed => r.latest_version.is_none() && r.reason.is_none(),
            UpdateCheckOutcome::UpdaterUnavailable(e) => r.latest_version.is_none()
                && (r.reason matches Some(m) && m@ == "Failed to initialize updater: "@ + e@),
        },
{
    match outcome {
        UpdateCheckOutcome::Available(v) => DesktopAppUpdateCheckResult {
            ok: true,
            reason: None,
            current_version,
            latest_version: Some(v),
            has_update: true,
        },
        UpdateCheckOutcome::UpToDate => {
            let latest = current_version.clone();
            DesktopAppUpdateCheckResult {
                ok: true,
                reason: None,
                current_version,
                latest_version: Some(latest),
                has_update: false,
            }
        },
        UpdateCheckOutcome::CheckFailed => DesktopAppUpdateCheckResult {
            ok: true,
            reason: None,
            current_version,
            latest_version: None,
            has_update: false,
        },
        UpdateCheckOutcome::UpdaterUnavailable(e) => {
            let mut m = "Failed to initialize updater: ".to_owned();
            m.append(e.as_str());
            DesktopAppUpdateCheckResult {
                ok: false,
                reason: Some(m),
                current_version,
                latest_version: None,
                has_update: false,
            }
        },
    }
}

} // verus!
