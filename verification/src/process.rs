//! Control of the one proxy process: the slot that records it, and what
//! starting, stopping and polling decide.

use crate::error::CommandError;
use crate::names::Platform;
use crate::paths::{file_name_in, final_component, parent_of, parent_text};
use crate::text::{contains, lowercase, lowered_chars, occurs_in};
use vstd::prelude::*;

verus! {

/// What a poll of the recorded process found.
#[derive(Clone, Copy, Debug, PartialEq, Eq, Structural)]
pub enum Liveness {
    /// The process has not exited.
    Running,
    /// The process has exited.
    Exited,
}

/// The slot for the one managed process: the identifier of the process that
/// was started, if any, and the file name of its executable.
#[derive(Clone, Debug, PartialEq, Eq)]
pub struct ProcessSlot {
    handle: Option<u32>,
    name: Option<String>,
}

/// How to start the proxy.
#[derive(Clone, Debug, PartialEq, Eq)]
pub enum StartPlan {
    /// The recorded process is alive: nothing is started.
    AlreadyRunning { pid: u32 },
    /// Start the program in the working directory; hide its console window
    /// where the platform has one.
    Spawn { program: String, working_dir: String, hide_console: bool },
}

/// How a process is terminated.
#[derive(Clone, Copy, Debug, PartialEq, Eq, Structural)]
pub enum KillMethod {
    /// Forcefully kill the process and the processes it started.
    KillTree,
    /// Send the process a termination signal.
    Signal,
}

/// How stray processes are found by name.
#[derive(Clone, Copy, Debug, PartialEq, Eq, Structural)]
pub enum NameMatch {
    /// By the name of the process image.
    ImageName,
    /// By a pattern matched against the command line.
    Pattern,
}

/// Termination of the recorded process, then a wait for its exit whatever
/// the termination reported.
#[derive(Clone, Copy, Debug, PartialEq, Eq, Structural)]
pub struct Termination {
    pub pid: u32,
    pub method: KillMethod,
}

/// A kill of stray processes by the name of the executable.
#[derive(Clone, Debug, PartialEq, Eq)]
pub struct NameKill {
    pub name: String,
    pub how: NameMatch,
}

/// What stopping the proxy does.
#[derive(Clone, Debug, PartialEq, Eq)]
pub struct StopPlan {
    /// The recorded process to terminate and wait for, if there is one.
    pub terminate: Option<Termination>,
    /// The kill by name that follows as a safety net, if the remembered
    /// name calls for one.
    pub kill_by_name: Option<NameKill>,
}

/// Whether a remembered name is one that a kill by name may use: its
/// lower-case form holds the name of the proxy.
pub open spec fn is_killable_name(name: Seq<char>) -> bool {
    occurs_in(lowercase(name), "cliproxy"@)
}

/// How the platform terminates the recorded process.
pub open spec fn kill_method(platform: Platform) -> KillMethod {
    match platform {
        Platform::Windows => KillMethod::KillTree,
        Platform::Unix => KillMethod::Signal,
    }
}

/// How the platform finds stray processes by name.
pub open spec fn name_match(platform: Platform) -> NameMatch {
    match platform {
        Platform::Windows => NameMatch::ImageName,
        Platform::Unix => NameMatch::Pattern,
    }
}

/// The slot as plain values.
pub struct SlotView {
    /// The identifier of the recorded process.
    pub pid: Option<u32>,
    /// The remembered file name of the executable.
    pub name: Option<Seq<char>>,
}

impl View for ProcessSlot {
    type V = SlotView;

    closed spec fn view(&self) -> SlotView {
        SlotView {
            pid: self.handle,
            name: match self.name {
                Some(name) => Some(name@),
                None => None,
            },
        }
    }
}

/// The process that a poll confirms: the recorded one where the poll found
/// it running, none otherwise.
pub open spec fn running_pid(slot: SlotView, liveness: Liveness) -> Option<u32> {
    if slot.pid is Some && liveness == Liveness::Running {
        slot.pid
    } else {
        None
    }
}

/// The slot after a poll: a recorded process that is not running is
/// forgotten; the remembered name stays.
pub open spec fn after_poll(slot: SlotView, liveness: Liveness) -> SlotView {
    SlotView { pid: running_pid(slot, liveness), name: slot.name }
}

/// The slot after a process was started from the executable: the process is
/// recorded, and the file name of the executable is remembered where the
/// path has one.
pub open spec fn after_spawn(slot: SlotView, exe_path: Seq<char>, pid: u32) -> SlotView {
    SlotView {
        pid: Some(pid),
        name: match final_component(exe_path) {
            Some(name) => Some(name),
            None => slot.name,
        },
    }
}

/// The slot after a stop: empty.
pub open spec fn after_stop(slot: SlotView) -> SlotView {
    SlotView { pid: None, name: None }
}

/// The termination that stopping performs: that of the recorded process by
/// the platform's method, if one is recorded.
pub open spec fn termination_of(slot: SlotView, platform: Platform) -> Option<Termination> {
    match slot.pid {
        Some(pid) => Some(Termination { pid, method: kill_method(platform) }),
        None => None,
    }
}

/// The name that a stop kills by, if any: the remembered name where it is
/// that of the proxy.
pub open spec fn name_to_kill(slot: SlotView) -> Option<Seq<char>> {
    match slot.name {
        Some(name) => if is_killable_name(name) {
            Some(name)
        } else {
            None
        },
        None => None,
    }
}

/// Whether a plan is the one that stopping makes for the slot.
pub open spec fn is_stop_plan(plan: StopPlan, slot: SlotView, platform: Platform) -> bool {
    &&& plan.terminate == termination_of(slot, platform)
    &&& match name_to_kill(slot) {
        Some(name) => plan.kill_by_name matches Some(kill) && kill.name@ == name && kill.how
            == name_match(platform),
        None => plan.kill_by_name is None,
    }
}

impl ProcessSlot {
    /// An empty slot.
    pub fn new() -> (slot: ProcessSlot)
        ensures
            slot@ == (SlotView { pid: None, name: None }),
    {
        ProcessSlot { handle: None, name: None }
    }

    /// The identifier of the recorded process, if there is one. A caller
    /// polls the process only where this is `Some`.
    pub fn recorded(&self) -> (pid: Option<u32>)
        ensures
            pid == self@.pid,
    {
        self.handle
    }
}

/// What a command has of the slot once it has asked for exclusive access:
/// the slot, or `LockPoisoned` where an earlier panic left the lock that
/// guards it poisoned (`None`). The failure is handed on to the caller; the
/// state behind a poisoned lock is not used.
pub fn acquired<T>(access: Option<T>) -> (held: Result<T, CommandError>)
    ensures
        match access {
            Some(slot) => held == Ok::<T, CommandError>(slot),
            None => held == Err::<T, CommandError>(CommandError::LockPoisoned),
        },
{
    match access {
        Some(slot) => Ok(slot),
        None => Err(CommandError::LockPoisoned),
    }
}

/// Decides how to start the proxy. `liveness` is what a poll of the recorded
/// process found; it is not looked at where none is recorded.
///
/// A recorded process that is alive is reported and nothing is started. One
/// that has exited is forgotten. The working directory is the parent of the
/// executable's path; a path without a parent is refused as `InvalidPath`.
pub fn start_cli_proxy(
    slot: &mut ProcessSlot,
    exe_path: &str,
    liveness: Liveness,
    platform: Platform,
) -> (plan: Result<StartPlan, CommandError>)
    ensures
        final(slot)@ == after_poll(old(slot)@, liveness),
        match running_pid(old(slot)@, liveness) {
            Some(pid) => plan matches Ok(StartPlan::AlreadyRunning { pid: running }) && running
                == pid,
            None => match parent_text(exe_path@) {
                Some(dir) => plan matches Ok(
                    StartPlan::Spawn { program, working_dir, hide_console },
                ) && program@ == exe_path@ && working_dir@ == dir && hide_console == (platform
                    == Platform::Windows),
                None => plan matches Err(CommandError::InvalidPath),
            },
        },
{
    if let Some(pid) = slot.handle {
        if matches!(liveness, Liveness::Running) {
            return Ok(StartPlan::AlreadyRunning { pid });
        }
        slot.handle = None;
    }
    match parent_of(exe_path) {
        Some(working_dir) => Ok(
            StartPlan::Spawn {
                program: exe_path.to_owned(),
                working_dir,
                hide_console: matches!(platform, Platform::Windows),
            },
        ),
        None => Err(CommandError::InvalidPath),
    }
}

/// Records the outcome of a spawn. A process that was started is recorded
/// with the file name of its executable, where the path has one, and its
/// identifier is returned; a failure to start is reported as `SpawnFailed`
/// with its reason, and the slot stays as it was.
pub fn record_spawn(slot: &mut ProcessSlot, exe_path: &str, spawned: Result<u32, String>) -> (started:
    Result<u32, CommandError>)
    ensures
        match spawned {
            Ok(pid) => started == Ok::<u32, CommandError>(pid) && final(slot)@ == after_spawn(
                old(slot)@,
                exe_path@,
                pid,
            ),
            Err(reason) => {
                &&& started matches Err(CommandError::SpawnFailed { reason: told })
                &&& told@ == reason@
                &&& final(slot)@ == old(slot)@
            },
        },
{
    match spawned {
        Ok(pid) => {
            slot.handle = Some(pid);
            if let Some(name) = file_name_in(exe_path) {
                slot.name = Some(name);
            }
            Ok(pid)
        },
        Err(reason) => Err(CommandError::SpawnFailed { reason }),
    }
}

/// Empties the slot and says what to terminate.
fn release(slot: &mut ProcessSlot, platform: Platform) -> (plan: StopPlan)
    ensures
        final(slot)@ == after_stop(old(slot)@),
        is_stop_plan(plan, old(slot)@, platform),
{
    let terminate = match slot.handle {
        Some(pid) => Some(
            Termination {
                pid,
                method: match platform {
                    Platform::Windows => KillMethod::KillTree,
                    Platform::Unix => KillMethod::Signal,
                },
            },
        ),
        None => None,
    };
    slot.handle = None;
    let kill_by_name = match slot.name.take() {
        Some(name) => {
            let lower = lowered_chars(name.as_str());
            if contains(&lower, "cliproxy") {
                Some(
                    NameKill {
                        name,
                        how: match platform {
                            Platform::Windows => NameMatch::ImageName,
                            Platform::Unix => NameMatch::Pattern,
                        },
                    },
                )
            } else {
                None
            }
        },
        None => None,
    };
    StopPlan { terminate, kill_by_name }
}

/// Stops the proxy: the recorded process, if any, is to be terminated by
/// the platform's method and waited for, and a kill by name follows where
/// the remembered name is that of the proxy. The slot is emptied whatever
/// the termination will report, so stopping cannot fail.
pub fn stop_cli_proxy(slot: &mut ProcessSlot, platform: Platform) -> (plan: StopPlan)
    ensures
        final(slot)@ == after_stop(old(slot)@),
        is_stop_plan(plan, old(slot)@, platform),
{
    release(slot, platform)
}

/// The cleanup when the application exits: the same termination as a stop,
/// so that no managed process outlives the application.
pub fn cleanup_on_exit(slot: &mut ProcessSlot, platform: Platform) -> (plan: StopPlan)
    ensures
        final(slot)@ == after_stop(old(slot)@),
        is_stop_plan(plan, old(slot)@, platform),
{
    release(slot, platform)
}

/// Whether the proxy is running. `liveness` is what a poll of the recorded
/// process found; it is not looked at where none is recorded. A recorded
/// process that has exited is forgotten.
pub fn is_cli_proxy_running(slot: &mut ProcessSlot, liveness: Liveness) -> (running: bool)
    ensures
        running == (running_pid(old(slot)@, liveness) is Some),
        final(slot)@ == after_poll(old(slot)@, liveness),
{
    match slot.handle {
        Some(_) => {
            if matches!(liveness, Liveness::Running) {
                true
            } else {
                slot.handle = None;
                false
            }
        },
        None => false,
    }
}

/// Starting twice in a row with the process still alive starts one process.
/// Whatever the slot held, once a first start has spawned a process and
/// recorded it, a second start that finds it running reports the same
/// identifier, asks for no spawn, and leaves the slot as it is.
pub proof fn lemma_start_is_idempotent(
    slot: SlotView,
    exe_path: Seq<char>,
    first_poll: Liveness,
    pid: u32,
)
    ensures
        ({
            let recorded = after_spawn(after_poll(slot, first_poll), exe_path, pid);
            &&& running_pid(recorded, Liveness::Running) == Some(pid)
            &&& after_poll(recorded, Liveness::Running) == recorded
        }),
{
}

/// After a stop the proxy is not running: whatever the slot held, whatever
/// the termination reported and whatever a poll would say, the stopped slot
/// confirms no process, and polling it leaves it empty.
pub proof fn lemma_stop_clears_state(slot: SlotView, liveness: Liveness)
    ensures
        running_pid(after_stop(slot), liveness) is None,
        after_poll(after_stop(slot), liveness) == after_stop(slot),
{
}

} // verus!
