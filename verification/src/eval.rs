//! Outcome evaluation: the result of every external action passes through one
//! of the evaluators here. Success lets the pipeline proceed; a failure either
//! ends the installation (fatal policy) or is logged and tolerated (soft
//! policy). A fatal outcome is a distinguished value that the top-level driver
//! handles exactly once: it runs the unmount sequence of [`cleanup_mounts`]
//! best-effort and ends the process with the verdict's code.

use vstd::prelude::*;
use vstd::string::*;
use crate::command::{Cmd, CmdView, host_cmd};

verus! {

/// Result of running one external command.
#[derive(Debug, Clone, Copy)]
pub enum ProcessOutcome {
    /// The child ran and exited successfully.
    Success,
    /// The child ran and failed; carries the exit code, when the child was
    /// not ended by a signal.
    Failure(Option<i32>),
    /// The child could not be spawned; carries the OS error code when the
    /// system reported one.
    LaunchError(Option<i32>),
}

/// Why an action failed.
#[derive(Debug, Clone, Copy, PartialEq, Eq, Structural)]
pub enum FailCause {
    /// Nonzero exit, with the exit code when there was one.
    Exit(Option<i32>),
    /// The program could not be started, with the OS error code when there
    /// was one.
    Launch(Option<i32>),
    /// A file operation failed, with the OS error code when there was one.
    File(Option<i32>),
}

/// A configuration error: rejected before anything runs, never retried.
#[derive(Debug)]
pub enum ConfigError {
    /// A partition spec names a filesystem tag the pipeline does not know.
    UnknownFilesystem { filesystem: String, blockdevice: String },
    /// The target device for automatic partitioning does not exist.
    MissingDevice { device: String },
    /// Automatic partitioning without EFI was requested on an NVMe-class
    /// device, which this design only partitions with EFI.
    EfiRequired { device: String },
    /// The EFI directory handed to the bootloader step does not exist.
    MissingEfiDir { efidir: String },
}

/// What the pipeline does after evaluating one outcome.
pub enum Verdict {
    /// The action succeeded: log the label and continue.
    Proceed { label: String },
    /// The action failed, but the pipeline continues: unmount the staging
    /// mounts best-effort, log label and cause, go on.
    SoftFail { label: String, cause: FailCause },
    /// The action failed fatally: unmount the staging mounts best-effort,
    /// report label and cause, and end the process with `code`. This is the
    /// only termination path: no failure propagates past it.
    Fatal { label: String, cause: FailCause, code: i32 },
}

/// The cause recorded for a failed command outcome.
pub open spec fn spec_cause(outcome: ProcessOutcome) -> FailCause {
    match outcome {
        ProcessOutcome::Success => FailCause::Exit(None),  // never used
        ProcessOutcome::Failure(code) => FailCause::Exit(code),
        ProcessOutcome::LaunchError(code) => FailCause::Launch(code),
    }
}

/// What the installer process exits with on a fatal outcome: the child's
/// exit code or OS error code when the system reported one, else 1.
pub open spec fn spec_fatal_code(outcome: ProcessOutcome) -> i32 {
    match outcome {
        ProcessOutcome::Success => 0,  // never used
        ProcessOutcome::Failure(code) => match code {
            Some(c) => c,
            None => 1,
        },
        ProcessOutcome::LaunchError(code) => match code {
            Some(c) => c,
            None => 1,
        },
    }
}

/// Fatal policy: success proceeds; any failure becomes a fatal verdict with
/// the cause and exit code taken from the outcome.
pub fn exec_eval(outcome: ProcessOutcome, logmsg: &str) -> (r: Verdict)
    ensures
        match r {
            Verdict::Proceed { label } => outcome is Success && label@ == logmsg@,
            Verdict::SoftFail { .. } => false,
            Verdict::Fatal { label, cause, code } => {
                &&& !(outcome is Success)
                &&& label@ == logmsg@
                &&& cause == spec_cause(outcome)
                &&& code == spec_fatal_code(outcome)
            },
        },
{
    match outcome {
        ProcessOutcome::Success => Verdict::Proceed { label: String::from_str(logmsg) },
        ProcessOutcome::Failure(code) => Verdict::Fatal {
            label: String::from_str(logmsg),
            cause: FailCause::Exit(code),
            code: match code {
                Some(c) => c,
                None => 1,
            },
        },
        ProcessOutcome::LaunchError(code) => Verdict::Fatal {
            label: String::from_str(logmsg),
            cause: FailCause::Launch(code),
            code: match code {
                Some(c) => c,
                None => 1,
            },
        },
    }
}

/// Soft policy: like the fatal policy, but a failure is only logged — the
/// pipeline continues. Used for best-effort actions such as optional package
/// sets.
pub fn soft_exec_eval(outcome: ProcessOutcome, logmsg: &str) -> (r: Verdict)
    ensures
        match r {
            Verdict::Proceed { label } => outcome is Success && label@ == logmsg@,
            Verdict::SoftFail { label, cause } => {
                &&& !(outcome is Success)
                &&& label@ == logmsg@
                &&& cause == spec_cause(outcome)
            },
            Verdict::Fatal { .. } => false,
        },
{
    match outcome {
        ProcessOutcome::Success => Verdict::Proceed { label: String::from_str(logmsg) },
        ProcessOutcome::Failure(code) => Verdict::SoftFail {
            label: String::from_str(logmsg),
            cause: FailCause::Exit(code),
        },
        ProcessOutcome::LaunchError(code) => Verdict::SoftFail {
            label: String::from_str(logmsg),
            cause: FailCause::Launch(code),
        },
    }
}

/// Evaluation of a file operation: success proceeds, failure is always
/// fatal — a broken configuration file is not recoverable. The argument is
/// the OS error code of the failure, when the system reported one.
pub fn files_eval(result: Result<(), Option<i32>>, logmsg: &str) -> (r: Verdict)
    ensures
        match r {
            Verdict::Proceed { label } => result is Ok && label@ == logmsg@,
            Verdict::SoftFail { .. } => false,
            Verdict::Fatal { label, cause, code } => {
                &&& result is Err
                &&& label@ == logmsg@
                &&& cause == FailCause::File(result->Err_0)
                &&& code == match result->Err_0 {
                    Some(c) => c,
                    None => 1,
                }
            },
        },
{
    match result {
        Ok(()) => Verdict::Proceed { label: String::from_str(logmsg) },
        Err(os_code) => Verdict::Fatal {
            label: String::from_str(logmsg),
            cause: FailCause::File(os_code),
            code: match os_code {
                Some(c) => c,
                None => 1,
            },
        },
    }
}

/// The unmount command for one mountpoint.
pub open spec fn spec_umount_cmd(mountpoint: Seq<char>) -> CmdView {
    host_cmd("umount"@, seq![mountpoint])
}

/// The cleanup sequence run best-effort before any fatal abort and after any
/// soft failure: unmount the boot-EFI mountpoint, and the staging root. Errors
/// from these commands are ignored so they never mask the original failure.
pub fn cleanup_mounts() -> (r: Vec<Cmd>)
    ensures
        r.deep_view() == seq![spec_umount_cmd("/mnt/boot/efi"@), spec_umount_cmd("/mnt/"@)],
{
    let mut r: Vec<Cmd> = Vec::new();
    r.push(crate::partition::umount("/mnt/boot/efi"));
    r.push(crate::partition::umount("/mnt/"));
    proof {
        assert(r.deep_view() =~= seq![spec_umount_cmd("/mnt/boot/efi"@), spec_umount_cmd("/mnt/"@)]);
    }
    r
}

} // verus!
