//! What a worker does after each command it ran: go on, stop, wait for
//! CPUs, remove its work directory, or fail loudly, depending on the exit
//! code or error code of the run and on whether the run was the simulation.

use vstd::prelude::*;
use crate::command::{spec_run_result, RunOutcome, STDOUT_FILE_CODE, STDERR_FILE_CODE,
    NO_EXIT_CODE, EXECUTE_FAILED_CODE, SET_WORKDIR_CODE};

verus! {

/// A message the worker logs.
#[derive(Debug, PartialEq, Eq, Structural, Clone, Copy)]
pub enum Message {
    EmuAbort,
    EmuFinished,
    WaitForCpus,
    SetWorkDirError,
    CreateStdoutError,
    CreateStderrError,
    ExecuteWithoutExitCode,
    ExecuteReturnError,
}

impl Message {
    /// Whether the message is logged as an error (otherwise as information).
    pub open spec fn spec_is_error(self) -> bool {
        !(self is WaitForCpus)
    }

    pub fn is_error(&self) -> (b: bool)
        ensures
            b == self.spec_is_error(),
    {
        match self {
            Message::WaitForCpus => false,
            _ => true,
        }
    }

    /// The text of the message.
    pub fn text(&self) -> (s: &'static str)
        ensures
            s@ == match *self {
                Message::EmuAbort => "An EMU Simulation Abort!"@,
                Message::EmuFinished => "An EMU Simulation Finished!"@,
                Message::WaitForCpus => "Wait 10 minutes for avaiable cpus"@,
                Message::SetWorkDirError => "Set WorkDir Error"@,
                Message::CreateStdoutError => "Create Stdout File Error"@,
                Message::CreateStderrError => "Create Stderr File Error"@,
                Message::ExecuteWithoutExitCode => "Execute Without Exit Code"@,
                Message::ExecuteReturnError => "Execute Return Error"@,
            },
    {
        match self {
            Message::EmuAbort => "An EMU Simulation Abort!",
            Message::EmuFinished => "An EMU Simulation Finished!",
            Message::WaitForCpus => "Wait 10 minutes for avaiable cpus",
            Message::SetWorkDirError => "Set WorkDir Error",
            Message::CreateStdoutError => "Create Stdout File Error",
            Message::CreateStderrError => "Create Stderr File Error",
            Message::ExecuteWithoutExitCode => "Execute Without Exit Code",
            Message::ExecuteReturnError => "Execute Return Error",
        }
    }
}

/// Why the worker fails loudly.
#[derive(Debug, PartialEq, Eq, Structural, Clone, Copy)]
pub enum Failure {
    /// Exit code 2 from a command other than the simulation: not handled yet.
    Unimplemented,
    /// An exit code outside 0 to 3.
    UnhandledExitCode,
    /// The error code of an error that is never allowed (-1).
    UnallowedError,
    /// An error code outside those known.
    UnhandledErrorCode,
    /// The image directory holds no task to pick from.
    NoTasks,
}

impl Failure {
    /// The panic message.
    pub fn text(&self) -> (s: &'static str)
        ensures
            s@ == match *self {
                Failure::Unimplemented => "not yet implemented"@,
                Failure::UnhandledExitCode => "Unhandle Exit Code"@,
                Failure::UnallowedError => "Unallowed Error Occur!"@,
                Failure::UnhandledErrorCode => "Unhandle Error Code"@,
                Failure::NoTasks => "cannot sample empty range"@,
            },
    {
        match self {
            Failure::Unimplemented => "not yet implemented",
            Failure::UnhandledExitCode => "Unhandle Exit Code",
            Failure::UnallowedError => "Unallowed Error Occur!",
            Failure::UnhandledErrorCode => "Unhandle Error Code",
            Failure::NoTasks => "cannot sample empty range",
        }
    }
}

/// Where the worker goes after handling a run.
#[derive(Debug, PartialEq, Eq, Structural, Clone, Copy)]
pub enum Next {
    /// Go on with the next step.
    Continue,
    /// Stop the worker (its thread returns).
    Return,
    /// Fail loudly (its thread panics).
    Fail(Failure),
}

/// What the worker does about a run, in this order: log the message, sleep
/// the seconds, remove the work directory, then go on, stop or fail.
#[derive(Debug, PartialEq, Eq, Structural, Clone, Copy)]
pub struct Handling {
    pub log: Option<Message>,
    pub sleep_secs: u64,
    pub remove_workload: bool,
    pub next: Next,
}

/// Seconds a worker waits for idle CPUs before giving up its run.
pub const CPU_WAIT_SECS: u64 = 600;

/// Error code of a simulation for which no idle CPUs were found.
pub const NO_CPUS_CODE: i32 = -2;

/// Error code of an error that is never allowed.
pub const UNALLOWED_CODE: i32 = -1;

pub open spec fn handling(log: Option<Message>, sleep_secs: u64, remove_workload: bool, next: Next) -> Handling {
    Handling { log, sleep_secs, remove_workload, next }
}

/// What the worker does about the result `res` of a command (an exit code,
/// or an error code); `emu` tells whether the command was the simulation.
///
/// The simulator exits with its trap state: 0 for a good trap, 1 for a bad
/// trap, 2 for an abort, 3 for reaching the instruction limit.
///
/// Exit codes: 0 goes on, and for the simulation (a good trap) also removes
/// the work directory; 1 stops; 2 is a simulation that aborted (log and
/// stop, the output kept for debugging; not handled for other commands); 3
/// is a simulation that reached its instruction limit (log, remove the work
/// directory and go on; other commands stop). Error codes: 0 goes on; -1
/// removes the work directory and fails; -2 (no idle CPUs) waits ten
/// minutes, removes the work directory and stops; 1, 2 and 3 (working
/// directory, standard-output file, standard-error file) log, remove the
/// work directory and stop; 4 and 5 (no exit code, could not run) log and
/// stop. Any other code removes the work directory (for errors) and fails.
pub open spec fn spec_handle(res: Result<i32, i32>, emu: bool) -> Handling {
    match res {
        Ok(code) => if code == 0 {
            handling(None, 0, emu, Next::Continue)
        } else if code == 1 {
            handling(None, 0, false, Next::Return)
        } else if code == 2 {
            if emu {
                handling(Some(Message::EmuAbort), 0, false, Next::Return)
            } else {
                handling(None, 0, false, Next::Fail(Failure::Unimplemented))
            }
        } else if code == 3 {
            if emu {
                handling(Some(Message::EmuFinished), 0, true, Next::Continue)
            } else {
                handling(None, 0, false, Next::Return)
            }
        } else {
            handling(None, 0, false, Next::Fail(Failure::UnhandledExitCode))
        },
        Err(code) => if code == UNALLOWED_CODE {
            handling(None, 0, true, Next::Fail(Failure::UnallowedError))
        } else if code == NO_CPUS_CODE {
            handling(Some(Message::WaitForCpus), CPU_WAIT_SECS, true, Next::Return)
        } else if code == 0 {
            handling(None, 0, false, Next::Continue)
        } else if code == SET_WORKDIR_CODE {
            handling(Some(Message::SetWorkDirError), 0, true, Next::Return)
        } else if code == STDOUT_FILE_CODE {
            handling(Some(Message::CreateStdoutError), 0, true, Next::Return)
        } else if code == STDERR_FILE_CODE {
            handling(Some(Message::CreateStderrError), 0, true, Next::Return)
        } else if code == NO_EXIT_CODE {
            handling(Some(Message::ExecuteWithoutExitCode), 0, false, Next::Return)
        } else if code == EXECUTE_FAILED_CODE {
            handling(Some(Message::ExecuteReturnError), 0, false, Next::Return)
        } else {
            handling(None, 0, true, Next::Fail(Failure::UnhandledErrorCode))
        },
    }
}

/// Decides what the worker does about the result of a command.
pub fn handle(res: Result<i32, i32>, emu: bool) -> (h: Handling)
    ensures
        h == spec_handle(res, emu),
{
    match res {
        Ok(code) => {
            if code == 0 {
                Handling { log: None, sleep_secs: 0, remove_workload: emu, next: Next::Continue }
            } else if code == 1 {
                Handling { log: None, sleep_secs: 0, remove_workload: false, next: Next::Return }
            } else if code == 2 {
                if emu {
                    Handling {
                        log: Some(Message::EmuAbort),
                        sleep_secs: 0,
                        remove_workload: false,
                        next: Next::Return,
                    }
                } else {
                    Handling {
                        log: None,
                        sleep_secs: 0,
                        remove_workload: false,
                        next: Next::Fail(Failure::Unimplemented),
                    }
                }
            } else if code == 3 {
                if emu {
                    Handling {
                        log: Some(Message::EmuFinished),
                        sleep_secs: 0,
                        remove_workload: true,
                        next: Next::Continue,
                    }
                } else {
                    Handling { log: None, sleep_secs: 0, remove_workload: false, next: Next::Return }
                }
            } else {
                Handling {
                    log: None,
                    sleep_secs: 0,
                    remove_workload: false,
                    next: Next::Fail(Failure::UnhandledExitCode),
                }
            }
        },
        Err(code) => {
            if code == UNALLOWED_CODE {
                Handling {
                    log: None,
                    sleep_secs: 0,
                    remove_workload: true,
                    next: Next::Fail(Failure::UnallowedError),
                }
            } else if code == NO_CPUS_CODE {
                Handling {
                    log: Some(Message::WaitForCpus),
                    sleep_secs: CPU_WAIT_SECS,
                    remove_workload: true,
                    next: Next::Return,
                }
            } else if code == 0 {
                Handling { log: None, sleep_secs: 0, remove_workload: false, next: Next::Continue }
            } else if code == SET_WORKDIR_CODE {
                Handling {
                    log: Some(Message::SetWorkDirError),
                    sleep_secs: 0,
                    remove_workload: true,
                    next: Next::Return,
                }
            } else if code == STDOUT_FILE_CODE {
                Handling {
                    log: Some(Message::CreateStdoutError),
                    sleep_secs: 0,
                    remove_workload: true,
                    next: Next::Return,
                }
            } else if code == STDERR_FILE_CODE {
                Handling {
                    log: Some(Message::CreateStderrError),
                    sleep_secs: 0,
                    remove_workload: true,
                    next: Next::Return,
                }
            } else if code == NO_EXIT_CODE {
                Handling {
                    log: Some(Message::ExecuteWithoutExitCode),
                    sleep_secs: 0,
                    remove_workload: false,
                    next: Next::Return,
                }
            } else if code == EXECUTE_FAILED_CODE {
                Handling {
                    log: Some(Message::ExecuteReturnError),
                    sleep_secs: 0,
                    remove_workload: false,
                    next: Next::Return,
                }
            } else {
                Handling {
                    log: None,
                    sleep_secs: 0,
                    remove_workload: true,
                    next: Next::Fail(Failure::UnhandledErrorCode),
                }
            }
        },
    }
}

/// A run that fails before or without an exit code never makes the worker
/// fail loudly: it logs the failure under its own message and stops the
/// worker, removing the work directory exactly when the failure was
/// creating an output file.
pub proof fn lemma_run_errors_stop_the_worker(o: RunOutcome, emu: bool)
    requires
        !(o is Exited),
    ensures
        spec_handle(spec_run_result(o), emu).next == Next::Return,
        spec_handle(spec_run_result(o), emu).remove_workload == (o is StdoutFileFailed
            || o is StderrFileFailed),
        spec_handle(spec_run_result(o), emu).log == Some(
            match o {
                RunOutcome::StdoutFileFailed => Message::CreateStdoutError,
                RunOutcome::StderrFileFailed => Message::CreateStderrError,
                RunOutcome::NoExitCode => Message::ExecuteWithoutExitCode,
                _ => Message::ExecuteReturnError,
            },
        ),
{
}

/// How exit codes are handled, by the routine's documented meaning: a
/// command that exits with 0 goes on, and only a simulation that hit its
/// good trap also removes its work directory; 1 stops; a simulation that
/// aborted (2) is logged and stopped with its output kept; a simulation that
/// reached its instruction limit (3) is logged, its work directory removed,
/// and the run goes on, while any other command exiting with 3 stops.
pub proof fn lemma_exit_code_handling(emu: bool)
    ensures
        spec_handle(Ok(0i32), emu) == (Handling {
            log: None,
            sleep_secs: 0,
            remove_workload: emu,
            next: Next::Continue,
        }),
        spec_handle(Ok(1i32), emu).next == Next::Return && !spec_handle(Ok(1i32), emu).remove_workload,
        emu ==> spec_handle(Ok(2i32), emu) == (Handling {
            log: Some(Message::EmuAbort),
            sleep_secs: 0,
            remove_workload: false,
            next: Next::Return,
        }),
        emu ==> spec_handle(Ok(3i32), emu) == (Handling {
            log: Some(Message::EmuFinished),
            sleep_secs: 0,
            remove_workload: true,
            next: Next::Continue,
        }),
        !emu ==> spec_handle(Ok(3i32), emu).next == Next::Return && !spec_handle(Ok(3i32), emu).remove_workload,
        forall|code: i32| code < 0 || code > 3 ==> #[trigger] spec_handle(Ok(code), emu).next == Next::Fail(
            Failure::UnhandledExitCode,
        ),
{
}

/// No idle CPUs for the simulation (-2) waits ten minutes, removes the work
/// directory and ends the run; a never-allowed error (-1) removes the work
/// directory and fails loudly.
pub proof fn lemma_special_error_codes(emu: bool)
    ensures
        spec_handle(Err(-2i32), emu) == (Handling {
            log: Some(Message::WaitForCpus),
            sleep_secs: 600,
            remove_workload: true,
            next: Next::Return,
        }),
        spec_handle(Err(-1i32), emu) == (Handling {
            log: None,
            sleep_secs: 0,
            remove_workload: true,
            next: Next::Fail(Failure::UnallowedError),
        }),
{
}


} // verus!
