use rust_xs_test::command::{run_result, RunOutcome};
use rust_xs_test::handle::{handle, Failure, Handling, Message, Next};

fn h(log: Option<Message>, sleep_secs: u64, remove_workload: bool, next: Next) -> Handling {
    Handling { log, sleep_secs, remove_workload, next }
}

#[test]
fn exit_codes() {
    for emu in [false, true] {
        assert_eq!(handle(Ok(0), emu), h(None, 0, emu, Next::Continue));
        assert_eq!(handle(Ok(1), emu), h(None, 0, false, Next::Return));
        assert_eq!(handle(Ok(4), emu), h(None, 0, false, Next::Fail(Failure::UnhandledExitCode)));
        assert_eq!(handle(Ok(-3), emu), h(None, 0, false, Next::Fail(Failure::UnhandledExitCode)));
    }
    assert_eq!(handle(Ok(2), true), h(Some(Message::EmuAbort), 0, false, Next::Return));
    assert_eq!(handle(Ok(2), false), h(None, 0, false, Next::Fail(Failure::Unimplemented)));
    assert_eq!(handle(Ok(3), true), h(Some(Message::EmuFinished), 0, true, Next::Continue));
    assert_eq!(handle(Ok(3), false), h(None, 0, false, Next::Return));
}

#[test]
fn error_codes() {
    for emu in [false, true] {
        assert_eq!(handle(Err(-1), emu), h(None, 0, true, Next::Fail(Failure::UnallowedError)));
        assert_eq!(handle(Err(-2), emu), h(Some(Message::WaitForCpus), 600, true, Next::Return));
        assert_eq!(handle(Err(0), emu), h(None, 0, false, Next::Continue));
        assert_eq!(handle(Err(1), emu), h(Some(Message::SetWorkDirError), 0, true, Next::Return));
        assert_eq!(handle(Err(2), emu), h(Some(Message::CreateStdoutError), 0, true, Next::Return));
        assert_eq!(handle(Err(3), emu), h(Some(Message::CreateStderrError), 0, true, Next::Return));
        assert_eq!(handle(Err(4), emu), h(Some(Message::ExecuteWithoutExitCode), 0, false, Next::Return));
        assert_eq!(handle(Err(5), emu), h(Some(Message::ExecuteReturnError), 0, false, Next::Return));
        assert_eq!(handle(Err(6), emu), h(None, 0, true, Next::Fail(Failure::UnhandledErrorCode)));
    }
}

#[test]
fn failed_runs_stop_the_worker() {
    for o in [RunOutcome::StdoutFileFailed, RunOutcome::StderrFileFailed, RunOutcome::NoExitCode, RunOutcome::ExecuteFailed] {
        for emu in [false, true] {
            let r = handle(run_result(o), emu);
            assert_eq!(r.next, Next::Return);
            assert!(r.log.is_some());
            assert_eq!(r.remove_workload, matches!(o, RunOutcome::StdoutFileFailed | RunOutcome::StderrFileFailed));
        }
    }
}

#[test]
fn message_texts() {
    assert_eq!(Message::EmuAbort.text(), "An EMU Simulation Abort!");
    assert_eq!(Message::EmuFinished.text(), "An EMU Simulation Finished!");
    assert_eq!(Message::WaitForCpus.text(), "Wait 10 minutes for avaiable cpus");
    assert!(!Message::WaitForCpus.is_error());
    assert!(Message::SetWorkDirError.is_error());
    assert_eq!(Message::CreateStdoutError.text(), "Create Stdout File Error");
    assert_eq!(Failure::UnallowedError.text(), "Unallowed Error Occur!");
    assert_eq!(Failure::UnhandledErrorCode.text(), "Unhandle Error Code");
    assert_eq!(Failure::UnhandledExitCode.text(), "Unhandle Exit Code");
}

#[test]
fn good_trap_removes_the_work_directory() {
    let r = handle(run_result(RunOutcome::Exited(0)), true);
    assert!(r.remove_workload);
    assert_eq!(r.next, Next::Continue);
    assert!(!handle(run_result(RunOutcome::Exited(0)), false).remove_workload);
}
