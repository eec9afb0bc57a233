use rust_xs_test::command::RunOutcome;
use rust_xs_test::config::Settings;
use rust_xs_test::handle::{Failure, Message, Next};
use rust_xs_test::worker::{may_start_run, Action, Event, Job, Step, StopNote, Worker, WorkerConfig, WriteStatus};
use rust_xs_test::{Config, EmuConfig, HookConfig};
use std::path::Path;

fn settings(noop_home: Option<&str>, thread_num: usize) -> Settings {
    Settings::resolve(&Config {
        hook: Some(HookConfig { workers_num: Some(1), work_root: Some("/root".to_string()), sleep_time: None }),
        emu: Some(EmuConfig {
            img: None,
            img_list: Some("/imgs".to_string()),
            thread_num: Some(thread_num),
            max_instr: Some(500),
            noop_home: noop_home.map(|s| s.to_string()),
            nemu_home: Some("/nemu".to_string()),
            am_home: Some("/am".to_string()),
        }),
    })
}

fn join(a: &str, b: &str) -> String {
    Path::new(a).join(b).to_string_lossy().into_owned()
}

fn run_job(w: &mut Worker, job: Job) -> rust_xs_test::command::LaunchPlan {
    match w.step(Event::Proceed) {
        Action::Run(plan, j) => {
            assert_eq!(j, job);
            plan
        },
        _ => panic!("expected {:?} to start", job),
    }
}

fn finish_ok(w: &mut Worker) {
    match w.step(Event::Ran(RunOutcome::Exited(0))) {
        Action::Apply(h) => assert_eq!(h.next, Next::Continue),
        _ => panic!("expected a handling"),
    }
}

#[test]
fn run_goes_through_every_step() {
    let cfg = WorkerConfig::new(&settings(None, 3), "2024_1_2_3_4_5");
    let workload = join("/root", "2024_1_2_3_4_5");
    let xs_home = join(&workload, "XiangShan");
    assert_eq!(cfg.paths.workload, workload);
    assert_eq!(cfg.paths.xs_home, xs_home);
    assert_eq!(cfg.paths.ram_header, join(&xs_home, "src/test/csrc/ram.h"));
    let mut w = Worker::new(cfg);
    assert_eq!(w.current_step(), Step::Start);
    match w.step(Event::Start) {
        Action::EnsureDir(d) => assert_eq!(d, workload),
        _ => panic!(),
    }
    match w.step(Event::DirCreated(true)) {
        Action::Run(plan, Job::Clone) => {
            assert_eq!(plan.process.program, "git");
            assert_eq!(plan.process.args, vec!["clone".to_string(), "https://github.com/RISCVERS/XiangShan.git".to_string()]);
            assert_eq!(plan.process.current_dir.as_deref(), Some(workload.as_str()));
        },
        _ => panic!(),
    }
    finish_ok(&mut w);
    let plan = run_job(&mut w, Job::MakeInit);
    assert_eq!(plan.process.args, vec!["init".to_string()]);
    assert_eq!(plan.process.current_dir.as_deref(), Some(xs_home.as_str()));
    finish_ok(&mut w);
    run_job(&mut w, Job::Pull);
    finish_ok(&mut w);
    match w.step(Event::Proceed) {
        Action::ReadFile(f) => assert_eq!(f, join(&xs_home, "src/test/csrc/ram.h")),
        _ => panic!(),
    }
    match w.step(Event::RamRead(Some("#define EMU_RAM_SIZE (256 * 1024 * 1024UL)".to_string()))) {
        Action::WriteFile(_, c) => assert_eq!(c, "// #define EMU_RAM_SIZE (256 * 1024 * 1024UL)\n"),
        _ => panic!(),
    }
    match w.step(Event::RamWritten(WriteStatus::Written)) {
        Action::Run(plan, Job::MakeEmu) => assert_eq!(plan.process.args[6], "EMU_THREADS=3"),
        _ => panic!(),
    }
    finish_ok(&mut w);
    match w.step(Event::Proceed) {
        Action::EnsureDir(d) => assert_eq!(d, join(&workload, "./emu_res")),
        _ => panic!(),
    }
    match w.step(Event::DirCreated(true)) {
        Action::Run(plan, Job::GitLog) => {
            assert_eq!(plan.stdout.as_deref(), Some(join(&workload, "git_log.txt").as_str()));
        },
        _ => panic!(),
    }
    finish_ok(&mut w);
    let plan = run_job(&mut w, Job::CopyVerilog);
    assert_eq!(plan.process.args, vec![join(&xs_home, "build/XSSimTop.v"), workload.clone()]);
    finish_ok(&mut w);
    let plan = run_job(&mut w, Job::CopyEmu);
    assert_eq!(plan.process.args, vec![join(&xs_home, "./build/emu"), workload.clone()]);
    finish_ok(&mut w);
    match w.step(Event::Proceed) {
        Action::ListDir(d) => assert_eq!(d, "/imgs"),
        _ => panic!(),
    }
    match w.step(Event::Listed(vec![Some("a.txt".to_string()), Some("x.gz".to_string())])) {
        Action::ReadCpuLoad => {},
        _ => panic!(),
    }
    match w.step(Event::CpuLoad(vec![true, false, false, false])) {
        Action::Run(plan, Job::RunEmu) => {
            assert_eq!(
                plan.process.args,
                vec!["-C", "1-3", &join(&xs_home, "./build/emu"), "-I", "500", "-i", "x.gz"]
                    .iter()
                    .map(|s| s.to_string())
                    .collect::<Vec<_>>()
            );
            assert_eq!(plan.stdout.as_deref(), Some(join(&join(&workload, "./emu_res"), "stdout.txt").as_str()));
            assert_eq!(plan.process.current_dir.as_deref(), Some(xs_home.as_str()));
            assert_eq!(plan.process.envs[0], ("NOOP_HOME".to_string(), xs_home.clone()));
        },
        _ => panic!(),
    }
    match w.step(Event::Ran(RunOutcome::Exited(3))) {
        Action::Apply(h) => {
            assert_eq!(h.log, Some(Message::EmuFinished));
            assert!(h.remove_workload);
            assert_eq!(h.next, Next::Continue);
        },
        _ => panic!(),
    }
    match w.step(Event::Proceed) {
        Action::Stop(StopNote::Finished) => {},
        _ => panic!(),
    }
    assert_eq!(w.current_step(), Step::Stopped);
    assert!(matches!(w.step(Event::Proceed), Action::Idle));
}

#[test]
fn configured_xiangshan_is_not_cloned() {
    let cfg = WorkerConfig::new(&settings(Some("/home/ccc/XiangShan"), 8), "n");
    assert_eq!(cfg.paths.xs_home, "/home/ccc/XiangShan");
    let mut w = Worker::new(cfg);
    let _ = w.step(Event::Start);
    assert!(matches!(w.step(Event::DirCreated(true)), Action::Run(_, Job::MakeInit)));
}

#[test]
fn failures_stop_the_run() {
    let mut w = Worker::new(WorkerConfig::new(&settings(None, 8), "n"));
    let _ = w.step(Event::Start);
    assert!(matches!(w.step(Event::DirCreated(false)), Action::Stop(StopNote::WorkloadDirFailed)));
    assert_eq!(w.current_step(), Step::Stopped);

    let mut w = Worker::new(WorkerConfig::new(&settings(None, 8), "n"));
    let _ = w.step(Event::Start);
    let _ = w.step(Event::DirCreated(true));
    match w.step(Event::Ran(RunOutcome::StdoutFileFailed)) {
        Action::Apply(h) => {
            assert_eq!(h.next, Next::Return);
            assert!(h.remove_workload);
        },
        _ => panic!(),
    }
    assert_eq!(w.current_step(), Step::Stopped);
}

#[test]
fn mismatched_event_is_ignored() {
    let mut w = Worker::new(WorkerConfig::new(&settings(None, 8), "n"));
    assert!(matches!(w.step(Event::Slept), Action::Idle));
    assert_eq!(w.current_step(), Step::Start);
}

fn worker_at_listing(thread_num: usize) -> Worker {
    let mut w = Worker::new(WorkerConfig::new(&settings(Some("/xs"), thread_num), "n"));
    let _ = w.step(Event::Start);
    let _ = w.step(Event::DirCreated(true));
    finish_ok(&mut w);
    let _ = w.step(Event::Proceed);
    finish_ok(&mut w);
    let _ = w.step(Event::Proceed);
    let _ = w.step(Event::RamRead(Some(String::new())));
    let _ = w.step(Event::RamWritten(WriteStatus::Written));
    finish_ok(&mut w);
    let _ = w.step(Event::Proceed);
    let _ = w.step(Event::DirCreated(true));
    finish_ok(&mut w);
    let _ = w.step(Event::Proceed);
    finish_ok(&mut w);
    let _ = w.step(Event::Proceed);
    finish_ok(&mut w);
    assert!(matches!(w.step(Event::Proceed), Action::ListDir(_)));
    w
}

#[test]
fn no_tasks_fails() {
    let mut w = worker_at_listing(8);
    assert!(matches!(w.step(Event::Listed(vec![None])), Action::Fail(Failure::NoTasks)));
}

#[test]
fn no_idle_cpus_rereads_three_times_then_ends_the_run() {
    let mut w = worker_at_listing(3);
    let _ = w.step(Event::Listed(vec![Some("/imgs/t.gz".to_string())]));
    assert!(matches!(w.step(Event::CpuLoad(vec![true, true, true])), Action::Sleep(120)));
    assert!(matches!(w.step(Event::Slept), Action::ReadCpuLoad));
    assert!(matches!(w.step(Event::CpuLoad(vec![false, true, false])), Action::Sleep(120)));
    assert!(matches!(w.step(Event::Slept), Action::ReadCpuLoad));
    assert!(matches!(w.step(Event::CpuLoad(vec![true, true, true])), Action::Sleep(120)));
    match w.step(Event::Slept) {
        Action::Apply(h) => {
            assert_eq!(h.log, Some(Message::WaitForCpus));
            assert_eq!(h.sleep_secs, 600);
            assert!(h.remove_workload);
            assert_eq!(h.next, Next::Return);
        },
        _ => panic!("expected the no-CPU handling"),
    }
    assert_eq!(w.current_step(), Step::Stopped);
}

#[test]
fn cpus_freed_later_are_used() {
    let mut w = worker_at_listing(2);
    let _ = w.step(Event::Listed(vec![Some("/imgs/t.gz".to_string())]));
    assert!(matches!(w.step(Event::CpuLoad(vec![true, true, true])), Action::Sleep(120)));
    assert!(matches!(w.step(Event::Slept), Action::ReadCpuLoad));
    assert!(matches!(w.step(Event::CpuLoad(vec![true, false, true])), Action::Sleep(120)));
    assert!(matches!(w.step(Event::Slept), Action::ReadCpuLoad));
    match w.step(Event::CpuLoad(vec![true, false, false])) {
        Action::Run(plan, Job::RunEmu) => {
            assert_eq!(plan.process.args[1], "1-2");
            assert_eq!(plan.process.args[6], "/imgs/t.gz");
        },
        _ => panic!("expected the simulation"),
    }
}

#[test]
fn zero_threads_stops_the_run() {
    let mut w = worker_at_listing(0);
    let _ = w.step(Event::Listed(vec![Some("t.gz".to_string())]));
    assert!(matches!(w.step(Event::CpuLoad(vec![false])), Action::Stop(StopNote::NoThreads)));
    assert_eq!(w.current_step(), Step::Stopped);
}

#[test]
fn supervisor_fills_free_slots() {
    assert!(may_start_run(0, 1));
    assert!(!may_start_run(1, 1));
    assert!(!may_start_run(4, 3));
}

#[test]
fn join_agrees_with_std() {
    for (base, rel) in [
        ("/root", "a"),
        ("/root/", "a"),
        ("", "a"),
        ("/root", "/abs"),
        ("/root", ""),
        ("rel/dir", "./emu_res"),
        ("/", "x"),
        ("a", "b/c"),
    ] {
        assert_eq!(rust_xs_test::paths::join(base, rel), join(base, rel), "{:?} {:?}", base, rel);
    }
}
