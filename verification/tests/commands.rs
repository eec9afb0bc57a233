use rust_xs_test::busybox::BusyBox;
use rust_xs_test::command::{run_result, excute_result, LaunchPlan, Process, RunOutcome};
use rust_xs_test::git::Git;
use rust_xs_test::just::Just;
use rust_xs_test::make::Make;
use rust_xs_test::numactl::{Numactl, RunEmu};
use rust_xs_test::{DefaultErr, XSCommand, XSCommandErr};

fn strings(v: &[&str]) -> Vec<String> {
    v.iter().map(|s| s.to_string()).collect()
}

fn envs(v: &[(&str, &str)]) -> Vec<(String, String)> {
    v.iter().map(|(k, x)| (k.to_string(), x.to_string())).collect()
}

fn check_plan(
    plan: &LaunchPlan,
    program: &str,
    args: &[&str],
    env: &[(&str, &str)],
    dir: Option<&str>,
    stdout: Option<&str>,
    stderr: Option<&str>,
) {
    assert_eq!(plan.process.program, program);
    assert_eq!(plan.process.args, strings(args));
    assert_eq!(plan.process.envs, envs(env));
    assert_eq!(plan.process.current_dir.as_deref(), dir);
    assert_eq!(plan.stdout.as_deref(), stdout);
    assert_eq!(plan.stderr.as_deref(), stderr);
}

#[test]
fn git_test_to_string() {
    let mut git = Git::new("git");
    let _ = git.set_args(vec!["clone", "https://github.com/SKTT1Ryze/rust-xs-evaluation"]);
    assert_eq!(
        git.to_string(),
        String::from("git clone https://github.com/SKTT1Ryze/rust-xs-evaluation")
    );
}

#[test]
fn make_test_to_string() {
    let mut make = Make::new("make");
    let _ = make.set_args(vec!["emu", "EMU_TRACE=1", "SIM_ARGS=\"--disable-all\"", "EMU_THREADS=8", "-j10"]);
    assert_eq!(
        make.to_string(),
        String::from("make emu EMU_TRACE=1 SIM_ARGS=\"--disable-all\" EMU_THREADS=8 -j10")
    );
}

#[test]
fn just_test_to_string() {
    let mut just = Just::new("just");
    let _ = just.set_args(vec!["run", "test"]);
    assert_eq!(just.to_string(), String::from("just run test"));
}

#[test]
fn to_string_uses_the_command_name_not_the_program() {
    let mut cp = BusyBox::new("cp");
    let _ = cp.set_args(vec!["a", "b"]);
    assert_eq!(cp.to_string(), "busybox a b");
    let make = Make::new("make");
    assert_eq!(make.to_string(), "make");
}

#[test]
fn get_args_gives_back_set_args() {
    let mut git = Git::new("git");
    assert!(git.get_args().is_empty());
    assert!(git.set_args(vec!["status", "--help"]).is_ok());
    assert_eq!(git.get_args(), vec!["status", "--help"]);
    assert!(git.set_args(vec!["log"]).is_ok());
    assert_eq!(git.get_args(), vec!["log"]);
}

#[test]
fn excute_hands_arguments_and_directory_to_the_process() {
    let mut git = Git::new("git");
    let _ = git.set_args(vec!["--version"]);
    assert!(git.set_workdir(Some("git_version_test")).is_ok());
    let plan = git.excute(Some("out.txt"), Some("err.txt"));
    check_plan(&plan, "git", &["--version"], &[], Some("git_version_test"), Some("out.txt"), Some("err.txt"));
    // a second run gets exactly the command's arguments again
    let plan = git.excute(None, None);
    check_plan(&plan, "git", &["--version"], &[], Some("git_version_test"), None, None);
    assert_eq!(git.get_args(), vec!["--version"]);
    assert!(git.exe.args.is_empty());
}

#[test]
fn excute_without_workdir_inherits_directory() {
    let mut make = Make::new("make");
    let _ = make.set_args(vec!["--help"]);
    let _ = make.set_workdir(None);
    let plan = make.excute(None, None);
    check_plan(&plan, "make", &["--help"], &[], None, None, None);
}

#[test]
fn git_helpers_build_their_commands() {
    check_plan(&Git::version(), "git", &["version"], &[], None, None, None);
    check_plan(
        &Git::clone("https://x/y.git", Some("/w")),
        "git",
        &["clone", "https://x/y.git"],
        &[],
        Some("/w"),
        None,
        None,
    );
    check_plan(&Git::pull(Some("/w/y")), "git", &["pull"], &[], Some("/w/y"), None, None);
    check_plan(
        &Git::log(Some("/w/git_log.txt"), None, Some("/w/y")),
        "git",
        &["log"],
        &[],
        Some("/w/y"),
        Some("/w/git_log.txt"),
        None,
    );
}

#[test]
fn make_helpers_build_their_commands() {
    check_plan(&Make::init(Some("/xs")), "make", &["init"], &[], Some("/xs"), None, None);
    check_plan(
        &Make::emu(None),
        "make",
        &["build/emu", "EMU_TRACE=1", "SIM_ARGS=\"--disable-all\"", "EMU_THREADS=8", "-j10"],
        &[],
        None,
        None,
        None,
    );
}

#[test]
fn busybox_helpers_build_their_commands() {
    check_plan(&BusyBox::cp("a", "b", Some("/w")), "cp", &["a", "b"], &[], Some("/w"), None, None);
    check_plan(&BusyBox::mv("a", "b", None), "mv", &["a", "b"], &[], None, None, None);
}

#[test]
fn numactl_make_emu_builds_with_thread_count() {
    check_plan(
        &Numactl::make_emu(Some("/xs"), "/nemu", "/am", 16),
        "numactl",
        &[
            "-C",
            "0-255",
            "make",
            "build/emu",
            "EMU_TRACE=1",
            "SIM_ARGS=\"--disable-log\"",
            "EMU_THREADS=16",
            "-j256",
        ],
        &[("NEMU_HOME", "/nemu"), ("AM_HOME", "/am")],
        Some("/xs"),
        None,
        None,
    );
}

#[test]
fn numactl_run_emu_pins_to_the_idle_window() {
    let busy = vec![true, false, false, false, true];
    match Numactl::run_emu(
        Some("/w"),
        Some("/w/out"),
        Some("/w/err"),
        "/xs/build/emu",
        "img.gz",
        "/nemu",
        "/am",
        3,
        1000000,
        &busy,
    ) {
        RunEmu::Launch(plan) => check_plan(
            &plan,
            "numactl",
            &["-C", "1-3", "/xs/build/emu", "-I", "1000000", "-i", "img.gz"],
            &[("NOOP_HOME", "/w"), ("NEMU_HOME", "/nemu"), ("AM_HOME", "/am")],
            Some("/w"),
            Some("/w/out"),
            Some("/w/err"),
        ),
        _ => panic!("expected a launch"),
    }
}

#[test]
fn numactl_run_emu_skips_busy_cpus() {
    let busy = vec![false, true, false, false];
    match Numactl::run_emu(Some("/w"), None, None, "emu", "a.gz", "n", "a", 2, 7, &busy) {
        RunEmu::Launch(plan) => {
            assert_eq!(plan.process.args[0], "-C");
            assert_eq!(plan.process.args[1], "2-3");
            assert_eq!(plan.process.args[2], "emu");
        },
        _ => panic!("expected a launch"),
    }
}

#[test]
fn numactl_run_emu_with_zero_threads_runs_nothing() {
    let idle = vec![false, false];
    assert!(matches!(
        Numactl::run_emu(Some("/w"), None, None, "emu", "img", "n", "a", 0, 10, &idle),
        RunEmu::NoThreads
    ));
}

#[test]
fn numactl_run_emu_without_cpus_or_workload() {
    let busy = vec![true, true, false, true];
    assert!(matches!(
        Numactl::run_emu(Some("/w"), None, None, "emu", "img", "n", "a", 3, 10, &busy),
        RunEmu::NoFreeCpus
    ));
    let idle = vec![false, false, false];
    assert!(matches!(
        Numactl::run_emu(None, None, None, "emu", "img", "n", "a", 3, 10, &idle),
        RunEmu::NoWorkload
    ));
}

#[test]
fn default_err_codes_and_texts() {
    assert_eq!(DefaultErr::SetArgsErr.err_code(), -1);
    assert_eq!(DefaultErr::SetWorkDirErr.err_code(), 1);
    assert_eq!(DefaultErr::ExcuteErr(5).err_code(), 5);
    assert_eq!(DefaultErr::SetArgsErr.as_str(), "Default Set Args Error");
    assert_eq!(DefaultErr::SetWorkDirErr.as_str(), "Default Set workload Error");
    assert_eq!(DefaultErr::ExcuteErr(3).as_str(), "Default Excute Err");
}

#[test]
fn run_outcomes_become_codes() {
    assert_eq!(run_result(RunOutcome::Exited(0)), Ok(0));
    assert_eq!(run_result(RunOutcome::Exited(3)), Ok(3));
    assert_eq!(run_result(RunOutcome::StdoutFileFailed), Err(2));
    assert_eq!(run_result(RunOutcome::StderrFileFailed), Err(3));
    assert_eq!(run_result(RunOutcome::NoExitCode), Err(4));
    assert_eq!(run_result(RunOutcome::ExecuteFailed), Err(5));
    assert_eq!(excute_result(RunOutcome::StdoutFileFailed), Err(DefaultErr::ExcuteErr(2)));
    assert_eq!(excute_result(RunOutcome::Exited(-7)), Ok(-7));
}

#[test]
fn process_records_what_it_is_told() {
    let mut p = Process::new("numactl");
    p.arg("-C");
    p.env("K", "V");
    p.current_dir("/d");
    let q = p.duplicate();
    assert_eq!(q.program, "numactl");
    assert_eq!(q.args, strings(&["-C"]));
    assert_eq!(q.envs, envs(&[("K", "V")]));
    assert_eq!(q.current_dir.as_deref(), Some("/d"));
}
