//! The `numactl` command: building the simulator and running it on a window
//! of idle CPUs.

use vstd::prelude::*;
use crate::command::{
    format_command, launch, opt_to_string, strings_as_strs, strings_view, strs_to_strings, CommandView,
    launch_of, DefaultErr, LaunchPlan, LaunchPlanView, Process, XSCommand,
};
use crate::config::opt_string_view;
use crate::config::opt_str_view;
use crate::text::{decimal, u64_to_string};

verus! {

/// The `numactl` command.
pub struct Numactl {
    pub exe: Process,
    args: Vec<String>,
    work_dir: Option<String>,
}

impl XSCommand<DefaultErr> for Numactl {
    open spec fn name() -> Seq<char> {
        "numactl"@
    }

    closed spec fn command_view(&self) -> CommandView {
        CommandView {
            exe: self.exe@,
            args: strings_view(self.args@),
            work_dir: opt_string_view(self.work_dir),
        }
    }

    fn new(exe: &str) -> (cmd: Self) {
        let cmd = Numactl { exe: Process::new(exe), args: Vec::new(), work_dir: None };
        assert(strings_view(cmd.args@) =~= Seq::<Seq<char>>::empty());
        cmd
    }

    fn set_args(&mut self, args: Vec<&str>) -> (r: Result<(), DefaultErr>) {
        self.args = strs_to_strings(&args);
        Ok(())
    }

    fn get_args(&self) -> (args: Vec<&str>) {
        strings_as_strs(&self.args)
    }

    fn set_workdir(&mut self, work_dir: Option<&str>) -> (r: Result<(), DefaultErr>) {
        self.work_dir = opt_to_string(work_dir);
        Ok(())
    }

    fn excute(&mut self, stdout: Option<&str>, stderr: Option<&str>) -> (plan: LaunchPlan) {
        launch(&self.exe, &self.args, &self.work_dir, stdout, stderr)
    }

    fn to_string(&self) -> (s: String) {
        format_command("numactl", &self.args)
    }
}

/// The length of the run of idle CPUs that ends `busy`.
pub open spec fn free_run(busy: Seq<bool>) -> nat
    decreases busy.len(),
{
    if busy.len() == 0 {
        0
    } else if busy.last() {
        0
    } else {
        free_run(busy.drop_last()) + 1
    }
}

/// How many CPUs the search looks at: up to and including the first at
/// which the trailing run of idle CPUs reaches `need`, or all of them.
pub open spec fn scan_stop(busy: Seq<bool>, need: nat, from: nat) -> nat
    decreases busy.len() - from,
{
    if from >= busy.len() {
        busy.len()
    } else if free_run(busy.take(from + 1int)) >= need {
        from + 1
    } else {
        scan_stop(busy, need, from + 1)
    }
}

/// Whether the `need` CPUs before position `k` are all idle.
pub open spec fn idle_window_ending_at(busy: Seq<bool>, need: nat, k: int) -> bool {
    &&& need <= k <= busy.len()
    &&& forall|j: int| k - need <= j < k ==> !#[trigger] busy[j]
}

proof fn lemma_free_run_window(busy: Seq<bool>, need: nat)
    ensures
        free_run(busy) >= need <==> idle_window_ending_at(busy, need, busy.len() as int),
    decreases busy.len(),
{
    if busy.len() > 0 && need > 0 {
        let rest = busy.drop_last();
        lemma_free_run_window(rest, (need - 1) as nat);
        if free_run(busy) >= need {
            assert forall|j: int| busy.len() - need <= j < busy.len() implies !busy[j] by {
                if j < busy.len() - 1 {
                    assert(rest[j] == busy[j]);
                }
            }
        }
        if idle_window_ending_at(busy, need, busy.len() as int) {
            assert(!busy[busy.len() - 1]);
            assert forall|j: int| rest.len() - (need - 1) <= j < rest.len() implies !rest[j] by {
                assert(rest[j] == busy[j]);
            }
        }
    }
}

proof fn lemma_scan_stop(busy: Seq<bool>, need: nat, from: nat)
    requires
        from <= busy.len(),
    ensures
        from <= scan_stop(busy, need, from) <= busy.len(),
        from < busy.len() ==> from < scan_stop(busy, need, from),
        scan_stop(busy, need, from) < busy.len() ==> free_run(
            busy.take(scan_stop(busy, need, from) as int),
        ) >= need,
        forall|k: int|
            from < k < scan_stop(busy, need, from) ==> free_run(#[trigger] busy.take(k)) < need,
        (exists|k: int| from < k <= busy.len() && free_run(#[trigger] busy.take(k)) >= need)
            ==> free_run(busy.take(scan_stop(busy, need, from) as int)) >= need,
    decreases busy.len() - from,
{
    if from < busy.len() {
        if free_run(busy.take(from + 1int)) < need {
            lemma_scan_stop(busy, need, from + 1);
            if exists|k: int| from < k <= busy.len() && free_run(#[trigger] busy.take(k)) >= need {
                let k = choose|k: int| from < k <= busy.len() && free_run(#[trigger] busy.take(k)) >= need;
                assert(k != from + 1);
            }
        }
    }
}

/// The window of `n` idle CPUs the search picks: the first, by where it
/// ends, as first and last CPU; `None` where no `n` consecutive CPUs are
/// idle.
pub open spec fn spec_find_window(busy: Seq<bool>, n: nat) -> Option<(nat, nat)> {
    let k = scan_stop(busy, n, 0);
    if n >= 1 && free_run(busy.take(k as int)) >= n {
        Some(((k - n) as nat, (k - 1) as nat))
    } else {
        None
    }
}

/// The window the search picks is `n` consecutive idle CPUs, no window of
/// `n` idle CPUs ends before it, and there is none at all exactly when the
/// search finds none.
pub proof fn lemma_find_window(busy: Seq<bool>, n: nat)
    requires
        n >= 1,
    ensures
        match spec_find_window(busy, n) {
            Some((first, last)) => {
                &&& last + 1 - first == n
                &&& last < busy.len()
                &&& forall|i: int| first <= i <= last ==> !#[trigger] busy[i]
                &&& forall|k: int| k < last + 1 ==> !idle_window_ending_at(busy, n, k)
            },
            None => forall|k: int| !idle_window_ending_at(busy, n, k),
        },
{
    let stop = scan_stop(busy, n, 0);
    lemma_scan_stop(busy, n, 0);
    let seen = busy.take(stop as int);
    assert forall|k: int| 0 < k < stop implies !idle_window_ending_at(busy, n, k) by {
        let prefix = busy.take(k);
        if idle_window_ending_at(busy, n, k) {
            assert forall|j: int| prefix.len() - n <= j < prefix.len() implies !prefix[j] by {
                assert(prefix[j] == busy[j]);
            }
            lemma_free_run_window(prefix, n);
        }
    }
    if free_run(seen) >= n {
        lemma_free_run_window(seen, n);
        assert forall|i: int| stop - n <= i <= stop - 1 implies !#[trigger] busy[i] by {
            assert(seen[i] == busy[i]);
        }
    } else {
        assert forall|k: int| !idle_window_ending_at(busy, n, k) by {
            if idle_window_ending_at(busy, n, k) {
                let prefix = busy.take(k);
                assert forall|j: int| prefix.len() - n <= j < prefix.len() implies !prefix[j] by {
                    assert(prefix[j] == busy[j]);
                }
                lemma_free_run_window(prefix, n);
                assert(free_run(busy.take(k)) >= n);
            }
        }
    }
}

/// Looks at the CPUs in order until the run of idle CPUs since the last
/// busy one reaches `n`; returns the first and last CPU of that run, or
/// `None` if no run reaches `n`.
pub fn find_idle_cpus(busy: &Vec<bool>, n: usize) -> (window: Option<(usize, usize)>)
    requires
        n >= 1,
    ensures
        match window {
            Some((first, last)) => spec_find_window(busy@, n as nat) == Some((first as nat, last as nat)),
            None => spec_find_window(busy@, n as nat) is None,
        },
        window matches Some((first, last)) ==> {
            &&& last + 1 - first == n
            &&& last < busy@.len()
            &&& forall|i: int| first <= i <= last ==> !#[trigger] busy@[i]
        },
        window is None <==> forall|k: int| !idle_window_ending_at(busy@, n as nat, k),
{
    let ghost need = n as nat;
    let mut run: usize = 0;
    let mut i: usize = 0;
    proof {
        assert(busy@.take(0) =~= Seq::<bool>::empty());
    }
    while i < busy.len()
        invariant_except_break
            scan_stop(busy@, need, 0) == scan_stop(busy@, need, i as nat),
        invariant
            i <= busy.len(),
            need == n,
            run as nat == free_run(busy@.take(i as int)),
            run <= i,
        ensures
            run as nat == free_run(busy@.take(i as int)),
            run <= i,
            i == scan_stop(busy@, need, 0),
        decreases busy.len() - i,
    {
        proof {
            assert(busy@.take(i + 1).drop_last() =~= busy@.take(i as int));
        }
        if busy[i] {
            run = 0;
        } else {
            run += 1;
        }
        i += 1;
        if run >= n {
            break;
        }
    }
    proof {
        lemma_scan_stop(busy@, need, 0);
        lemma_find_window(busy@, need);
    }
    if run >= n {
        proof {
            assert(idle_window_ending_at(busy@, need, i as int));
        }
        Some((i - n, i - 1))
    } else {
        None
    }
}

/// What the search for idle CPUs does after a round.
#[derive(Debug, PartialEq, Eq, Structural, Clone, Copy)]
pub enum CpuWait {
    /// A window was found: run the simulator on it.
    Proceed,
    /// No window: sleep this many seconds, then search again.
    SleepThenRetry(u64),
    /// No window: sleep this many seconds, then give up.
    SleepThenGiveUp(u64),
}

/// Rounds of searching for idle CPUs before giving up.
pub const CPU_SEARCH_ROUNDS: u32 = 3;
/// Seconds slept after a round that found no window.
pub const CPU_SEARCH_SLEEP: u64 = 120;

/// The step after a round of the search, given how many rounds already
/// failed before it and whether this one found a window.
pub open spec fn spec_cpu_wait_step(failed_rounds: u32, found: bool) -> CpuWait {
    if found {
        CpuWait::Proceed
    } else if failed_rounds + 1 < CPU_SEARCH_ROUNDS {
        CpuWait::SleepThenRetry(CPU_SEARCH_SLEEP)
    } else {
        CpuWait::SleepThenGiveUp(CPU_SEARCH_SLEEP)
    }
}

pub fn cpu_wait_step(failed_rounds: u32, found: bool) -> (w: CpuWait)
    requires
        failed_rounds < CPU_SEARCH_ROUNDS,
    ensures
        w == spec_cpu_wait_step(failed_rounds, found),
{
    if found {
        CpuWait::Proceed
    } else if failed_rounds + 1 < CPU_SEARCH_ROUNDS {
        CpuWait::SleepThenRetry(CPU_SEARCH_SLEEP)
    } else {
        CpuWait::SleepThenGiveUp(CPU_SEARCH_SLEEP)
    }
}

/// The range of CPUs as `numactl -C` takes it: `<first>-<last>`.
pub open spec fn cpu_range(begin: nat, end: nat) -> Seq<char> {
    decimal(begin) + seq!['-'] + decimal(end)
}

/// The launch that builds the simulator with `thread_num` threads.
pub open spec fn make_emu_launch(
    workload: Option<Seq<char>>,
    nemu_home: Seq<char>,
    am_home: Seq<char>,
    thread_num: nat,
) -> LaunchPlanView {
    launch_of(
        "numactl"@,
        seq![
            "-C"@,
            "0-255"@,
            "make"@,
            "build/emu"@,
            "EMU_TRACE=1"@,
            "SIM_ARGS=\"--disable-log\""@,
            "EMU_THREADS="@ + decimal(thread_num),
            "-j256"@,
        ],
        seq![("NEMU_HOME"@, nemu_home), ("AM_HOME"@, am_home)],
        workload,
        None,
        None,
    )
}

/// The launch that runs the simulator on the CPUs `begin` to `end`.
pub open spec fn emu_launch(
    dir: Seq<char>,
    stdout: Option<Seq<char>>,
    stderr: Option<Seq<char>>,
    emu_path: Seq<char>,
    img_path: Seq<char>,
    nemu_home: Seq<char>,
    am_home: Seq<char>,
    begin: nat,
    end: nat,
    max_instr: nat,
) -> LaunchPlanView {
    launch_of(
        "numactl"@,
        seq!["-C"@, cpu_range(begin, end), emu_path, "-I"@, decimal(max_instr), "-i"@, img_path],
        seq![("NOOP_HOME"@, dir), ("NEMU_HOME"@, nemu_home), ("AM_HOME"@, am_home)],
        Some(dir),
        stdout,
        stderr,
    )
}

/// Exit code of the process when the simulator is to run without a work
/// directory.
pub const NO_WORKLOAD_EXIT: i32 = -1;

/// What running the simulator comes to.
pub enum RunEmu {
    /// The simulator was to run on no thread at all.
    NoThreads,
    /// No window of idle CPUs was found.
    NoFreeCpus,
    /// A window was found but no work directory was given: the whole
    /// process is to end with code -1 (`NO_WORKLOAD_EXIT`), which the caller
    /// does, since ending the process is not this library's to do.
    NoWorkload,
    /// Run this.
    Launch(LaunchPlan),
}

impl Numactl {
    /// `numactl -C 0-255 make build/emu` with tracing, logging disabled,
    /// `thread_num` simulation threads and 256 jobs, run in `workload` with
    /// `NEMU_HOME` and `AM_HOME` set.
    pub fn make_emu(workload: Option<&str>, nemu_home: &str, am_home: &str, thread_num: usize) -> (plan:
        LaunchPlan)
        ensures
            plan@ == make_emu_launch(opt_str_view(workload), nemu_home@, am_home@, thread_num as nat),
    {
        let mut numactl = Numactl::new("numactl");
        let threads = u64_to_string(thread_num as u64);
        let mut thread_num_arg = "EMU_THREADS=".to_owned();
        thread_num_arg.append(threads.as_str());
        let _ = numactl.set_args(
            vec![
                "-C",
                "0-255",
                "make",
                "build/emu",
                "EMU_TRACE=1",
                "SIM_ARGS=\"--disable-log\"",
                thread_num_arg.as_str(),
                "-j256",
            ],
        );
        let _ = numactl.set_workdir(workload);
        numactl.exe.env("NEMU_HOME", nemu_home);
        numactl.exe.env("AM_HOME", am_home);
        let plan = numactl.excute(None, None);
        assert(plan@.process.args =~= seq![
            "-C"@,
            "0-255"@,
            "make"@,
            "build/emu"@,
            "EMU_TRACE=1"@,
            "SIM_ARGS=\"--disable-log\""@,
            "EMU_THREADS="@ + decimal(thread_num as nat),
            "-j256"@,
        ]);
        assert(plan@.process.envs =~= seq![("NEMU_HOME"@, nemu_home@), ("AM_HOME"@, am_home@)]);
        plan
    }

    /// Runs the simulator `emu_path` on image `img_path` for at most
    /// `max_instr` instructions, pinned by `numactl -C first-last` to the
    /// first window of `thread_num` consecutive idle CPUs in `busy` (one flag
    /// per CPU, set for a busy one); run in `workload`, which is also
    /// `NOOP_HOME`, with `NEMU_HOME` and `AM_HOME` set, and output sent to
    /// `stdout` and `stderr`.
    pub fn run_emu(
        workload: Option<&str>,
        stdout: Option<&str>,
        stderr: Option<&str>,
        emu_path: &str,
        img_path: &str,
        nemu_home: &str,
        am_home: &str,
        thread_num: usize,
        max_instr: usize,
        busy: &Vec<bool>,
    ) -> (r: RunEmu)
        ensures
            thread_num == 0 <==> r is NoThreads,
            thread_num >= 1 ==> (spec_find_window(busy@, thread_num as nat) is None <==> r is NoFreeCpus),
            (thread_num >= 1 && spec_find_window(busy@, thread_num as nat) is Some && workload is None)
                <==> r is NoWorkload,
            r matches RunEmu::Launch(plan) ==> {
                &&& workload is Some
                &&& spec_find_window(busy@, thread_num as nat) matches Some((first, last))
                &&& plan@ == emu_launch(
                    workload->0@,
                    opt_str_view(stdout),
                    opt_str_view(stderr),
                    emu_path@,
                    img_path@,
                    nemu_home@,
                    am_home@,
                    first,
                    last,
                    max_instr as nat,
                )
                &&& last + 1 - first == thread_num
                &&& last < busy@.len()
                &&& forall|i: int| first <= i <= last ==> !#[trigger] busy@[i]
            },
    {
        if thread_num == 0 {
            return RunEmu::NoThreads;
        }
        let (begin, end) = match find_idle_cpus(busy, thread_num) {
            Some(window) => window,
            None => {
                return RunEmu::NoFreeCpus;
            },
        };
        let dir = match workload {
            Some(dir) => dir,
            None => {
                return RunEmu::NoWorkload;
            },
        };
        let mut cpu_ids = u64_to_string(begin as u64);
        cpu_ids.append("-");
        let last = u64_to_string(end as u64);
        cpu_ids.append(last.as_str());
        let instr = u64_to_string(max_instr as u64);
        let mut numactl = Numactl::new("numactl");
        let _ = numactl.set_args(
            vec!["-C", cpu_ids.as_str(), emu_path, "-I", instr.as_str(), "-i", img_path],
        );
        let _ = numactl.set_workdir(workload);
        numactl.exe.env("NOOP_HOME", dir);
        numactl.exe.env("NEMU_HOME", nemu_home);
        numactl.exe.env("AM_HOME", am_home);
        let plan = numactl.excute(stdout, stderr);
        proof {
            reveal_strlit("-");
            assert(cpu_ids@ =~= cpu_range(begin as nat, end as nat));
        }
        assert(plan@.process.args =~= seq![
            "-C"@,
            cpu_range(begin as nat, end as nat),
            emu_path@,
            "-I"@,
            decimal(max_instr as nat),
            "-i"@,
            img_path@,
        ]);
        assert(plan@.process.envs =~= seq![
            ("NOOP_HOME"@, dir@),
            ("NEMU_HOME"@, nemu_home@),
            ("AM_HOME"@, am_home@),
        ]);
        RunEmu::Launch(plan)
    }
}

} // verus!
