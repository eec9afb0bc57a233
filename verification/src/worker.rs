//! One test run, as a state machine: the worker says what to do next (make
//! a directory, run a command, read or write a file, list the images, read
//! the CPU load, sleep, stop), the caller does it and hands back what came of
//! it.

use vstd::prelude::*;
use crate::busybox::BusyBox;
use crate::command::{launch_of, spec_run_result, run_result, LaunchPlan, LaunchPlanView, RunOutcome};
use crate::config::{opt_string_view, Settings};
use crate::git::Git;
use crate::handle::{handle, spec_handle, Failure, Handling, Next, NO_CPUS_CODE};
use crate::make::Make;
use crate::numactl::{cpu_wait_step, emu_launch, make_emu_launch, spec_cpu_wait_step, spec_find_window,
    CpuWait, Numactl, RunEmu};
use crate::paths::{spec_work_paths, WorkPaths, WorkPathsView, REPO_URL};
use crate::ram::{rewrite_ram_config, spec_rewrite_ram_config};
use crate::tasks::{entries_view, pick_task, spec_tasks, tasks_list};

verus! {

/// What a run needs to know: its paths, whether XiangShan must be cloned,
/// and the simulator settings.
pub struct WorkerConfig {
    pub paths: WorkPaths,
    pub clone_repo: bool,
    pub img_list: String,
    pub thread_num: usize,
    pub max_instr: usize,
    pub nemu_home: String,
    pub am_home: String,
}

pub struct WorkerConfigView {
    pub paths: WorkPathsView,
    pub clone_repo: bool,
    pub img_list: Seq<char>,
    pub thread_num: nat,
    pub max_instr: nat,
    pub nemu_home: Seq<char>,
    pub am_home: Seq<char>,
}

impl View for WorkerConfig {
    type V = WorkerConfigView;

    open spec fn view(&self) -> WorkerConfigView {
        WorkerConfigView {
            paths: self.paths@,
            clone_repo: self.clone_repo,
            img_list: self.img_list@,
            thread_num: self.thread_num as nat,
            max_instr: self.max_instr as nat,
            nemu_home: self.nemu_home@,
            am_home: self.am_home@,
        }
    }
}

impl WorkerConfig {
    /// The configuration of the run whose work directory is named `name`.
    pub fn new(settings: &Settings, name: &str) -> (c: WorkerConfig)
        ensures
            c@ == (WorkerConfigView {
                paths: spec_work_paths(settings.work_root@, name@, opt_string_view(settings.noop_home)),
                clone_repo: settings.noop_home is None,
                img_list: settings.img_list@,
                thread_num: settings.thread_num as nat,
                max_instr: settings.max_instr as nat,
                nemu_home: settings.nemu_home@,
                am_home: settings.am_home@,
            }),
    {
        WorkerConfig {
            paths: WorkPaths::new(settings, name),
            clone_repo: settings.noop_home.is_none(),
            img_list: settings.img_list.clone(),
            thread_num: settings.thread_num,
            max_instr: settings.max_instr,
            nemu_home: settings.nemu_home.clone(),
            am_home: settings.am_home.clone(),
        }
    }
}

/// A command of the run.
#[derive(Debug, PartialEq, Eq, Structural, Clone, Copy)]
pub enum Job {
    Clone,
    MakeInit,
    Pull,
    MakeEmu,
    GitLog,
    CopyVerilog,
    CopyEmu,
    RunEmu,
}

/// Where the run stands.
#[derive(Debug, PartialEq, Eq, Structural, Clone, Copy)]
pub enum Step {
    Start,
    CreatingWorkload,
    Running(Job),
    After(Job),
    ReadingRam,
    WritingRam,
    CreatingResDir,
    Listing,
    /// Waiting for a reading of the CPU load, after this many searches
    /// that found no window.
    ReadingCpus(u32),
    /// Sleeping after this many searches that found no window.
    WaitingCpus(u32),
    /// Sleeping after the last search that found no window.
    GivingUp,
    Stopped,
}

/// How writing the memory header went.
#[derive(Debug, PartialEq, Eq, Structural, Clone, Copy)]
pub enum WriteStatus {
    Written,
    OpenFailed,
    WriteFailed,
}

/// Why the run stopped, where it says so.
#[derive(Debug, PartialEq, Eq, Structural, Clone, Copy)]
pub enum StopNote {
    WorkloadDirFailed,
    ReadRamFailed,
    OpenRamFailed,
    WriteRamFailed,
    ResDirFailed,
    NoThreads,
    Finished,
}

impl StopNote {
    pub open spec fn spec_is_error(self) -> bool {
        !(self is Finished)
    }

    /// Whether the note is logged as an error (otherwise as information).
    pub fn is_error(&self) -> (b: bool)
        ensures
            b == self.spec_is_error(),
    {
        match self {
            StopNote::Finished => false,
            _ => true,
        }
    }

    /// The text logged.
    pub fn text(&self) -> (s: &'static str)
        ensures
            s@ == match *self {
                StopNote::WorkloadDirFailed => "Failed in creating workload, thread exit."@,
                StopNote::ReadRamFailed => "Failed to read ram.h, thread exit."@,
                StopNote::OpenRamFailed => "Failed to open ram.h, thread exit"@,
                StopNote::WriteRamFailed => "BufWriter write line error, thread exit."@,
                StopNote::ResDirFailed => "Failed in creating res_dir, thread exit."@,
                StopNote::NoThreads => "emu thread number is 0, thread exit."@,
                StopNote::Finished => "thread return 0"@,
            },
    {
        match self {
            StopNote::WorkloadDirFailed => "Failed in creating workload, thread exit.",
            StopNote::ReadRamFailed => "Failed to read ram.h, thread exit.",
            StopNote::OpenRamFailed => "Failed to open ram.h, thread exit",
            StopNote::WriteRamFailed => "BufWriter write line error, thread exit.",
            StopNote::ResDirFailed => "Failed in creating res_dir, thread exit.",
            StopNote::NoThreads => "emu thread number is 0, thread exit.",
            StopNote::Finished => "thread return 0",
        }
    }
}

/// What came of the last action.
pub enum Event {
    /// The run begins.
    Start,
    /// A handling that said to go on was carried out.
    Proceed,
    /// A directory was made (or was there), or could not be made.
    DirCreated(bool),
    /// A command ran and ended so.
    Ran(RunOutcome),
    /// The memory header was read, or could not be.
    RamRead(Option<String>),
    /// The memory header was written so.
    RamWritten(WriteStatus),
    /// The image directory was walked: the path of each entry found, `None`
    /// for those that are not valid UTF-8.
    Listed(Vec<Option<String>>),
    /// The load of each CPU was read: set for those more than half busy.
    CpuLoad(Vec<bool>),
    /// A sleep ended.
    Slept,
}

pub enum EventView {
    Start,
    Proceed,
    DirCreated(bool),
    Ran(RunOutcome),
    RamRead(Option<Seq<char>>),
    RamWritten(WriteStatus),
    Listed(Seq<Option<Seq<char>>>),
    CpuLoad(Seq<bool>),
    Slept,
}

impl View for Event {
    type V = EventView;

    open spec fn view(&self) -> EventView {
        match self {
            Event::Start => EventView::Start,
            Event::Proceed => EventView::Proceed,
            Event::DirCreated(ok) => EventView::DirCreated(*ok),
            Event::Ran(o) => EventView::Ran(*o),
            Event::RamRead(c) => EventView::RamRead(opt_string_view(*c)),
            Event::RamWritten(w) => EventView::RamWritten(*w),
            Event::Listed(entries) => EventView::Listed(entries_view(entries@)),
            Event::CpuLoad(busy) => EventView::CpuLoad(busy@),
            Event::Slept => EventView::Slept,
        }
    }
}

/// What to do next.
pub enum Action {
    /// Make this directory (with its parents) unless it is there.
    EnsureDir(String),
    /// Run this command of the run.
    Run(LaunchPlan, Job),
    /// Carry out this handling of the last run.
    Apply(Handling),
    /// Read this file.
    ReadFile(String),
    /// Write these contents to this file.
    WriteFile(String, String),
    /// Walk this directory, listing the names of what is in it.
    ListDir(String),
    /// Read the load of each CPU.
    ReadCpuLoad,
    /// Sleep this many seconds.
    Sleep(u64),
    /// Stop the run with this note.
    Stop(StopNote),
    /// Fail loudly.
    Fail(Failure),
    /// Nothing: the event did not belong to the step.
    Idle,
}

pub enum ActionView {
    EnsureDir(Seq<char>),
    Run(LaunchPlanView, Job),
    Apply(Handling),
    ReadFile(Seq<char>),
    WriteFile(Seq<char>, Seq<char>),
    ListDir(Seq<char>),
    ReadCpuLoad,
    Sleep(u64),
    Stop(StopNote),
    Fail(Failure),
    Idle,
}

impl View for Action {
    type V = ActionView;

    open spec fn view(&self) -> ActionView {
        match self {
            Action::EnsureDir(d) => ActionView::EnsureDir(d@),
            Action::Run(p, j) => ActionView::Run(p@, *j),
            Action::Apply(h) => ActionView::Apply(*h),
            Action::ReadFile(f) => ActionView::ReadFile(f@),
            Action::WriteFile(f, c) => ActionView::WriteFile(f@, c@),
            Action::ListDir(d) => ActionView::ListDir(d@),
            Action::ReadCpuLoad => ActionView::ReadCpuLoad,
            Action::Sleep(s) => ActionView::Sleep(*s),
            Action::Stop(n) => ActionView::Stop(*n),
            Action::Fail(f) => ActionView::Fail(*f),
            Action::Idle => ActionView::Idle,
        }
    }
}

/// What the run does when no window of idle CPUs turned up: the handling
/// of the error code for no available CPUs in the simulation.
pub open spec fn no_cpus_handling() -> Handling {
    spec_handle(Err(NO_CPUS_CODE), true)
}

/// The command each of the seven fixed jobs runs; `None` for the
/// simulation, whose command depends on the CPU load and is given by
/// `emu_launch`.
pub open spec fn job_launch(cfg: WorkerConfigView, job: Job) -> Option<LaunchPlanView> {
    let p = cfg.paths;
    match job {
        Job::Clone => Some(launch_of(
            "git"@,
            seq!["clone"@, REPO_URL@],
            Seq::empty(),
            Some(p.workload),
            None,
            None,
        )),
        Job::MakeInit => Some(launch_of("make"@, seq!["init"@], Seq::empty(), Some(p.xs_home), None, None)),
        Job::Pull => Some(launch_of("git"@, seq!["pull"@], Seq::empty(), Some(p.xs_home), None, None)),
        Job::MakeEmu => Some(make_emu_launch(Some(p.xs_home), cfg.nemu_home, cfg.am_home, cfg.thread_num)),
        Job::GitLog => Some(launch_of(
            "git"@,
            seq!["log"@],
            Seq::empty(),
            Some(p.xs_home),
            Some(p.git_log_file),
            None,
        )),
        Job::CopyVerilog => Some(launch_of(
            "cp"@,
            seq![p.verilog, p.workload],
            Seq::empty(),
            Some(p.workload),
            None,
            None,
        )),
        Job::CopyEmu => Some(launch_of(
            "cp"@,
            seq![p.emu_path, p.workload],
            Seq::empty(),
            Some(p.workload),
            None,
            None,
        )),
        Job::RunEmu => None,
    }
}

/// Starting one of the fixed jobs.
pub open spec fn start_job(cfg: WorkerConfigView, job: Job) -> (Step, ActionView)
    recommends
        job != Job::RunEmu,
{
    (Step::Running(job), ActionView::Run(job_launch(cfg, job)->0, job))
}

/// What follows a job that went well.
pub open spec fn after_job(cfg: WorkerConfigView, job: Job) -> (Step, ActionView) {
    match job {
        Job::Clone => start_job(cfg, Job::MakeInit),
        Job::MakeInit => start_job(cfg, Job::Pull),
        Job::Pull => (Step::ReadingRam, ActionView::ReadFile(cfg.paths.ram_header)),
        Job::MakeEmu => (Step::CreatingResDir, ActionView::EnsureDir(cfg.paths.res_dir)),
        Job::GitLog => start_job(cfg, Job::CopyVerilog),
        Job::CopyVerilog => start_job(cfg, Job::CopyEmu),
        Job::CopyEmu => (Step::Listing, ActionView::ListDir(cfg.img_list)),
        Job::RunEmu => (Step::Stopped, ActionView::Stop(StopNote::Finished)),
    }
}

/// The step after a round of the search for idle CPUs failed, `failed`
/// rounds having failed before it.
pub open spec fn after_failed_round(failed: u32) -> (Step, ActionView) {
    if failed >= 3 {
        (Step::Stopped, ActionView::Apply(no_cpus_handling()))
    } else {
        match spec_cpu_wait_step(failed, false) {
            CpuWait::SleepThenRetry(secs) => (Step::WaitingCpus((failed + 1) as u32), ActionView::Sleep(secs)),
            CpuWait::SleepThenGiveUp(secs) => (Step::GivingUp, ActionView::Sleep(secs)),
            CpuWait::Proceed => (Step::Stopped, ActionView::Idle),
        }
    }
}

/// How the run goes from `step` (with the picked image `img`) on `event`
/// to `new_step` (with `new_img`), and what it asks for.
///
/// The run makes its work directory; clones XiangShan unless a directory is
/// configured; runs `make init` and `git pull`; rewrites the memory header
/// for 8 GiB; builds the simulator; makes the result directory; writes the
/// git log; copies the Verilog and the simulator into the work directory;
/// picks one task at random from the image directory; and runs the
/// simulator on the first window of `thread_num` consecutive idle CPUs,
/// reading the CPU load afresh for each of at most three searches, sleeping
/// after each one that finds no window, and after the third handling the
/// error code for no available CPUs (wait, remove the work directory, end
/// the run). Zero threads stop the run with a note. Each command's result is handled
/// by `spec_handle`; a failed directory, read or write stops the run with a
/// note.
pub open spec fn spec_transition(
    cfg: WorkerConfigView,
    step: Step,
    img: Option<Seq<char>>,
    event: EventView,
    new_step: Step,
    new_img: Option<Seq<char>>,
    action: ActionView,
) -> bool {
    let idle = new_step == step && new_img == img && action == ActionView::Idle;
    let keep = new_img == img;
    match step {
        Step::Start => match event {
            EventView::Start => keep && new_step == Step::CreatingWorkload && action
                == ActionView::EnsureDir(cfg.paths.workload),
            _ => idle,
        },
        Step::CreatingWorkload => match event {
            EventView::DirCreated(ok) => keep && if !ok {
                new_step == Step::Stopped && action == ActionView::Stop(StopNote::WorkloadDirFailed)
            } else if cfg.clone_repo {
                (new_step, action) == start_job(cfg, Job::Clone)
            } else {
                (new_step, action) == start_job(cfg, Job::MakeInit)
            },
            _ => idle,
        },
        Step::Running(job) => match event {
            EventView::Ran(outcome) => {
                let h = spec_handle(spec_run_result(outcome), job == Job::RunEmu);
                &&& keep
                &&& action == ActionView::Apply(h)
                &&& new_step == if h.next == Next::Continue {
                    Step::After(job)
                } else {
                    Step::Stopped
                }
            },
            _ => idle,
        },
        Step::After(job) => match event {
            EventView::Proceed => keep && (new_step, action) == after_job(cfg, job),
            _ => idle,
        },
        Step::ReadingRam => match event {
            EventView::RamRead(Some(contents)) => keep && new_step == Step::WritingRam && action
                == ActionView::WriteFile(cfg.paths.ram_header, spec_rewrite_ram_config(contents)),
            EventView::RamRead(None) => keep && new_step == Step::Stopped && action
                == ActionView::Stop(StopNote::ReadRamFailed),
            _ => idle,
        },
        Step::WritingRam => match event {
            EventView::RamWritten(WriteStatus::Written) => keep && (new_step, action) == start_job(
                cfg,
                Job::MakeEmu,
            ),
            EventView::RamWritten(WriteStatus::OpenFailed) => keep && new_step == Step::Stopped
                && action == ActionView::Stop(StopNote::OpenRamFailed),
            EventView::RamWritten(WriteStatus::WriteFailed) => keep && new_step == Step::Stopped
                && action == ActionView::Stop(StopNote::WriteRamFailed),
            _ => idle,
        },
        Step::CreatingResDir => match event {
            EventView::DirCreated(ok) => keep && if ok {
                (new_step, action) == start_job(cfg, Job::GitLog)
            } else {
                new_step == Step::Stopped && action == ActionView::Stop(StopNote::ResDirFailed)
            },
            _ => idle,
        },
        Step::Listing => match event {
            EventView::Listed(entries) => {
                let tasks = spec_tasks(entries);
                if tasks.len() == 0 {
                    keep && new_step == Step::Stopped && action == ActionView::Fail(Failure::NoTasks)
                } else {
                    &&& new_step == Step::ReadingCpus(0)
                    &&& action == ActionView::ReadCpuLoad
                    &&& new_img matches Some(picked) && tasks.contains(picked)
                }
            },
            _ => idle,
        },
        Step::ReadingCpus(failed) => match event {
            EventView::CpuLoad(busy) => keep && if cfg.thread_num == 0 {
                new_step == Step::Stopped && action == ActionView::Stop(StopNote::NoThreads)
            } else if img is None {
                new_step == Step::Stopped && action == ActionView::Fail(Failure::NoTasks)
            } else {
                match spec_find_window(busy, cfg.thread_num) {
                    Some((first, last)) => {
                        &&& new_step == Step::Running(Job::RunEmu)
                        &&& action == ActionView::Run(
                            emu_launch(
                                cfg.paths.xs_home,
                                Some(cfg.paths.stdout_file),
                                Some(cfg.paths.stderr_file),
                                cfg.paths.emu_path,
                                img->0,
                                cfg.nemu_home,
                                cfg.am_home,
                                first,
                                last,
                                cfg.max_instr,
                            ),
                            Job::RunEmu,
                        )
                    },
                    None => (new_step, action) == after_failed_round(failed),
                }
            },
            _ => idle,
        },
        Step::WaitingCpus(failed) => match event {
            EventView::Slept => keep && new_step == Step::ReadingCpus(failed) && action
                == ActionView::ReadCpuLoad,
            _ => idle,
        },
        Step::GivingUp => match event {
            EventView::Slept => keep && new_step == Step::Stopped && action == ActionView::Apply(
                no_cpus_handling(),
            ),
            _ => idle,
        },
        Step::Stopped => idle,
    }
}

/// How far a run is from its end: every step that asks for something
/// moves to a lower rank, and a stopped run has rank 0.
pub open spec fn step_rank(step: Step) -> nat {
    match step {
        Step::Start => 40,
        Step::CreatingWorkload => 39,
        Step::Running(Job::Clone) => 38,
        Step::After(Job::Clone) => 37,
        Step::Running(Job::MakeInit) => 36,
        Step::After(Job::MakeInit) => 35,
        Step::Running(Job::Pull) => 34,
        Step::After(Job::Pull) => 33,
        Step::ReadingRam => 32,
        Step::WritingRam => 31,
        Step::Running(Job::MakeEmu) => 30,
        Step::After(Job::MakeEmu) => 29,
        Step::CreatingResDir => 28,
        Step::Running(Job::GitLog) => 27,
        Step::After(Job::GitLog) => 26,
        Step::Running(Job::CopyVerilog) => 25,
        Step::After(Job::CopyVerilog) => 24,
        Step::Running(Job::CopyEmu) => 23,
        Step::After(Job::CopyEmu) => 22,
        Step::Listing => 21,
        Step::ReadingCpus(failed) => if failed <= 5 {
            (20 - 2 * failed) as nat
        } else {
            9
        },
        Step::WaitingCpus(failed) => if failed <= 5 {
            (21 - 2 * failed) as nat
        } else {
            10
        },
        Step::GivingUp => 8,
        Step::Running(Job::RunEmu) => 7,
        Step::After(Job::RunEmu) => 6,
        Step::Stopped => 0,
    }
}

/// Every run comes to an end: a step that asks for anything moves the run
/// to a lower rank, and a stopped run asks for nothing.
pub proof fn lemma_run_progresses(
    cfg: WorkerConfigView,
    step: Step,
    img: Option<Seq<char>>,
    event: EventView,
    new_step: Step,
    new_img: Option<Seq<char>>,
    action: ActionView,
)
    requires
        spec_transition(cfg, step, img, event, new_step, new_img, action),
    ensures
        action !is Idle ==> step_rank(new_step) < step_rank(step),
        step is Stopped ==> action is Idle,
{
}

/// Only the simulator run is handled as the simulation: the result of every
/// other job is handled as that of an ordinary command, so that one that
/// exits with 0 leaves everything as it is and lets the run go on.
pub proof fn lemma_only_simulation_is_handled_as_simulation(
    cfg: WorkerConfigView,
    job: Job,
    img: Option<Seq<char>>,
    outcome: RunOutcome,
    new_step: Step,
    new_img: Option<Seq<char>>,
    action: ActionView,
)
    requires
        spec_transition(cfg, Step::Running(job), img, EventView::Ran(outcome), new_step, new_img, action),
    ensures
        job != Job::RunEmu ==> action == ActionView::Apply(spec_handle(spec_run_result(outcome), false)),
        job == Job::RunEmu ==> action == ActionView::Apply(spec_handle(spec_run_result(outcome), true)),
        job != Job::RunEmu && outcome == RunOutcome::Exited(0) ==> action == ActionView::Apply(
            Handling { log: None, sleep_secs: 0, remove_workload: false, next: Next::Continue },
        ) && new_step == Step::After(job),
{
}


/// A run of the routine.
pub struct Worker {
    config: WorkerConfig,
    step: Step,
    img: Option<String>,
}

impl Worker {
    pub closed spec fn config_view(&self) -> WorkerConfigView {
        self.config@
    }

    pub closed spec fn step_view(&self) -> Step {
        self.step
    }

    pub closed spec fn img_view(&self) -> Option<Seq<char>> {
        opt_string_view(self.img)
    }

    /// A run that has not started.
    pub fn new(config: WorkerConfig) -> (w: Worker)
        ensures
            w.config_view() == config@,
            w.step_view() == Step::Start,
            w.img_view() is None,
    {
        Worker { config, step: Step::Start, img: None }
    }

    /// Where the run stands.
    pub fn current_step(&self) -> (s: Step)
        ensures
            s == self.step_view(),
    {
        self.step
    }

    fn launch_job(&self, job: Job) -> (plan: LaunchPlan)
        requires
            job != Job::RunEmu,
        ensures
            job_launch(self.config@, job) == Some(plan@),
    {
        let p = &self.config.paths;
        match job {
            Job::Clone => Git::clone(REPO_URL, Some(p.workload.as_str())),
            Job::MakeInit => Make::init(Some(p.xs_home.as_str())),
            Job::Pull => Git::pull(Some(p.xs_home.as_str())),
            Job::MakeEmu => Numactl::make_emu(
                Some(p.xs_home.as_str()),
                self.config.nemu_home.as_str(),
                self.config.am_home.as_str(),
                self.config.thread_num,
            ),
            Job::GitLog => Git::log(Some(p.git_log_file.as_str()), None, Some(p.xs_home.as_str())),
            Job::CopyVerilog => BusyBox::cp(
                p.verilog.as_str(),
                p.workload.as_str(),
                Some(p.workload.as_str()),
            ),
            _ => BusyBox::cp(p.emu_path.as_str(), p.workload.as_str(), Some(p.workload.as_str())),
        }
    }

    fn start(&mut self, job: Job) -> (action: Action)
        requires
            job != Job::RunEmu,
        ensures
            final(self).config == old(self).config,
            final(self).img == old(self).img,
            (final(self).step, action@) == start_job(old(self).config@, job),
    {
        let plan = self.launch_job(job);
        self.step = Step::Running(job);
        Action::Run(plan, job)
    }

    fn stop(&mut self, action: Action) -> (r: Action)
        ensures
            final(self).config == old(self).config,
            final(self).img == old(self).img,
            final(self).step == Step::Stopped,
            r == action,
    {
        self.step = Step::Stopped;
        action
    }

    fn failed_round(&mut self, failed: u32) -> (action: Action)
        ensures
            final(self).config == old(self).config,
            final(self).img == old(self).img,
            (final(self).step, action@) == after_failed_round(failed),
    {
        if failed >= 3 {
            self.step = Step::Stopped;
            return Action::Apply(handle(Err(NO_CPUS_CODE), true));
        }
        match cpu_wait_step(failed, false) {
            CpuWait::SleepThenRetry(secs) => {
                self.step = Step::WaitingCpus(failed + 1);
                Action::Sleep(secs)
            },
            CpuWait::SleepThenGiveUp(secs) => {
                self.step = Step::GivingUp;
                Action::Sleep(secs)
            },
            CpuWait::Proceed => {
                self.step = Step::Stopped;
                Action::Idle
            },
        }
    }

    /// Takes what came of the last action and says what to do next.
    pub fn step(&mut self, event: Event) -> (action: Action)
        ensures
            final(self).config_view() == old(self).config_view(),
            spec_transition(
                old(self).config_view(),
                old(self).step_view(),
                old(self).img_view(),
                event@,
                final(self).step_view(),
                final(self).img_view(),
                action@,
            ),
    {
        match self.step {
            Step::Start => match event {
                Event::Start => {
                    self.step = Step::CreatingWorkload;
                    Action::EnsureDir(self.config.paths.workload.clone())
                },
                _ => Action::Idle,
            },
            Step::CreatingWorkload => match event {
                Event::DirCreated(ok) => {
                    if !ok {
                        self.stop(Action::Stop(StopNote::WorkloadDirFailed))
                    } else if self.config.clone_repo {
                        self.start(Job::Clone)
                    } else {
                        self.start(Job::MakeInit)
                    }
                },
                _ => Action::Idle,
            },
            Step::Running(job) => match event {
                Event::Ran(outcome) => {
                    let h = handle(run_result(outcome), job == Job::RunEmu);
                    if h.next == Next::Continue {
                        self.step = Step::After(job);
                    } else {
                        self.step = Step::Stopped;
                    }
                    Action::Apply(h)
                },
                _ => Action::Idle,
            },
            Step::After(job) => match event {
                Event::Proceed => match job {
                    Job::Clone => self.start(Job::MakeInit),
                    Job::MakeInit => self.start(Job::Pull),
                    Job::Pull => {
                        self.step = Step::ReadingRam;
                        Action::ReadFile(self.config.paths.ram_header.clone())
                    },
                    Job::MakeEmu => {
                        self.step = Step::CreatingResDir;
                        Action::EnsureDir(self.config.paths.res_dir.clone())
                    },
                    Job::GitLog => self.start(Job::CopyVerilog),
                    Job::CopyVerilog => self.start(Job::CopyEmu),
                    Job::CopyEmu => {
                        self.step = Step::Listing;
                        Action::ListDir(self.config.img_list.clone())
                    },
                    Job::RunEmu => self.stop(Action::Stop(StopNote::Finished)),
                },
                _ => Action::Idle,
            },
            Step::ReadingRam => match event {
                Event::RamRead(Some(contents)) => {
                    self.step = Step::WritingRam;
                    Action::WriteFile(
                        self.config.paths.ram_header.clone(),
                        rewrite_ram_config(contents.as_str()),
                    )
                },
                Event::RamRead(None) => self.stop(Action::Stop(StopNote::ReadRamFailed)),
                _ => Action::Idle,
            },
            Step::WritingRam => match event {
                Event::RamWritten(WriteStatus::Written) => self.start(Job::MakeEmu),
                Event::RamWritten(WriteStatus::OpenFailed) => self.stop(
                    Action::Stop(StopNote::OpenRamFailed),
                ),
                Event::RamWritten(WriteStatus::WriteFailed) => self.stop(
                    Action::Stop(StopNote::WriteRamFailed),
                ),
                _ => Action::Idle,
            },
            Step::CreatingResDir => match event {
                Event::DirCreated(ok) => {
                    if ok {
                        self.start(Job::GitLog)
                    } else {
                        self.stop(Action::Stop(StopNote::ResDirFailed))
                    }
                },
                _ => Action::Idle,
            },
            Step::Listing => match event {
                Event::Listed(entries) => {
                    let tasks = tasks_list(&entries);
                    if tasks.len() == 0 {
                        self.stop(Action::Fail(Failure::NoTasks))
                    } else {
                        let picked = pick_task(&tasks);
                        self.img = Some(picked);
                        self.step = Step::ReadingCpus(0);
                        Action::ReadCpuLoad
                    }
                },
                _ => Action::Idle,
            },
            Step::ReadingCpus(failed) => match event {
                Event::CpuLoad(busy) => {
                    if self.config.thread_num == 0 {
                        self.stop(Action::Stop(StopNote::NoThreads))
                    } else {
                        match &self.img {
                            None => self.stop(Action::Fail(Failure::NoTasks)),
                            Some(img) => {
                                let p = &self.config.paths;
                                let r = Numactl::run_emu(
                                    Some(p.xs_home.as_str()),
                                    Some(p.stdout_file.as_str()),
                                    Some(p.stderr_file.as_str()),
                                    p.emu_path.as_str(),
                                    img.as_str(),
                                    self.config.nemu_home.as_str(),
                                    self.config.am_home.as_str(),
                                    self.config.thread_num,
                                    self.config.max_instr,
                                    &busy,
                                );
                                match r {
                                    RunEmu::Launch(plan) => {
                                        self.step = Step::Running(Job::RunEmu);
                                        Action::Run(plan, Job::RunEmu)
                                    },
                                    _ => self.failed_round(failed),
                                }
                            },
                        }
                    }
                },
                _ => Action::Idle,
            },
            Step::WaitingCpus(failed) => match event {
                Event::Slept => {
                    self.step = Step::ReadingCpus(failed);
                    Action::ReadCpuLoad
                },
                _ => Action::Idle,
            },
            Step::GivingUp => match event {
                Event::Slept => self.stop(Action::Apply(handle(Err(NO_CPUS_CODE), true))),
                _ => Action::Idle,
            },
            Step::Stopped => Action::Idle,
        }
    }
}

/// Whether the supervisor starts another run, with `active` runs going and
/// room for `workers_num`.
pub fn may_start_run(active: usize, workers_num: usize) -> (b: bool)
    ensures
        b == (active < workers_num),
{
    active < workers_num
}

} // verus!
