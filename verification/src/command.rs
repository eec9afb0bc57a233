//! The command abstraction shared by `git`, `make`, `numactl` and the other
//! tools the routine drives: what a command holds, how it is printed, what
//! is launched when it runs, and how the way a run ended becomes an exit code
//! or an error code.

use vstd::prelude::*;
use crate::config::opt_str_view;
use crate::config::opt_string_view;

verus! {

/// The views of a sequence of owned strings.
pub open spec fn strings_view(v: Seq<String>) -> Seq<Seq<char>> {
    v.map_values(|s: String| s@)
}

/// The views of a sequence of borrowed strings.
pub open spec fn strs_view(v: Seq<&str>) -> Seq<Seq<char>> {
    v.map_values(|s: &str| s@)
}

/// The views of a sequence of environment assignments.
pub open spec fn envs_view(v: Seq<(String, String)>) -> Seq<(Seq<char>, Seq<char>)> {
    v.map_values(|p: (String, String)| (p.0@, p.1@))
}

/// A process to start: program, arguments, environment assignments added to
/// the inherited environment, and working directory (the inherited one
/// where absent). It records what a process builder is told, in order.
pub struct Process {
    pub program: String,
    pub args: Vec<String>,
    pub envs: Vec<(String, String)>,
    pub current_dir: Option<String>,
}

pub struct ProcessView {
    pub program: Seq<char>,
    pub args: Seq<Seq<char>>,
    pub envs: Seq<(Seq<char>, Seq<char>)>,
    pub current_dir: Option<Seq<char>>,
}

impl View for Process {
    type V = ProcessView;

    open spec fn view(&self) -> ProcessView {
        ProcessView {
            program: self.program@,
            args: strings_view(self.args@),
            envs: envs_view(self.envs@),
            current_dir: opt_string_view(self.current_dir),
        }
    }
}

fn copy_strings(v: &Vec<String>) -> (r: Vec<String>)
    ensures
        strings_view(r@) == strings_view(v@),
{
    let mut r: Vec<String> = Vec::new();
    for i in 0..v.len()
        invariant
            r.len() == i,
            forall|j: int| 0 <= j < i ==> #[trigger] r@[j]@ == v@[j]@,
    {
        r.push(v[i].clone());
    }
    assert(strings_view(r@) =~= strings_view(v@));
    r
}

fn copy_opt_string(o: &Option<String>) -> (r: Option<String>)
    ensures
        opt_string_view(r) == opt_string_view(*o),
{
    match o {
        Some(s) => Some(s.clone()),
        None => None,
    }
}

impl Process {
    /// A process that runs `program` with no arguments.
    pub fn new(program: &str) -> (p: Process)
        ensures
            p@ == (ProcessView {
                program: program@,
                args: Seq::empty(),
                envs: Seq::empty(),
                current_dir: None,
            }),
    {
        let p = Process {
            program: program.to_owned(),
            args: Vec::new(),
            envs: Vec::new(),
            current_dir: None,
        };
        assert(p@.args =~= Seq::<Seq<char>>::empty());
        assert(p@.envs =~= Seq::<(Seq<char>, Seq<char>)>::empty());
        p
    }

    /// Adds one argument after those already given.
    pub fn arg(&mut self, arg: &str)
        ensures
            final(self)@ == (ProcessView { args: old(self)@.args.push(arg@), ..old(self)@ }),
    {
        self.args.push(arg.to_owned());
        assert(strings_view(self.args@) =~= strings_view(old(self).args@).push(arg@));
    }

    /// Adds one environment assignment after those already given.
    pub fn env(&mut self, key: &str, val: &str)
        ensures
            final(self)@ == (ProcessView { envs: old(self)@.envs.push((key@, val@)), ..old(self)@ }),
    {
        self.envs.push((key.to_owned(), val.to_owned()));
        assert(envs_view(self.envs@) =~= envs_view(old(self).envs@).push((key@, val@)));
    }

    /// Sets the working directory.
    pub fn current_dir(&mut self, dir: &str)
        ensures
            final(self)@ == (ProcessView { current_dir: Some(dir@), ..old(self)@ }),
    {
        self.current_dir = Some(dir.to_owned());
    }

    /// A process with the same program, arguments, environment and
    /// working directory.
    pub fn duplicate(&self) -> (p: Process)
        ensures
            p@ == self@,
    {
        let mut envs: Vec<(String, String)> = Vec::new();
        for i in 0..self.envs.len()
            invariant
                envs.len() == i,
                forall|j: int|
                    0 <= j < i ==> (#[trigger] envs@[j]).0@ == self.envs@[j].0@ && envs@[j].1@
                        == self.envs@[j].1@,
        {
            let k = self.envs[i].0.clone();
            let v = self.envs[i].1.clone();
            envs.push((k, v));
        }
        assert(envs_view(envs@) =~= envs_view(self.envs@));
        Process {
            program: self.program.clone(),
            args: copy_strings(&self.args),
            envs,
            current_dir: copy_opt_string(&self.current_dir),
        }
    }
}

/// What one run of a command starts: the process, and the files that take
/// its standard output and standard error (inherited where absent).
pub struct LaunchPlan {
    pub process: Process,
    pub stdout: Option<String>,
    pub stderr: Option<String>,
}

pub struct LaunchPlanView {
    pub process: ProcessView,
    pub stdout: Option<Seq<char>>,
    pub stderr: Option<Seq<char>>,
}

impl View for LaunchPlan {
    type V = LaunchPlanView;

    open spec fn view(&self) -> LaunchPlanView {
        LaunchPlanView {
            process: self.process@,
            stdout: opt_string_view(self.stdout),
            stderr: opt_string_view(self.stderr),
        }
    }
}

/// The launch of `program` with `args`, `envs` and working directory
/// `work_dir`, sending output to `stdout` and `stderr`.
pub open spec fn launch_of(
    program: Seq<char>,
    args: Seq<Seq<char>>,
    envs: Seq<(Seq<char>, Seq<char>)>,
    work_dir: Option<Seq<char>>,
    stdout: Option<Seq<char>>,
    stderr: Option<Seq<char>>,
) -> LaunchPlanView {
    LaunchPlanView {
        process: ProcessView { program, args, envs, current_dir: work_dir },
        stdout,
        stderr,
    }
}

/// The state of a command: the process it drives, the arguments it was
/// given and the working directory it was given.
pub struct CommandView {
    pub exe: ProcessView,
    pub args: Seq<Seq<char>>,
    pub work_dir: Option<Seq<char>>,
}

impl CommandView {
    /// A command on `program` that was given nothing yet.
    pub open spec fn fresh(program: Seq<char>) -> CommandView {
        CommandView {
            exe: ProcessView {
                program,
                args: Seq::empty(),
                envs: Seq::empty(),
                current_dir: None,
            },
            args: Seq::empty(),
            work_dir: None,
        }
    }

    /// The process a run starts: the command's process with the command's
    /// arguments after those it already has, and the command's working
    /// directory in place of its own where one was given.
    pub open spec fn launched(self) -> ProcessView {
        ProcessView {
            args: self.exe.args + self.args,
            current_dir: match self.work_dir {
                Some(d) => Some(d),
                None => self.exe.current_dir,
            },
            ..self.exe
        }
    }
}

/// The printed form of a command: its name, then each argument after one
/// space.
pub open spec fn command_line(name: Seq<char>, args: Seq<Seq<char>>) -> Seq<char>
    decreases args.len(),
{
    if args.len() == 0 {
        name
    } else {
        command_line(name, args.drop_last()) + seq![' '] + args.last()
    }
}

/// An error of a command, with the code the routine acts on.
pub trait XSCommandErr {
    /// A description of the error.
    fn as_str(&self) -> &str;

    /// The code of the error.
    fn err_code(&self) -> i32;
}

/// A command of XiangShan development, such as `git`, `make` or the
/// simulator `emu`.
pub trait XSCommand<T: XSCommandErr>: Sized {
    /// The name the command is printed under.
    spec fn name() -> Seq<char>;

    /// What the command holds.
    spec fn command_view(&self) -> CommandView;

    /// A command that runs the program `exe`.
    fn new(exe: &str) -> (cmd: Self)
        ensures
            cmd.command_view() == CommandView::fresh(exe@),
    ;

    /// Replaces the arguments.
    fn set_args(&mut self, args: Vec<&str>) -> (r: Result<(), T>)
        ensures
            r is Ok,
            final(self).command_view() == (CommandView {
                args: strs_view(args@),
                ..old(self).command_view()
            }),
    ;

    /// The arguments.
    fn get_args(&self) -> (args: Vec<&str>)
        ensures
            strs_view(args@) == self.command_view().args,
    ;

    /// Replaces the working directory; `None` runs in the inherited one.
    fn set_workdir(&mut self, work_dir: Option<&str>) -> (r: Result<(), T>)
        ensures
            r is Ok,
            final(self).command_view() == (CommandView {
                work_dir: opt_str_view(work_dir),
                ..old(self).command_view()
            }),
    ;

    /// Says what one run of the command starts: its process with the
    /// command's arguments and working directory, and standard output and
    /// standard error sent to the given files. The command is left as it
    /// is, so each run gets exactly the command's arguments.
    fn excute(&mut self, stdout: Option<&str>, stderr: Option<&str>) -> (plan: LaunchPlan)
        ensures
            final(self).command_view() == old(self).command_view(),
            plan@ == (LaunchPlanView {
                process: old(self).command_view().launched(),
                stdout: opt_str_view(stdout),
                stderr: opt_str_view(stderr),
            }),
    ;

    /// The command as printed: its name, then its arguments.
    fn to_string(&self) -> (s: String)
        ensures
            s@ == command_line(Self::name(), self.command_view().args),
    ;
}

pub fn strs_to_strings(args: &Vec<&str>) -> (r: Vec<String>)
    ensures
        strings_view(r@) == strs_view(args@),
{
    let mut r: Vec<String> = Vec::new();
    for i in 0..args.len()
        invariant
            r.len() == i,
            forall|j: int| 0 <= j < i ==> #[trigger] r@[j]@ == args@[j]@,
    {
        r.push(args[i].to_owned());
    }
    assert(strings_view(r@) =~= strs_view(args@));
    r
}

pub fn strings_as_strs(v: &Vec<String>) -> (r: Vec<&str>)
    ensures
        strs_view(r@) == strings_view(v@),
{
    let mut r: Vec<&str> = Vec::new();
    for i in 0..v.len()
        invariant
            r.len() == i,
            forall|j: int| 0 <= j < i ==> #[trigger] r@[j]@ == v@[j]@,
    {
        r.push(v[i].as_str());
    }
    assert(strs_view(r@) =~= strings_view(v@));
    r
}

pub fn opt_to_string(o: Option<&str>) -> (r: Option<String>)
    ensures
        opt_string_view(r) == opt_str_view(o),
{
    match o {
        Some(s) => Some(s.to_owned()),
        None => None,
    }
}

/// Describes one run of a command whose process is `exe`: the process as
/// it stands, with the command's `args` after its own arguments and the
/// command's `work_dir` in place of its own where one is given. `exe` itself
/// is left as it is, so every run gets exactly these arguments.
pub fn launch(
    exe: &Process,
    args: &Vec<String>,
    work_dir: &Option<String>,
    stdout: Option<&str>,
    stderr: Option<&str>,
) -> (plan: LaunchPlan)
    ensures
        plan@ == (LaunchPlanView {
            process: (CommandView {
                exe: exe@,
                args: strings_view(args@),
                work_dir: opt_string_view(*work_dir),
            }).launched(),
            stdout: opt_str_view(stdout),
            stderr: opt_str_view(stderr),
        }),
{
    let mut process = exe.duplicate();
    let ghost start = exe@;
    for i in 0..args.len()
        invariant
            process@ == (ProcessView {
                args: start.args + strings_view(args@).take(i as int),
                ..start
            }),
    {
        process.arg(args[i].as_str());
        assert(strings_view(args@).take(i + 1) =~= strings_view(args@).take(i as int).push(
            args@[i as int]@,
        ));
        assert(start.args + strings_view(args@).take(i + 1) =~= (start.args + strings_view(
            args@,
        ).take(i as int)).push(args@[i as int]@));
    }
    assert(strings_view(args@).take(args.len() as int) =~= strings_view(args@));
    if let Some(dir) = work_dir {
        process.current_dir(dir.as_str());
    }
    LaunchPlan { process, stdout: opt_to_string(stdout), stderr: opt_to_string(stderr) }
}

/// Prints `name` followed by each argument after one space.
pub fn format_command(name: &str, args: &Vec<String>) -> (s: String)
    ensures
        s@ == command_line(name@, strings_view(args@)),
{
    let mut s = name.to_owned();
    for i in 0..args.len()
        invariant
            s@ == command_line(name@, strings_view(args@).take(i as int)),
    {
        s.append(" ");
        s.append(args[i].as_str());
        proof {
            let taken = strings_view(args@).take(i + 1);
            assert(taken.drop_last() =~= strings_view(args@).take(i as int));
            reveal_strlit(" ");
            assert(s@ =~= command_line(name@, taken));
        }
    }
    assert(strings_view(args@).take(args.len() as int) =~= strings_view(args@));
    s
}

/// The default error of a command.
#[derive(Debug, PartialEq, Eq, Structural, Clone, Copy)]
pub enum DefaultErr {
    SetArgsErr,
    SetWorkDirErr,
    ExcuteErr(i32),
}

/// Code of a command that ran but whose arguments could not be set (an
/// error the routine does not allow).
pub const SET_ARGS_CODE: i32 = -1;
/// Code of a command whose working directory could not be set.
pub const SET_WORKDIR_CODE: i32 = 1;
/// Code of a run whose standard-output file could not be created.
pub const STDOUT_FILE_CODE: i32 = 2;
/// Code of a run whose standard-error file could not be created.
pub const STDERR_FILE_CODE: i32 = 3;
/// Code of a run that ended without an exit code (killed by a signal).
pub const NO_EXIT_CODE: i32 = 4;
/// Code of a run that could not be started or waited for.
pub const EXECUTE_FAILED_CODE: i32 = 5;

/// The code of each error.
pub open spec fn spec_err_code(e: DefaultErr) -> i32 {
    match e {
        DefaultErr::SetArgsErr => SET_ARGS_CODE,
        DefaultErr::SetWorkDirErr => SET_WORKDIR_CODE,
        DefaultErr::ExcuteErr(code) => code,
    }
}

impl XSCommandErr for DefaultErr {
    fn as_str(&self) -> (s: &str)
        ensures
            s@ == match *self {
                DefaultErr::SetArgsErr => "Default Set Args Error"@,
                DefaultErr::SetWorkDirErr => "Default Set workload Error"@,
                DefaultErr::ExcuteErr(_) => "Default Excute Err"@,
            },
    {
        match self {
            DefaultErr::SetArgsErr => "Default Set Args Error",
            DefaultErr::SetWorkDirErr => "Default Set workload Error",
            DefaultErr::ExcuteErr(_) => "Default Excute Err",
        }
    }

    fn err_code(&self) -> (code: i32)
        ensures
            code == spec_err_code(*self),
    {
        match self {
            DefaultErr::SetArgsErr => SET_ARGS_CODE,
            DefaultErr::SetWorkDirErr => SET_WORKDIR_CODE,
            DefaultErr::ExcuteErr(code) => *code,
        }
    }
}

/// How one run of a launch plan ended.
#[derive(Debug, PartialEq, Eq, Structural, Clone, Copy)]
pub enum RunOutcome {
    /// The standard-output file could not be created; nothing was started.
    StdoutFileFailed,
    /// The standard-error file could not be created; nothing was started.
    StderrFileFailed,
    /// The process ran and exited with this code.
    Exited(i32),
    /// The process ran and ended without an exit code.
    NoExitCode,
    /// The process could not be started or waited for.
    ExecuteFailed,
}

/// The result of a run: its exit code, or the error it ended in.
pub open spec fn spec_excute_result(o: RunOutcome) -> Result<i32, DefaultErr> {
    match o {
        RunOutcome::StdoutFileFailed => Err(DefaultErr::ExcuteErr(STDOUT_FILE_CODE)),
        RunOutcome::StderrFileFailed => Err(DefaultErr::ExcuteErr(STDERR_FILE_CODE)),
        RunOutcome::Exited(code) => Ok(code),
        RunOutcome::NoExitCode => Err(DefaultErr::ExcuteErr(NO_EXIT_CODE)),
        RunOutcome::ExecuteFailed => Err(DefaultErr::ExcuteErr(EXECUTE_FAILED_CODE)),
    }
}

/// The result of a run as the command's `excute` reports it.
pub fn excute_result(o: RunOutcome) -> (r: Result<i32, DefaultErr>)
    ensures
        r == spec_excute_result(o),
{
    match o {
        RunOutcome::StdoutFileFailed => Err(DefaultErr::ExcuteErr(STDOUT_FILE_CODE)),
        RunOutcome::StderrFileFailed => Err(DefaultErr::ExcuteErr(STDERR_FILE_CODE)),
        RunOutcome::Exited(code) => Ok(code),
        RunOutcome::NoExitCode => Err(DefaultErr::ExcuteErr(NO_EXIT_CODE)),
        RunOutcome::ExecuteFailed => Err(DefaultErr::ExcuteErr(EXECUTE_FAILED_CODE)),
    }
}

/// The result of a run with its error replaced by the error's code.
pub open spec fn spec_run_result(o: RunOutcome) -> Result<i32, i32> {
    match spec_excute_result(o) {
        Ok(code) => Ok(code),
        Err(e) => Err(spec_err_code(e)),
    }
}

/// What the helpers such as `Git::clone` return for a run: the exit code,
/// or the code of the error.
pub fn run_result(o: RunOutcome) -> (r: Result<i32, i32>)
    ensures
        r == spec_run_result(o),
{
    match excute_result(o) {
        Ok(exit_code) => Ok(exit_code),
        Err(err) => Err(err.err_code()),
    }
}

} // verus!
