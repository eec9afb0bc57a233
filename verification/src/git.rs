//! The `git` command and the git operations the routine runs.

use vstd::prelude::*;
use crate::command::{
    format_command, launch, opt_to_string, strings_as_strs, strings_view, strs_to_strings, CommandView,
    launch_of, DefaultErr, LaunchPlan, Process, XSCommand,
};
use crate::config::opt_string_view;
use crate::config::opt_str_view;

verus! {

/// The `git` command.
pub struct Git {
    pub exe: Process,
    args: Vec<String>,
    work_dir: Option<String>,
}

impl XSCommand<DefaultErr> for Git {
    open spec fn name() -> Seq<char> {
        "git"@
    }

    closed spec fn command_view(&self) -> CommandView {
        CommandView {
            exe: self.exe@,
            args: strings_view(self.args@),
            work_dir: opt_string_view(self.work_dir),
        }
    }

    fn new(exe: &str) -> (cmd: Self) {
        let cmd = Git { exe: Process::new(exe), args: Vec::new(), work_dir: None };
        assert(strings_view(cmd.args@) =~= Seq::<Seq<char>>::empty());
        cmd
    }

    fn set_args(&mut self, args: Vec<&str>) -> (r: Result<(), DefaultErr>) {
        self.args = strs_to_strings(&args);
        Ok(())
    }

    fn get_args(&self) -> (args: Vec<&str>) {
        strings_as_strs(&self.args)
    }

    fn set_workdir(&mut self, work_dir: Option<&str>) -> (r: Result<(), DefaultErr>) {
        self.work_dir = opt_to_string(work_dir);
        Ok(())
    }

    fn excute(&mut self, stdout: Option<&str>, stderr: Option<&str>) -> (plan: LaunchPlan) {
        launch(&self.exe, &self.args, &self.work_dir, stdout, stderr)
    }

    fn to_string(&self) -> (s: String) {
        format_command("git", &self.args)
    }
}

impl Git {
    /// `git version`, in the inherited working directory.
    pub fn version() -> (plan: LaunchPlan)
        ensures
            plan@ == launch_of("git"@, seq!["version"@], Seq::empty(), None, None, None),
    {
        let mut git = Git::new("git");
        let _ = git.set_args(vec!["version"]);
        let plan = git.excute(None, None);
        assert(plan@.process.args =~= seq!["version"@]);
        plan
    }

    /// `git clone <url>`, run in `workload`.
    pub fn clone(url: &str, workload: Option<&str>) -> (plan: LaunchPlan)
        ensures
            plan@ == launch_of(
                "git"@,
                seq!["clone"@, url@],
                Seq::empty(),
                opt_str_view(workload),
                None,
                None,
            ),
    {
        let mut git = Git::new("git");
        let _ = git.set_args(vec!["clone", url]);
        let _ = git.set_workdir(workload);
        let plan = git.excute(None, None);
        assert(plan@.process.args =~= seq!["clone"@, url@]);
        plan
    }

    /// `git pull`, run in `workload`.
    pub fn pull(workload: Option<&str>) -> (plan: LaunchPlan)
        ensures
            plan@ == launch_of(
                "git"@,
                seq!["pull"@],
                Seq::empty(),
                opt_str_view(workload),
                None,
                None,
            ),
    {
        let mut git = Git::new("git");
        let _ = git.set_args(vec!["pull"]);
        let _ = git.set_workdir(workload);
        let plan = git.excute(None, None);
        assert(plan@.process.args =~= seq!["pull"@]);
        plan
    }

    /// `git log`, run in `workload`, with its output sent to `stdout` and
    /// `stderr`.
    pub fn log(stdout: Option<&str>, stderr: Option<&str>, workload: Option<&str>) -> (plan:
        LaunchPlan)
        ensures
            plan@ == launch_of(
                "git"@,
                seq!["log"@],
                Seq::empty(),
                opt_str_view(workload),
                opt_str_view(stdout),
                opt_str_view(stderr),
            ),
    {
        let mut git = Git::new("git");
        let _ = git.set_args(vec!["log"]);
        let _ = git.set_workdir(workload);
        let plan = git.excute(stdout, stderr);
        assert(plan@.process.args =~= seq!["log"@]);
        plan
    }
}

} // verus!
