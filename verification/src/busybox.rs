//! File operations (`cp`, `mv`) run as commands.

use vstd::prelude::*;
use crate::command::{
    format_command, launch, opt_to_string, strings_as_strs, strings_view, strs_to_strings, CommandView,
    launch_of, DefaultErr, LaunchPlan, Process, XSCommand,
};
use crate::config::opt_string_view;
use crate::config::opt_str_view;

verus! {

/// The `busybox` command.
pub struct BusyBox {
    pub exe: Process,
    args: Vec<String>,
    work_dir: Option<String>,
}

impl XSCommand<DefaultErr> for BusyBox {
    open spec fn name() -> Seq<char> {
        "busybox"@
    }

    closed spec fn command_view(&self) -> CommandView {
        CommandView {
            exe: self.exe@,
            args: strings_view(self.args@),
            work_dir: opt_string_view(self.work_dir),
        }
    }

    fn new(exe: &str) -> (cmd: Self) {
        let cmd = BusyBox { exe: Process::new(exe), args: Vec::new(), work_dir: None };
        assert(strings_view(cmd.args@) =~= Seq::<Seq<char>>::empty());
        cmd
    }

    fn set_args(&mut self, args: Vec<&str>) -> (r: Result<(), DefaultErr>) {
        self.args = strs_to_strings(&args);
        Ok(())
    }

    fn get_args(&self) -> (args: Vec<&str>) {
        strings_as_strs(&self.args)
    }

    fn set_workdir(&mut self, work_dir: Option<&str>) -> (r: Result<(), DefaultErr>) {
        self.work_dir = opt_to_string(work_dir);
        Ok(())
    }

    fn excute(&mut self, stdout: Option<&str>, stderr: Option<&str>) -> (plan: LaunchPlan) {
        launch(&self.exe, &self.args, &self.work_dir, stdout, stderr)
    }

    fn to_string(&self) -> (s: String) {
        format_command("busybox", &self.args)
    }
}

impl BusyBox {
    /// `cp <source> <destination>`, run in `workload`.
    pub fn cp(source: &str, destination: &str, workload: Option<&str>) -> (plan: LaunchPlan)
        ensures
            plan@ == launch_of(
                "cp"@,
                seq![source@, destination@],
                Seq::empty(),
                opt_str_view(workload),
                None,
                None,
            ),
    {
        let mut cp = BusyBox::new("cp");
        let _ = cp.set_args(vec![source, destination]);
        let _ = cp.set_workdir(workload);
        let plan = cp.excute(None, None);
        assert(plan@.process.args =~= seq![source@, destination@]);
        plan
    }

    /// `mv <source> <destination>`, run in `workload`.
    pub fn mv(source: &str, destination: &str, workload: Option<&str>) -> (plan: LaunchPlan)
        ensures
            plan@ == launch_of(
                "mv"@,
                seq![source@, destination@],
                Seq::empty(),
                opt_str_view(workload),
                None,
                None,
            ),
    {
        let mut mv = BusyBox::new("mv");
        let _ = mv.set_args(vec![source, destination]);
        let _ = mv.set_workdir(workload);
        let plan = mv.excute(None, None);
        assert(plan@.process.args =~= seq![source@, destination@]);
        plan
    }
}

} // verus!
