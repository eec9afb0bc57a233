//! The `make` command and the build targets the routine runs.

use vstd::prelude::*;
use crate::command::{
    format_command, launch, opt_to_string, strings_as_strs, strings_view, strs_to_strings, CommandView,
    launch_of, DefaultErr, LaunchPlan, Process, XSCommand,
};
use crate::config::opt_string_view;
use crate::config::opt_str_view;

verus! {

/// The `make` command.
pub struct Make {
    pub exe: Process,
    args: Vec<String>,
    work_dir: Option<String>,
}

impl XSCommand<DefaultErr> for Make {
    open spec fn name() -> Seq<char> {
        "make"@
    }

    closed spec fn command_view(&self) -> CommandView {
        CommandView {
            exe: self.exe@,
            args: strings_view(self.args@),
            work_dir: opt_string_view(self.work_dir),
        }
    }

    fn new(exe: &str) -> (cmd: Self) {
        let cmd = Make { exe: Process::new(exe), args: Vec::new(), work_dir: None };
        assert(strings_view(cmd.args@) =~= Seq::<Seq<char>>::empty());
        cmd
    }

    fn set_args(&mut self, args: Vec<&str>) -> (r: Result<(), DefaultErr>) {
        self.args = strs_to_strings(&args);
        Ok(())
    }

    fn get_args(&self) -> (args: Vec<&str>) {
        strings_as_strs(&self.args)
    }

    fn set_workdir(&mut self, work_dir: Option<&str>) -> (r: Result<(), DefaultErr>) {
        self.work_dir = opt_to_string(work_dir);
        Ok(())
    }

    fn excute(&mut self, stdout: Option<&str>, stderr: Option<&str>) -> (plan: LaunchPlan) {
        launch(&self.exe, &self.args, &self.work_dir, stdout, stderr)
    }

    fn to_string(&self) -> (s: String) {
        format_command("make", &self.args)
    }
}

impl Make {
    /// `make init`, run in `workload`.
    pub fn init(workload: Option<&str>) -> (plan: LaunchPlan)
        ensures
            plan@ == launch_of(
                "make"@,
                seq!["init"@],
                Seq::empty(),
                opt_str_view(workload),
                None,
                None,
            ),
    {
        let mut make = Make::new("make");
        let _ = make.set_args(vec!["init"]);
        let _ = make.set_workdir(workload);
        let plan = make.excute(None, None);
        assert(plan@.process.args =~= seq!["init"@]);
        plan
    }

    /// `make build/emu` with tracing, logging disabled, 8 simulation threads
    /// and 10 jobs, run in `workload`.
    pub fn emu(workload: Option<&str>) -> (plan: LaunchPlan)
        ensures
            plan@ == launch_of(
                "make"@,
                seq![
                    "build/emu"@,
                    "EMU_TRACE=1"@,
                    "SIM_ARGS=\"--disable-all\""@,
                    "EMU_THREADS=8"@,
                    "-j10"@,
                ],
                Seq::empty(),
                opt_str_view(workload),
                None,
                None,
            ),
    {
        let mut make = Make::new("make");
        let _ = make.set_args(
            vec!["build/emu", "EMU_TRACE=1", "SIM_ARGS=\"--disable-all\"", "EMU_THREADS=8", "-j10"],
        );
        let _ = make.set_workdir(workload);
        let plan = make.excute(None, None);
        assert(plan@.process.args =~= seq![
            "build/emu"@,
            "EMU_TRACE=1"@,
            "SIM_ARGS=\"--disable-all\""@,
            "EMU_THREADS=8"@,
            "-j10"@,
        ]);
        plan
    }
}

} // verus!
