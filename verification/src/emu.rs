//! The XiangShan simulator `emu` as a command.

use vstd::prelude::*;
use crate::command::{
    format_command, launch, opt_to_string, strings_as_strs, strings_view, strs_to_strings, CommandView,
    DefaultErr, LaunchPlan, Process, XSCommand,
};
use crate::config::opt_string_view;

verus! {

/// The `emu` command.
pub struct Emu {
    pub exe: Process,
    args: Vec<String>,
    work_dir: Option<String>,
}

impl XSCommand<DefaultErr> for Emu {
    open spec fn name() -> Seq<char> {
        "emu"@
    }

    closed spec fn command_view(&self) -> CommandView {
        CommandView {
            exe: self.exe@,
            args: strings_view(self.args@),
            work_dir: opt_string_view(self.work_dir),
        }
    }

    fn new(exe: &str) -> (cmd: Self) {
        let cmd = Emu { exe: Process::new(exe), args: Vec::new(), work_dir: None };
        assert(strings_view(cmd.args@) =~= Seq::<Seq<char>>::empty());
        cmd
    }

    fn set_args(&mut self, args: Vec<&str>) -> (r: Result<(), DefaultErr>) {
        self.args = strs_to_strings(&args);
        Ok(())
    }

    fn get_args(&self) -> (args: Vec<&str>) {
        strings_as_strs(&self.args)
    }

    fn set_workdir(&mut self, work_dir: Option<&str>) -> (r: Result<(), DefaultErr>) {
        self.work_dir = opt_to_string(work_dir);
        Ok(())
    }

    fn excute(&mut self, stdout: Option<&str>, stderr: Option<&str>) -> (plan: LaunchPlan) {
        launch(&self.exe, &self.args, &self.work_dir, stdout, stderr)
    }

    fn to_string(&self) -> (s: String) {
        format_command("emu", &self.args)
    }
}

} // verus!
