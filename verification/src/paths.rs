//! The paths of a run: its work directory and the files in and under it.

use vstd::prelude::*;
use crate::config::Settings;
use crate::workload::{spec_url2path, url2path};
use crate::ram::chars_of;
use crate::text::push_char;

verus! {

/// The path `rel` adjoined to `base` as `std::path::Path::join` documents
/// it on Unix: an absolute `rel` replaces `base`; otherwise `rel` follows
/// `base`, after a `/` unless `base` is empty or already ends in one.
pub open spec fn path_join(base: Seq<char>, rel: Seq<char>) -> Seq<char> {
    if rel.len() > 0 && rel[0] == '/' {
        rel
    } else if base.len() == 0 || base.last() == '/' {
        base + rel
    } else {
        base + seq!['/'] + rel
    }
}

/// Adjoins `rel` to `base`.
pub fn join(base: &str, rel: &str) -> (p: String)
    ensures
        p@ == path_join(base@, rel@),
{
    let rel_chars = chars_of(rel);
    if rel_chars.len() > 0 && rel_chars[0] == '/' {
        return rel.to_owned();
    }
    let base_chars = chars_of(base);
    let mut p = base.to_owned();
    if base_chars.len() > 0 && base_chars[base_chars.len() - 1] != '/' {
        push_char(&mut p, '/');
    }
    p.append(rel);
    p
}

/// The repository cloned where no XiangShan directory is configured.
pub const REPO_URL: &'static str = "https://github.com/RISCVERS/XiangShan.git";

/// The paths a run uses, all derived from the work root, the name of the
/// work directory and the configured XiangShan directory.
pub struct WorkPaths {
    pub workload: String,
    pub xs_home: String,
    pub ram_header: String,
    pub res_dir: String,
    pub stdout_file: String,
    pub stderr_file: String,
    pub emu_path: String,
    pub git_log_file: String,
    pub verilog: String,
}

/// The view of `WorkPaths`.
pub struct WorkPathsView {
    pub workload: Seq<char>,
    pub xs_home: Seq<char>,
    pub ram_header: Seq<char>,
    pub res_dir: Seq<char>,
    pub stdout_file: Seq<char>,
    pub stderr_file: Seq<char>,
    pub emu_path: Seq<char>,
    pub git_log_file: Seq<char>,
    pub verilog: Seq<char>,
}

impl View for WorkPaths {
    type V = WorkPathsView;

    open spec fn view(&self) -> WorkPathsView {
        WorkPathsView {
            workload: self.workload@,
            xs_home: self.xs_home@,
            ram_header: self.ram_header@,
            res_dir: self.res_dir@,
            stdout_file: self.stdout_file@,
            stderr_file: self.stderr_file@,
            emu_path: self.emu_path@,
            git_log_file: self.git_log_file@,
            verilog: self.verilog@,
        }
    }
}

/// The paths of the run whose work directory is `name` under `work_root`:
/// XiangShan lives at `noop_home` taken relative to the work directory, or,
/// where none is configured, in the directory the clone of the repository
/// creates there.
pub open spec fn spec_work_paths(
    work_root: Seq<char>,
    name: Seq<char>,
    noop_home: Option<Seq<char>>,
) -> WorkPathsView {
    let workload = path_join(work_root, name);
    let xs_home = match noop_home {
        Some(home) => path_join(workload, home),
        None => path_join(workload, spec_url2path(REPO_URL@)->0),
    };
    let res_dir = path_join(workload, "./emu_res"@);
    WorkPathsView {
        workload,
        xs_home,
        ram_header: path_join(xs_home, "src/test/csrc/ram.h"@),
        res_dir,
        stdout_file: path_join(res_dir, "stdout.txt"@),
        stderr_file: path_join(res_dir, "stderr.txt"@),
        emu_path: path_join(xs_home, "./build/emu"@),
        git_log_file: path_join(workload, "git_log.txt"@),
        verilog: path_join(xs_home, "build/XSSimTop.v"@),
    }
}

proof fn lemma_repo_url_has_name()
    ensures
        spec_url2path(REPO_URL@) == Some("XiangShan"@),
{
    reveal_strlit("XiangShan");
    reveal_strlit("https://github.com/RISCVERS/XiangShan.git");
    let url = REPO_URL@;
    let prefix = url.take(27);
    let name = url.subrange(28, 37);
    assert(url =~= prefix + seq!['/'] + name + seq!['.', 'g', 'i', 't']);
    crate::workload::lemma_url2path_repo_name(prefix, name);
    assert(name =~= "XiangShan"@);
}

/// Standard output and standard error of the simulation go to two
/// different files of the result directory, whatever that directory is.
pub proof fn lemma_output_files_differ(res_dir: Seq<char>)
    ensures
        path_join(res_dir, "stdout.txt"@) != path_join(res_dir, "stderr.txt"@),
{
    reveal_strlit("stdout.txt");
    reveal_strlit("stderr.txt");
    let o = path_join(res_dir, "stdout.txt"@);
    let e = path_join(res_dir, "stderr.txt"@);
    let k = o.len() - 7;
    assert(o.len() == e.len());
    if res_dir.len() == 0 || res_dir.last() == '/' {
        assert(o[k] == "stdout.txt"@[3]);
        assert(e[k] == "stderr.txt"@[3]);
    } else {
        assert(o[k] == "stdout.txt"@[3]);
        assert(e[k] == "stderr.txt"@[3]);
    }
}

impl WorkPaths {
    pub fn new(settings: &Settings, name: &str) -> (p: WorkPaths)
        ensures
            p@ == spec_work_paths(
                settings.work_root@,
                name@,
                crate::config::opt_string_view(settings.noop_home),
            ),
            p.workload@ == path_join(settings.work_root@, name@),
            settings.noop_home matches Some(home) ==> p.xs_home@ == path_join(p.workload@, home@),
            settings.noop_home is None ==> p.xs_home@ == path_join(p.workload@, "XiangShan"@),
            p.ram_header@ == path_join(p.xs_home@, "src/test/csrc/ram.h"@),
            p.res_dir@ == path_join(p.workload@, "./emu_res"@),
            p.stdout_file@ == path_join(p.res_dir@, "stdout.txt"@),
            p.stderr_file@ == path_join(p.res_dir@, "stderr.txt"@),
            p.stdout_file@ != p.stderr_file@,
            p.emu_path@ == path_join(p.xs_home@, "./build/emu"@),
            p.git_log_file@ == path_join(p.workload@, "git_log.txt"@),
            p.verilog@ == path_join(p.xs_home@, "build/XSSimTop.v"@),
    {
        let workload = join(settings.work_root.as_str(), name);
        let xs_home = match &settings.noop_home {
            Some(home) => join(workload.as_str(), home.as_str()),
            None => {
                proof {
                    lemma_repo_url_has_name();
                }
                let repo = url2path(REPO_URL);
                join(workload.as_str(), repo.as_str())
            },
        };
        let res_dir = join(workload.as_str(), "./emu_res");
        proof {
            lemma_output_files_differ(res_dir@);
            lemma_repo_url_has_name();
        }
        WorkPaths {
            ram_header: join(xs_home.as_str(), "src/test/csrc/ram.h"),
            stdout_file: join(res_dir.as_str(), "stdout.txt"),
            stderr_file: join(res_dir.as_str(), "stderr.txt"),
            emu_path: join(xs_home.as_str(), "./build/emu"),
            git_log_file: join(workload.as_str(), "git_log.txt"),
            verilog: join(xs_home.as_str(), "build/XSSimTop.v"),
            workload,
            xs_home,
            res_dir,
        }
    }
}

} // verus!
