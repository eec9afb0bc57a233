//! The routine's configuration (the `[hook]` and `[emu]` tables of its TOML
//! file) and the settings it falls back to where a key is absent.

use vstd::prelude::*;

verus! {

/// Number of worker threads when `[hook] workers_num` is absent.
pub const WORKERS_NUM: usize = 3;
/// Root of the work directories when `[hook] work_root` is absent.
pub const WORK_ROOT: &'static str = "/home/ccc/rust_xs_test_workload";
/// Seconds slept per supervisor round when `[hook] sleep_time` is absent.
pub const SLEEP_TIME: u64 = 120;
/// Directory of simulation images when `[emu] img_list` is absent.
pub const IMG_LIST: &'static str = "/bigdata/zyy/checkpoints_profiles/betapoint_profile_06/";
/// Simulator build threads when `[emu] thread_num` is absent.
pub const THREAD_NUM: usize = 8;
/// NEMU directory when `[emu] nemu_home` is absent.
pub const NEMU_HOME: &'static str = "/home/ccc/NEMU";
/// AM directory when `[emu] am_home` is absent.
pub const AM_HOME: &'static str = "/home/ccc/nexus-am";
/// Instruction limit of a simulation when `[emu] max_instr` is absent.
pub const MAX_INSTR: usize = 1000000;

/// The whole configuration file.
pub struct Config {
    pub hook: Option<HookConfig>,
    pub emu: Option<EmuConfig>,
}

/// The `[hook]` table: how the background routine runs.
pub struct HookConfig {
    pub workers_num: Option<usize>,
    pub work_root: Option<String>,
    pub sleep_time: Option<u64>,
}

/// The `[emu]` table: how the simulator is built and run.
pub struct EmuConfig {
    pub img: Option<String>,
    pub img_list: Option<String>,
    pub thread_num: Option<usize>,
    pub max_instr: Option<usize>,
    pub noop_home: Option<String>,
    pub nemu_home: Option<String>,
    pub am_home: Option<String>,
}

/// The view of an optional borrowed string.
pub open spec fn opt_str_view(o: Option<&str>) -> Option<Seq<char>> {
    match o {
        Some(s) => Some(s@),
        None => None,
    }
}

/// The view of an optional owned string.
pub open spec fn opt_string_view(o: Option<String>) -> Option<Seq<char>> {
    match o {
        Some(s) => Some(s@),
        None => None,
    }
}

fn opt_as_str(o: &Option<String>) -> (r: Option<&str>)
    ensures
        opt_str_view(r) == opt_string_view(*o),
{
    match o {
        Some(s) => Some(s.as_str()),
        None => None,
    }
}

impl Config {
    /// `[hook] workers_num`, where both the table and the key are present.
    pub open spec fn spec_workers_num(&self) -> Option<usize> {
        match self.hook {
            Some(h) => h.workers_num,
            None => None,
        }
    }

    pub open spec fn spec_work_root(&self) -> Option<Seq<char>> {
        match self.hook {
            Some(h) => opt_string_view(h.work_root),
            None => None,
        }
    }

    pub open spec fn spec_sleep_time(&self) -> Option<u64> {
        match self.hook {
            Some(h) => h.sleep_time,
            None => None,
        }
    }

    pub open spec fn spec_img(&self) -> Option<Seq<char>> {
        match self.emu {
            Some(e) => opt_string_view(e.img),
            None => None,
        }
    }

    pub open spec fn spec_img_list(&self) -> Option<Seq<char>> {
        match self.emu {
            Some(e) => opt_string_view(e.img_list),
            None => None,
        }
    }

    pub open spec fn spec_thread_num(&self) -> Option<usize> {
        match self.emu {
            Some(e) => e.thread_num,
            None => None,
        }
    }

    pub open spec fn spec_max_instr(&self) -> Option<usize> {
        match self.emu {
            Some(e) => e.max_instr,
            None => None,
        }
    }

    pub open spec fn spec_noop_home(&self) -> Option<Seq<char>> {
        match self.emu {
            Some(e) => opt_string_view(e.noop_home),
            None => None,
        }
    }

    pub open spec fn spec_nemu_home(&self) -> Option<Seq<char>> {
        match self.emu {
            Some(e) => opt_string_view(e.nemu_home),
            None => None,
        }
    }

    pub open spec fn spec_am_home(&self) -> Option<Seq<char>> {
        match self.emu {
            Some(e) => opt_string_view(e.am_home),
            None => None,
        }
    }

    pub fn workers_num(&self) -> (r: Option<usize>)
        ensures
            r == self.spec_workers_num(),
    {
        if let Some(config) = &self.hook {
            config.workers_num
        } else {
            None
        }
    }

    pub fn work_root(&self) -> (r: Option<&str>)
        ensures
            opt_str_view(r) == self.spec_work_root(),
    {
        if let Some(config) = &self.hook {
            opt_as_str(&config.work_root)
        } else {
            None
        }
    }

    pub fn sleep_time(&self) -> (r: Option<u64>)
        ensures
            r == self.spec_sleep_time(),
    {
        if let Some(config) = &self.hook {
            config.sleep_time
        } else {
            None
        }
    }

    pub fn img(&self) -> (r: Option<&str>)
        ensures
            opt_str_view(r) == self.spec_img(),
    {
        if let Some(config) = &self.emu {
            opt_as_str(&config.img)
        } else {
            None
        }
    }

    pub fn img_list(&self) -> (r: Option<&str>)
        ensures
            opt_str_view(r) == self.spec_img_list(),
    {
        if let Some(config) = &self.emu {
            opt_as_str(&config.img_list)
        } else {
            None
        }
    }

    pub fn thread_num(&self) -> (r: Option<usize>)
        ensures
            r == self.spec_thread_num(),
    {
        if let Some(config) = &self.emu {
            config.thread_num
        } else {
            None
        }
    }

    pub fn max_instr(&self) -> (r: Option<usize>)
        ensures
            r == self.spec_max_instr(),
    {
        if let Some(config) = &self.emu {
            config.max_instr
        } else {
            None
        }
    }

    pub fn noop_home(&self) -> (r: Option<&str>)
        ensures
            opt_str_view(r) == self.spec_noop_home(),
    {
        if let Some(config) = &self.emu {
            opt_as_str(&config.noop_home)
        } else {
            None
        }
    }

    pub fn nemu_home(&self) -> (r: Option<&str>)
        ensures
            opt_str_view(r) == self.spec_nemu_home(),
    {
        if let Some(config) = &self.emu {
            opt_as_str(&config.nemu_home)
        } else {
            None
        }
    }

    pub fn am_home(&self) -> (r: Option<&str>)
        ensures
            opt_str_view(r) == self.spec_am_home(),
    {
        if let Some(config) = &self.emu {
            opt_as_str(&config.am_home)
        } else {
            None
        }
    }
}

/// The value of an optional setting, or its fallback.
pub open spec fn or_default<T>(o: Option<T>, default: T) -> T {
    match o {
        Some(v) => v,
        None => default,
    }
}

/// Every setting the routine uses, each taken from the configuration where
/// present and from its fallback constant otherwise. `noop_home` has no
/// fallback: without it the XiangShan sources are cloned afresh.
pub struct Settings {
    pub workers_num: usize,
    pub work_root: String,
    pub sleep_time: u64,
    pub img_list: String,
    pub thread_num: usize,
    pub max_instr: usize,
    pub noop_home: Option<String>,
    pub nemu_home: String,
    pub am_home: String,
}

fn str_or(o: Option<&str>, default: &str) -> (r: String)
    ensures
        r@ == or_default(opt_str_view(o), default@),
{
    match o {
        Some(s) => s.to_owned(),
        None => default.to_owned(),
    }
}

fn opt_to_owned(o: Option<&str>) -> (r: Option<String>)
    ensures
        opt_string_view(r) == opt_str_view(o),
{
    match o {
        Some(s) => Some(s.to_owned()),
        None => None,
    }
}

impl Settings {
    /// Resolves every setting of `config` against its fallback.
    pub fn resolve(config: &Config) -> (s: Settings)
        ensures
            s.workers_num == or_default(config.spec_workers_num(), WORKERS_NUM),
            s.work_root@ == or_default(config.spec_work_root(), WORK_ROOT@),
            s.sleep_time == or_default(config.spec_sleep_time(), SLEEP_TIME),
            s.img_list@ == or_default(config.spec_img_list(), IMG_LIST@),
            s.thread_num == or_default(config.spec_thread_num(), THREAD_NUM),
            s.max_instr == or_default(config.spec_max_instr(), MAX_INSTR),
            opt_string_view(s.noop_home) == config.spec_noop_home(),
            s.nemu_home@ == or_default(config.spec_nemu_home(), NEMU_HOME@),
            s.am_home@ == or_default(config.spec_am_home(), AM_HOME@),
    {
        let workers_num = match config.workers_num() {
            Some(num) => num,
            None => WORKERS_NUM,
        };
        let sleep_time = match config.sleep_time() {
            Some(time) => time,
            None => SLEEP_TIME,
        };
        let thread_num = match config.thread_num() {
            Some(num) => num,
            None => THREAD_NUM,
        };
        let max_instr = match config.max_instr() {
            Some(max) => max,
            None => MAX_INSTR,
        };
        Settings {
            workers_num,
            work_root: str_or(config.work_root(), WORK_ROOT),
            sleep_time,
            img_list: str_or(config.img_list(), IMG_LIST),
            thread_num,
            max_instr,
            noop_home: opt_to_owned(config.noop_home()),
            nemu_home: str_or(config.nemu_home(), NEMU_HOME),
            am_home: str_or(config.am_home(), AM_HOME),
        }
    }
}

} // verus!
