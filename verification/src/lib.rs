//! Verified core of an automatic background test routine for the XiangShan
//! processor: configuration lookup, command construction for `git`, `make`,
//! `numactl` and file copies, interpretation of how a command ended, the
//! search for idle CPUs, work-directory naming, the memory-header rewrite,
//! and the state machine of one test run.

pub mod text;
pub mod config;
pub mod command;
pub mod git;
pub mod emu;
pub mod just;
pub mod make;
pub mod busybox;
pub mod numactl;
pub mod workload;
pub mod ram;
pub mod tasks;
pub mod handle;
pub mod paths;
pub mod worker;

pub use command::{DefaultErr, XSCommand, XSCommandErr};
pub use config::{Config, EmuConfig, HookConfig};
pub use workload::{get_workload_name, url2path};
