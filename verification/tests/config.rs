use rust_xs_test::config::{Settings, AM_HOME, IMG_LIST, MAX_INSTR, NEMU_HOME, SLEEP_TIME, THREAD_NUM, WORKERS_NUM, WORK_ROOT};
use rust_xs_test::{Config, EmuConfig, HookConfig};

fn some(s: &str) -> Option<String> {
    Some(s.to_string())
}

/// The configuration file shown in the project's documentation.
fn documented_config() -> Config {
    Config {
        hook: Some(HookConfig {
            workers_num: Some(1),
            work_root: some("/home/ccc/rust_xs_test_workload"),
            sleep_time: Some(120),
        }),
        emu: Some(EmuConfig {
            img: None,
            img_list: some("/bigdata/zyy/checkpoints_profiles/betapoint_profile_06"),
            thread_num: Some(8),
            max_instr: Some(1000000),
            noop_home: some("/home/ccc/XiangShan"),
            nemu_home: some("/home/ccc/NEMU"),
            am_home: some("/home/ccc/nexus-am"),
        }),
    }
}

#[test]
fn test_read_config() {
    let conf = documented_config();
    assert_eq!(conf.workers_num(), Some(1));
    assert_eq!(conf.work_root(), Some("/home/ccc/rust_xs_test_workload"));
    assert_eq!(conf.sleep_time(), Some(120));
    assert_eq!(conf.img_list(), Some("/bigdata/zyy/checkpoints_profiles/betapoint_profile_06"));
    assert_eq!(conf.thread_num(), Some(8));
    assert_eq!(conf.max_instr(), Some(1000000));
    assert_eq!(conf.nemu_home(), Some("/home/ccc/NEMU"));
    assert_eq!(conf.am_home(), Some("/home/ccc/nexus-am"));
}

#[test]
fn getters_on_missing_tables_and_keys() {
    let empty = Config { hook: None, emu: None };
    assert_eq!(empty.workers_num(), None);
    assert_eq!(empty.work_root(), None);
    assert_eq!(empty.sleep_time(), None);
    assert_eq!(empty.img(), None);
    assert_eq!(empty.img_list(), None);
    assert_eq!(empty.thread_num(), None);
    assert_eq!(empty.max_instr(), None);
    assert_eq!(empty.noop_home(), None);
    assert_eq!(empty.nemu_home(), None);
    assert_eq!(empty.am_home(), None);
    let conf = documented_config();
    assert_eq!(conf.img(), None);
    assert_eq!(conf.noop_home(), Some("/home/ccc/XiangShan"));
    let partial = Config {
        hook: Some(HookConfig { workers_num: None, work_root: None, sleep_time: Some(5) }),
        emu: Some(EmuConfig {
            img: some("one.gz"),
            img_list: None,
            thread_num: None,
            max_instr: None,
            noop_home: None,
            nemu_home: None,
            am_home: None,
        }),
    };
    assert_eq!(partial.workers_num(), None);
    assert_eq!(partial.sleep_time(), Some(5));
    assert_eq!(partial.img(), Some("one.gz"));
    assert_eq!(partial.thread_num(), None);
}

#[test]
fn settings_fall_back_to_defaults() {
    let s = Settings::resolve(&Config { hook: None, emu: None });
    assert_eq!(s.workers_num, WORKERS_NUM);
    assert_eq!(s.workers_num, 3);
    assert_eq!(s.work_root, WORK_ROOT);
    assert_eq!(s.sleep_time, SLEEP_TIME);
    assert_eq!(s.sleep_time, 120);
    assert_eq!(s.img_list, IMG_LIST);
    assert_eq!(s.thread_num, THREAD_NUM);
    assert_eq!(s.max_instr, MAX_INSTR);
    assert_eq!(s.noop_home, None);
    assert_eq!(s.nemu_home, NEMU_HOME);
    assert_eq!(s.am_home, AM_HOME);
}

#[test]
fn settings_take_configured_values() {
    let s = Settings::resolve(&documented_config());
    assert_eq!(s.workers_num, 1);
    assert_eq!(s.work_root, "/home/ccc/rust_xs_test_workload");
    assert_eq!(s.sleep_time, 120);
    assert_eq!(s.img_list, "/bigdata/zyy/checkpoints_profiles/betapoint_profile_06");
    assert_eq!(s.thread_num, 8);
    assert_eq!(s.max_instr, 1000000);
    assert_eq!(s.noop_home.as_deref(), Some("/home/ccc/XiangShan"));
}
