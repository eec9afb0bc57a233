use rust_xs_test::numactl::{cpu_wait_step, find_idle_cpus, CpuWait};

#[test]
fn window_is_the_first_idle_run_long_enough() {
    assert_eq!(find_idle_cpus(&vec![true, false, false, false], 3), Some((1, 3)));
    assert_eq!(find_idle_cpus(&vec![true, false], 1), Some((1, 1)));
    assert_eq!(find_idle_cpus(&vec![false, true], 1), Some((0, 0)));
    assert_eq!(find_idle_cpus(&vec![false, true, false, false], 2), Some((2, 3)));
    assert_eq!(find_idle_cpus(&vec![false, true, true, false, false, false, false], 3), Some((3, 5)));
}

#[test]
fn no_window_without_enough_idle_cpus() {
    assert_eq!(find_idle_cpus(&vec![], 1), None);
    assert_eq!(find_idle_cpus(&vec![true, true], 1), None);
    assert_eq!(find_idle_cpus(&vec![false, true, false], 2), None);
    assert_eq!(find_idle_cpus(&vec![false, false], 3), None);
}

/// Checked against a direct search on every pattern of 6 CPUs: a window is
/// found exactly when `n` consecutive CPUs are idle, it holds `n` idle CPUs,
/// and it is the first such window.
#[test]
fn window_matches_direct_search() {
    for mask in 0u32..64 {
        let busy: Vec<bool> = (0..6).map(|i| mask & (1 << i) != 0).collect();
        for n in 1usize..8 {
            let direct = (n..=busy.len()).find(|&k| busy[k - n..k].iter().all(|b| !b)).map(|k| (k - n, k - 1));
            assert_eq!(find_idle_cpus(&busy, n), direct, "busy {:?} n {}", busy, n);
        }
    }
}

#[test]
fn cpu_search_sleeps_three_times_then_gives_up() {
    assert_eq!(cpu_wait_step(0, true), CpuWait::Proceed);
    assert_eq!(cpu_wait_step(2, true), CpuWait::Proceed);
    assert_eq!(cpu_wait_step(0, false), CpuWait::SleepThenRetry(120));
    assert_eq!(cpu_wait_step(1, false), CpuWait::SleepThenRetry(120));
    assert_eq!(cpu_wait_step(2, false), CpuWait::SleepThenGiveUp(120));
}
