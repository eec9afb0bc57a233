use rust_xs_test::text::{i64_to_string, u64_to_string};
use rust_xs_test::workload::{format_workload_name, url_has_repo_name};
use rust_xs_test::{get_workload_name, url2path};

#[test]
fn test_url2path() {
    assert_eq!(url2path("https://github.com/RISCVERS/XiangShan.git"), "XiangShan");
}

#[test]
fn url2path_cuts_last_four_bytes_of_last_segment() {
    assert_eq!(url2path("XiangShan.git"), "XiangShan");
    assert_eq!(url2path("a/b/.git"), "");
    assert_eq!(url2path("x/é.git"), "é");
    assert_eq!(url2path("x/abé"), "");
    assert_eq!(url2path("x/abcé"), "a");
    assert_eq!(url2path("x/aébc"), "a");
}

#[test]
fn url2path_refuses_where_the_cut_is_impossible() {
    assert!(url_has_repo_name("https://github.com/RISCVERS/XiangShan.git"));
    assert!(!url_has_repo_name(""));
    assert!(!url_has_repo_name("https://host/repo/"));
    assert!(!url_has_repo_name("x/abc"));
    assert!(!url_has_repo_name("x/aé"));
    assert!(!url_has_repo_name("x/a€bc"));
    assert!(url_has_repo_name("x/abcd"));
}

#[test]
fn decimal_matches_to_string() {
    for n in [0u64, 7, 9, 10, 99, 100, 12345, u64::MAX] {
        assert_eq!(u64_to_string(n), n.to_string());
    }
    for i in [0i64, -1, 42, -2024, i64::MIN, i64::MAX] {
        assert_eq!(i64_to_string(i), i.to_string());
    }
}

#[test]
fn workload_name_joins_time_fields() {
    assert_eq!(format_workload_name(2021, 3, 5, 7, 8, 9), "2021_3_5_7_8_9");
    assert_eq!(format_workload_name(1999, 12, 31, 23, 59, 59), "1999_12_31_23_59_59");
    assert_eq!(format_workload_name(-44, 3, 15, 0, 0, 0), "-44_3_15_0_0_0");
    assert_ne!(format_workload_name(2021, 1, 11, 1, 1, 1), format_workload_name(2021, 11, 1, 1, 1, 1));
}

#[test]
fn workload_name_now_has_six_fields() {
    let name = get_workload_name();
    let fields: Vec<&str> = name.split('_').collect();
    assert_eq!(fields.len(), 6);
    let month: u32 = fields[1].parse().unwrap();
    let day: u32 = fields[2].parse().unwrap();
    let hour: u32 = fields[3].parse().unwrap();
    assert!((1..=12).contains(&month));
    assert!((1..=31).contains(&day));
    assert!(hour <= 23);
}
