use rust_xs_test::tasks::{pick_task, task_at, tasks_list};

#[test]
fn tasks_keep_gz_names_in_order() {
    let entries = vec![
        Some("dir".to_string()),
        Some("a.gz".to_string()),
        None,
        Some("b.txt".to_string()),
        Some(".gz".to_string()),
        Some("gz".to_string()),
        Some("c.gz.bak".to_string()),
        Some("d.gz".to_string()),
    ];
    assert_eq!(tasks_list(&entries), vec!["a.gz".to_string(), ".gz".to_string(), "d.gz".to_string()]);
    assert!(tasks_list(&vec![]).is_empty());
    assert!(tasks_list(&vec![None, Some("x".to_string())]).is_empty());
}

#[test]
fn picked_task_is_one_of_them() {
    let tasks = vec!["a.gz".to_string(), "b.gz".to_string(), "c.gz".to_string()];
    for _ in 0..50 {
        let t = pick_task(&tasks);
        assert!(tasks.contains(&t));
    }
    assert_eq!(pick_task(&vec!["only.gz".to_string()]), "only.gz");
}

/// The entries a walk of the image directory could find, by path.
#[test]
fn test_tasks_list() {
    let dir = "/bigdata/zyy/checkpoints_profiles/betapoint_profile_06";
    let entries = vec![
        Some(dir.to_string()),
        Some(format!("{}/gcc", dir)),
        Some(format!("{}/gcc/gcc_166_1000.gz", dir)),
        Some(format!("{}/README", dir)),
        Some(format!("{}/mcf_2000.gz", dir)),
    ];
    let tasks = tasks_list(&entries);
    for task in &tasks {
        println!("{}", task);
    }
    assert_eq!(tasks, vec![format!("{}/gcc/gcc_166_1000.gz", dir), format!("{}/mcf_2000.gz", dir)]);
}

#[test]
fn task_at_gives_that_task() {
    let tasks = vec!["a.gz".to_string(), "b.gz".to_string()];
    assert_eq!(task_at(&tasks, 0), "a.gz");
    assert_eq!(task_at(&tasks, 1), "b.gz");
}
