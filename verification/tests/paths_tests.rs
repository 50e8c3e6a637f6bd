use elysia::paths::{data_dir_candidates, join_path, pick_data_dir, DataDirError};

#[test]
fn join_inserts_exactly_one_separator() {
    assert_eq!(join_path("/data", "cache"), "/data/cache");
    assert_eq!(join_path("/data/", "cache"), "/data/cache");
    assert_eq!(join_path("", "cache"), "/cache");
    assert_eq!(join_path("/a", "b/c"), "/a/b/c");
}

#[test]
fn candidates_follow_the_strict_order() {
    let r = data_dir_candidates(
        &Some("/xdg".to_string()),
        &Some("/home/user".to_string()),
        &Some("/cwd".to_string()),
    );
    assert_eq!(
        r,
        vec![
            "/xdg/elysia".to_string(),
            "/home/user/.local/share/elysia".to_string(),
            "/cwd/elysia".to_string(),
        ]
    );
}

#[test]
fn unset_variables_are_skipped() {
    let r = data_dir_candidates(&None, &Some("/home/user".to_string()), &Some("/cwd".to_string()));
    assert_eq!(
        r,
        vec!["/home/user/.local/share/elysia".to_string(), "/cwd/elysia".to_string()]
    );
    let r = data_dir_candidates(&None, &None, &None);
    assert!(r.is_empty());
}

#[test]
fn first_usable_candidate_wins() {
    let candidates = vec!["/a".to_string(), "/b".to_string(), "/c".to_string()];
    let r = pick_data_dir(&candidates, &vec![false, true, true]);
    assert_eq!(r, Ok("/b".to_string()));
    let r = pick_data_dir(&candidates, &vec![true, false, false]);
    assert_eq!(r, Ok("/a".to_string()));
}

#[test]
fn no_usable_candidate_reports_every_attempted_path() {
    let candidates = vec!["/a".to_string(), "/b".to_string()];
    let r = pick_data_dir(&candidates, &vec![false, false]);
    assert_eq!(r, Err(DataDirError { attempted: candidates }));
}
