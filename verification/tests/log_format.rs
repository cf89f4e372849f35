use judo::domain::log_format::{parse_log, parse_seconds, repo_status_from_log, split_on};
use judo::domain::models::FileStatus;

fn record(fields: &[&str]) -> String {
    let mut s = fields.join("\u{1f}");
    s.push('\u{1e}');
    s
}

fn sample() -> String {
    let a = record(&[
        "aaaa1111",
        "aaaa",
        "zzzz9999",
        "zzzz",
        "Add feature",
        "Alice",
        "2 hours ago",
        "1700000000",
        "1",
        "0",
        "0",
        "bbbb2222",
        "main,feature",
        "Asrc/new.rs\u{1d}Msrc/lib.rs\u{1d}Dold.txt\u{1d}Cconflict.rs",
    ]);
    let b = record(&[
        "bbbb2222", "bbbb", "yyyy8888", "yyyy", "", "Bob", "1 day ago", "-42", "0", "1", "1",
        "", "", "",
    ]);
    format!("{}{}", a, b)
}

#[test]
fn test_parse_log_reads_every_field() {
    let rows = parse_log(&sample());
    assert_eq!(rows.len(), 2);
    let r = &rows[0];
    assert_eq!(r.commit_id.0, "aaaa1111");
    assert_eq!(r.commit_id_short, "aaaa");
    assert_eq!(r.change_id, "zzzz9999");
    assert_eq!(r.change_id_short, "zzzz");
    assert_eq!(r.description, "Add feature");
    assert_eq!(r.author, "Alice");
    assert_eq!(r.timestamp, "2 hours ago");
    assert_eq!(r.timestamp_secs, 1700000000);
    assert!(r.is_working_copy);
    assert!(!r.is_immutable);
    assert!(!r.has_conflict);
    assert_eq!(r.parents.len(), 1);
    assert_eq!(r.parents[0].0, "bbbb2222");
    assert_eq!(r.bookmarks, vec!["main".to_string(), "feature".to_string()]);
    assert_eq!(r.changed_files.len(), 4);
    assert_eq!(r.changed_files[0].path, "src/new.rs");
    assert!(matches!(r.changed_files[0].status, FileStatus::Added));
    assert!(matches!(r.changed_files[1].status, FileStatus::Modified));
    assert!(matches!(r.changed_files[2].status, FileStatus::Deleted));
    assert_eq!(r.changed_files[3].path, "conflict.rs");
    assert!(matches!(r.changed_files[3].status, FileStatus::Conflicted));

    let r = &rows[1];
    assert_eq!(r.description, "");
    assert_eq!(r.timestamp_secs, -42);
    assert!(!r.is_working_copy);
    assert!(r.is_immutable);
    assert!(r.has_conflict);
    assert!(r.parents.is_empty());
    assert!(r.bookmarks.is_empty());
    assert!(r.changed_files.is_empty());
}

#[test]
fn test_parse_log_skips_incomplete_records() {
    let mut text = sample();
    text.push_str("only\u{1f}three\u{1f}fields\u{1e}");
    text.push_str("trailing text without an end");
    let rows = parse_log(&text);
    assert_eq!(rows.len(), 2);
    assert!(parse_log("").is_empty());
}

#[test]
fn test_parse_seconds_edge_cases() {
    let cs = |s: &str| s.chars().collect::<Vec<char>>();
    assert_eq!(parse_seconds(&cs("0")), 0);
    assert_eq!(parse_seconds(&cs("123")), 123);
    assert_eq!(parse_seconds(&cs("-7")), -7);
    assert_eq!(parse_seconds(&cs("")), 0);
    assert_eq!(parse_seconds(&cs("-")), 0);
    assert_eq!(parse_seconds(&cs("12a")), 0);
    assert_eq!(parse_seconds(&cs("999999999999999999")), 999_999_999_999_999_999);
    assert_eq!(parse_seconds(&cs("1000000000000000000")), 0);
}

#[test]
fn test_split_on_keeps_empty_pieces() {
    let cs: Vec<char> = ",a,,b,".chars().collect();
    let parts: Vec<String> = split_on(&cs, ',')
        .into_iter()
        .map(|p| p.into_iter().collect())
        .collect();
    assert_eq!(parts, vec!["", "a", "", "b", ""]);
}

#[test]
fn test_repo_status_from_log_finds_working_copy() {
    let status = repo_status_from_log(
        &sample(),
        "repo".to_string(),
        "op1".to_string(),
        "default".to_string(),
    );
    assert_eq!(status.repo_name, "repo");
    assert_eq!(status.operation_id, "op1");
    assert_eq!(status.workspace_id, "default");
    assert_eq!(status.graph.len(), 2);
    assert_eq!(status.working_copy_id.0, "aaaa1111");

    let none = repo_status_from_log("", String::new(), String::new(), String::new());
    assert_eq!(none.working_copy_id.0, "");
}
