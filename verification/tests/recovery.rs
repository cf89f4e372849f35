use judo::app::recovery::get_suggestions;

#[test]
fn test_suggestions() {
    let s = get_suggestions("error: Dirty working copy");
    assert!(s.contains(&"Try running: jj snapshot".to_string()));

    let s = get_suggestions("error: Cannot edit immutable revision");
    assert!(s.contains(
        &"Try running: jj new (to create a child of the immutable revision)".to_string()
    ));

    let s = get_suggestions("The revision has conflicts");
    assert!(s.contains(&"Try running: jj resolve (to open the external merge tool)".to_string()));
}

#[test]
fn suggestions_follow_the_order_of_the_checks() {
    let s = get_suggestions("Uncommitted changes; CONFLICT in file; not a git repository");
    assert_eq!(
        s,
        vec![
            "Try running: jj snapshot".to_string(),
            "Try running: jj resolve (to open the external merge tool)".to_string(),
            "Ensure you are in a jj/git repository or try: jj git init".to_string(),
        ]
    );
}

#[test]
fn no_suggestion_for_an_unknown_error() {
    assert!(get_suggestions("something else went wrong").is_empty());
    assert_eq!(
        get_suggestions("no such bookmark: main"),
        vec!["Check the bookmark name or try: jj bookmark list".to_string()]
    );
}
