//! Hints that go with an error message.
use crate::text::{contains, lowercase, seq_contains, to_lowercase};
use vstd::prelude::*;

verus! {

broadcast use vstd::string::group_string_axioms;

/// `s` appended to `acc` when `cond` holds.
pub open spec fn push_if(acc: Seq<Seq<char>>, cond: bool, s: Seq<char>) -> Seq<Seq<char>> {
    if cond {
        acc.push(s)
    } else {
        acc
    }
}

/// The hints for a message whose lowercase form is `m`, in order.
pub open spec fn suggestions_for(m: Seq<char>) -> Seq<Seq<char>> {
    let s1 = push_if(
        Seq::empty(),
        seq_contains(m, "dirty working copy"@) || seq_contains(m, "uncommitted changes"@),
        "Try running: jj snapshot"@,
    );
    let s2 = push_if(
        s1,
        seq_contains(m, "immutable"@) && (seq_contains(m, "edit"@) || seq_contains(m, "describe"@)),
        "Try running: jj new (to create a child of the immutable revision)"@,
    );
    let s3 = push_if(
        s2,
        seq_contains(m, "conflict"@),
        "Try running: jj resolve (to open the external merge tool)"@,
    );
    let s4 = push_if(
        s3,
        seq_contains(m, "no such bookmark"@),
        "Check the bookmark name or try: jj bookmark list"@,
    );
    push_if(
        s4,
        seq_contains(m, "not a git repository"@),
        "Ensure you are in a jj/git repository or try: jj git init"@,
    )
}

/// Recovery hints for an error message: one for each kind of problem that
/// the lowercase message names.
pub fn get_suggestions(msg: &str) -> (res: Vec<String>)
    ensures
        res@.map_values(|s: String| s@) == suggestions_for(lowercase(msg@)),
{
    let mut suggestions: Vec<String> = Vec::new();
    let lower = to_lowercase(msg);
    let m = lower.as_str();
    let ghost acc0 = suggestions@.map_values(|s: String| s@);
    assert(acc0 =~= Seq::<Seq<char>>::empty());

    if contains(m, "dirty working copy") || contains(m, "uncommitted changes") {
        suggestions.push("Try running: jj snapshot".to_string());
    }
    let ghost acc1 = suggestions@.map_values(|s: String| s@);
    assert(acc1 =~= push_if(
        Seq::empty(),
        seq_contains(m@, "dirty working copy"@) || seq_contains(m@, "uncommitted changes"@),
        "Try running: jj snapshot"@,
    ));

    if contains(m, "immutable") && (contains(m, "edit") || contains(m, "describe")) {
        suggestions.push(
            "Try running: jj new (to create a child of the immutable revision)".to_string(),
        );
    }
    let ghost acc2 = suggestions@.map_values(|s: String| s@);
    assert(acc2 =~= push_if(
        acc1,
        seq_contains(m@, "immutable"@) && (seq_contains(m@, "edit"@) || seq_contains(
            m@,
            "describe"@,
        )),
        "Try running: jj new (to create a child of the immutable revision)"@,
    ));

    if contains(m, "conflict") {
        suggestions.push("Try running: jj resolve (to open the external merge tool)".to_string());
    }
    let ghost acc3 = suggestions@.map_values(|s: String| s@);
    assert(acc3 =~= push_if(
        acc2,
        seq_contains(m@, "conflict"@),
        "Try running: jj resolve (to open the external merge tool)"@,
    ));

    if contains(m, "no such bookmark") {
        suggestions.push("Check the bookmark name or try: jj bookmark list".to_string());
    }
    let ghost acc4 = suggestions@.map_values(|s: String| s@);
    assert(acc4 =~= push_if(
        acc3,
        seq_contains(m@, "no such bookmark"@),
        "Check the bookmark name or try: jj bookmark list"@,
    ));

    if contains(m, "not a git repository") {
        suggestions.push(
            "Ensure you are in a jj/git repository or try: jj git init".to_string(),
        );
    }
    assert(suggestions@.map_values(|s: String| s@) =~= push_if(
        acc4,
        seq_contains(m@, "not a git repository"@),
        "Ensure you are in a jj/git repository or try: jj git init"@,
    ));
    suggestions
}

} // verus!
