use vstd::prelude::*;

verus! {

/// One entry of the revset reference: a form and what it means.
#[derive(Debug)]
pub struct RevsetEntry {
    pub name: &'static str,
    pub description: &'static str,
}

/// A titled group of revset reference entries.
#[derive(Debug)]
pub struct RevsetCategory {
    pub name: &'static str,
    pub entries: Vec<RevsetEntry>,
}

/// The reference table: each category's title and its (form, meaning) pairs.
pub open spec fn revset_table() -> Seq<(Seq<char>, Seq<(Seq<char>, Seq<char>)>)> {
    seq![
        ("Operators"@, seq![
            ("x-"@, "Parents of x"@),
            ("x+"@, "Children of x"@),
            ("::x"@, "Ancestors of x"@),
            ("x::"@, "Descendants of x"@),
            ("x::y"@, "Descendants of x that are ancestors of y"@),
            ("x..y"@, "Ancestors of y not ancestors of x"@),
            ("x & y"@, "Intersection (both)"@),
            ("x | y"@, "Union (either)"@),
            ("~x"@, "Complement (not in x)"@),
            ("x ~ y"@, "Difference (x but not y)"@),
        ]),
        ("Scope & Identity"@, seq![
            ("all()"@, "All visible commits"@),
            ("none()"@, "Empty set"@),
            ("root()"@, "Oldest ancestor of all commits"@),
            ("@"@, "Working copy commit"@),
            ("mine()"@, "Your authored commits"@),
            ("trunk()"@, "Default bookmark on remote"@),
            ("mutable()"@, "Mutable commits"@),
            ("immutable()"@, "Immutable commits"@),
            ("working_copies()"@, "Working copies across workspaces"@),
            ("visible_heads()"@, "All visible head commits"@),
        ]),
        ("Bookmarks & Tags"@, seq![
            ("bookmarks([p])"@, "Local bookmark targets"@),
            ("remote_bookmarks()"@, "Remote bookmark targets"@),
            ("tracked_remote_bookmarks()"@, "Tracked remote bookmarks"@),
            ("untracked_remote_bookmarks()"@, "Untracked remote bookmarks"@),
            ("tags([p])"@, "Tag targets"@),
            ("remote_tags()"@, "Remote tag targets"@),
        ]),
        ("Ancestry & DAG"@, seq![
            ("parents(x, [d])"@, "Parents of x (optional depth)"@),
            ("children(x, [d])"@, "Children of x (optional depth)"@),
            ("ancestors(x, [d])"@, "Ancestors of x"@),
            ("descendants(x, [d])"@, "Descendants of x"@),
            ("heads(x)"@, "Commits with no descendants in x"@),
            ("roots(x)"@, "Commits with no ancestors in x"@),
            ("connected(x)"@, "x::x – fill in gaps"@),
            ("reachable(s, d)"@, "Reachable from s within domain d"@),
            ("fork_point(x)"@, "Common ancestor(s) of x"@),
            ("first_parent(x)"@, "First parent only (for merges)"@),
            ("first_ancestors(x)"@, "Ancestors via first parent only"@),
        ]),
        ("Search & Metadata"@, seq![
            ("description(p)"@, "Match commit description"@),
            ("subject(p)"@, "Match first line of description"@),
            ("author(p)"@, "Match author name or email"@),
            ("author_date(p)"@, "Match author date"@),
            ("committer(p)"@, "Match committer name or email"@),
            ("committer_date(p)"@, "Match committer date"@),
            ("files(expr)"@, "Commits modifying matching paths"@),
            ("diff_lines(t, [f])"@, "Commits with matching diff text"@),
        ]),
        ("State & Filters"@, seq![
            ("conflicts()"@, "Commits with conflicts"@),
            ("divergent()"@, "Divergent commits"@),
            ("empty()"@, "Commits modifying no files"@),
            ("merges()"@, "Merge commits"@),
            ("signed()"@, "Cryptographically signed"@),
            ("latest(x, [n])"@, "Latest n commits by date"@),
            ("present(x)"@, "x, or none() if missing"@),
            ("exactly(x, n)"@, "x if exactly n commits"@),
        ]),
        ("String Patterns"@, seq![
            ("exact:\"str\""@, "Exact string match"@),
            ("glob:\"pat\""@, "Unix-style wildcard (default)"@),
            ("regex:\"pat\""@, "Regular expression match"@),
            ("substring:\"str\""@, "Substring match"@),
            ("-i suffix"@, "Case-insensitive (e.g. glob-i:)"@),
        ]),
        ("Date Patterns"@, seq![
            ("after:\"date\""@, "At or after the given date"@),
            ("before:\"date\""@, "Before the given date"@),
            ("\"2 days ago\""@, "Relative date example"@),
            ("\"yesterday 5pm\""@, "Natural language date"@),
        ])
    ]
}

/// The view of a category: its title and entries.
pub open spec fn category_view(c: RevsetCategory) -> (Seq<char>, Seq<(Seq<char>, Seq<char>)>) {
    (c.name@, c.entries@.map_values(|e: RevsetEntry| (e.name@, e.description@)))
}

/// The revset reference shown beside the filter input.
pub fn get_revset_reference() -> (res: Vec<RevsetCategory>)
    ensures
        res@.map_values(|c: RevsetCategory| category_view(c)) == revset_table(),
{
    let mut res: Vec<RevsetCategory> = Vec::new();
    let mut e0: Vec<RevsetEntry> = Vec::new();
    e0.push(RevsetEntry { name: "x-", description: "Parents of x" });
    e0.push(RevsetEntry { name: "x+", description: "Children of x" });
    e0.push(RevsetEntry { name: "::x", description: "Ancestors of x" });
    e0.push(RevsetEntry { name: "x::", description: "Descendants of x" });
    e0.push(RevsetEntry { name: "x::y", description: "Descendants of x that are ancestors of y" });
    e0.push(RevsetEntry { name: "x..y", description: "Ancestors of y not ancestors of x" });
    e0.push(RevsetEntry { name: "x & y", description: "Intersection (both)" });
    e0.push(RevsetEntry { name: "x | y", description: "Union (either)" });
    e0.push(RevsetEntry { name: "~x", description: "Complement (not in x)" });
    e0.push(RevsetEntry { name: "x ~ y", description: "Difference (x but not y)" });
    assert(e0@.map_values(|e: RevsetEntry| (e.name@, e.description@)) =~= revset_table()[0].1);
    res.push(RevsetCategory { name: "Operators", entries: e0 });
    let mut e1: Vec<RevsetEntry> = Vec::new();
    e1.push(RevsetEntry { name: "all()", description: "All visible commits" });
    e1.push(RevsetEntry { name: "none()", description: "Empty set" });
    e1.push(RevsetEntry { name: "root()", description: "Oldest ancestor of all commits" });
    e1.push(RevsetEntry { name: "@", description: "Working copy commit" });
    e1.push(RevsetEntry { name: "mine()", description: "Your authored commits" });
    e1.push(RevsetEntry { name: "trunk()", description: "Default bookmark on remote" });
    e1.push(RevsetEntry { name: "mutable()", description: "Mutable commits" });
    e1.push(RevsetEntry { name: "immutable()", description: "Immutable commits" });
    e1.push(RevsetEntry { name: "working_copies()", description: "Working copies across workspaces" });
    e1.push(RevsetEntry { name: "visible_heads()", description: "All visible head commits" });
    assert(e1@.map_values(|e: RevsetEntry| (e.name@, e.description@)) =~= revset_table()[1].1);
    res.push(RevsetCategory { name: "Scope & Identity", entries: e1 });
    let mut e2: Vec<RevsetEntry> = Vec::new();
    e2.push(RevsetEntry { name: "bookmarks([p])", description: "Local bookmark targets" });
    e2.push(RevsetEntry { name: "remote_bookmarks()", description: "Remote bookmark targets" });
    e2.push(RevsetEntry { name: "tracked_remote_bookmarks()", description: "Tracked remote bookmarks" });
    e2.push(RevsetEntry { name: "untracked_remote_bookmarks()", description: "Untracked remote bookmarks" });
    e2.push(RevsetEntry { name: "tags([p])", description: "Tag targets" });
    e2.push(RevsetEntry { name: "remote_tags()", description: "Remote tag targets" });
    assert(e2@.map_values(|e: RevsetEntry| (e.name@, e.description@)) =~= revset_table()[2].1);
    res.push(RevsetCategory { name: "Bookmarks & Tags", entries: e2 });
    let mut e3: Vec<RevsetEntry> = Vec::new();
    e3.push(RevsetEntry { name: "parents(x, [d])", description: "Parents of x (optional depth)" });
    e3.push(RevsetEntry { name: "children(x, [d])", description: "Children of x (optional depth)" });
    e3.push(RevsetEntry { name: "ancestors(x, [d])", description: "Ancestors of x" });
    e3.push(RevsetEntry { name: "descendants(x, [d])", description: "Descendants of x" });
    e3.push(RevsetEntry { name: "heads(x)", description: "Commits with no descendants in x" });
    e3.push(RevsetEntry { name: "roots(x)", description: "Commits with no ancestors in x" });
    e3.push(RevsetEntry { name: "connected(x)", description: "x::x – fill in gaps" });
    e3.push(RevsetEntry { name: "reachable(s, d)", description: "Reachable from s within domain d" });
    e3.push(RevsetEntry { name: "fork_point(x)", description: "Common ancestor(s) of x" });
    e3.push(RevsetEntry { name: "first_parent(x)", description: "First parent only (for merges)" });
    e3.push(RevsetEntry { name: "first_ancestors(x)", description: "Ancestors via first parent only" });
    assert(e3@.map_values(|e: RevsetEntry| (e.name@, e.description@)) =~= revset_table()[3].1);
    res.push(RevsetCategory { name: "Ancestry & DAG", entries: e3 });
    let mut e4: Vec<RevsetEntry> = Vec::new();
    e4.push(RevsetEntry { name: "description(p)", description: "Match commit description" });
    e4.push(RevsetEntry { name: "subject(p)", description: "Match first line of description" });
    e4.push(RevsetEntry { name: "author(p)", description: "Match author name or email" });
    e4.push(RevsetEntry { name: "author_date(p)", description: "Match author date" });
    e4.push(RevsetEntry { name: "committer(p)", description: "Match committer name or email" });
    e4.push(RevsetEntry { name: "committer_date(p)", description: "Match committer date" });
    e4.push(RevsetEntry { name: "files(expr)", description: "Commits modifying matching paths" });
    e4.push(RevsetEntry { name: "diff_lines(t, [f])", description: "Commits with matching diff text" });
    assert(e4@.map_values(|e: RevsetEntry| (e.name@, e.description@)) =~= revset_table()[4].1);
    res.push(RevsetCategory { name: "Search & Metadata", entries: e4 });
    let mut e5: Vec<RevsetEntry> = Vec::new();
    e5.push(RevsetEntry { name: "conflicts()", description: "Commits with conflicts" });
    e5.push(RevsetEntry { name: "divergent()", description: "Divergent commits" });
    e5.push(RevsetEntry { name: "empty()", description: "Commits modifying no files" });
    e5.push(RevsetEntry { name: "merges()", description: "Merge commits" });
    e5.push(RevsetEntry { name: "signed()", description: "Cryptographically signed" });
    e5.push(RevsetEntry { name: "latest(x, [n])", description: "Latest n commits by date" });
    e5.push(RevsetEntry { name: "present(x)", description: "x, or none() if missing" });
    e5.push(RevsetEntry { name: "exactly(x, n)", description: "x if exactly n commits" });
    assert(e5@.map_values(|e: RevsetEntry| (e.name@, e.description@)) =~= revset_table()[5].1);
    res.push(RevsetCategory { name: "State & Filters", entries: e5 });
    let mut e6: Vec<RevsetEntry> = Vec::new();
    e6.push(RevsetEntry { name: "exact:\"str\"", description: "Exact string match" });
    e6.push(RevsetEntry { name: "glob:\"pat\"", description: "Unix-style wildcard (default)" });
    e6.push(RevsetEntry { name: "regex:\"pat\"", description: "Regular expression match" });
    e6.push(RevsetEntry { name: "substring:\"str\"", description: "Substring match" });
    e6.push(RevsetEntry { name: "-i suffix", description: "Case-insensitive (e.g. glob-i:)" });
    assert(e6@.map_values(|e: RevsetEntry| (e.name@, e.description@)) =~= revset_table()[6].1);
    res.push(RevsetCategory { name: "String Patterns", entries: e6 });
    let mut e7: Vec<RevsetEntry> = Vec::new();
    e7.push(RevsetEntry { name: "after:\"date\"", description: "At or after the given date" });
    e7.push(RevsetEntry { name: "before:\"date\"", description: "Before the given date" });
    e7.push(RevsetEntry { name: "\"2 days ago\"", description: "Relative date example" });
    e7.push(RevsetEntry { name: "\"yesterday 5pm\"", description: "Natural language date" });
    assert(e7@.map_values(|e: RevsetEntry| (e.name@, e.description@)) =~= revset_table()[7].1);
    res.push(RevsetCategory { name: "Date Patterns", entries: e7 });
    assert(res@.map_values(|c: RevsetCategory| category_view(c)) =~= revset_table());
    res
}

} // verus!
