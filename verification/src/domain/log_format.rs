//! The machine-readable log that the version control system prints for the
//! revision graph, and the rows it describes.
//!
//! The log is a sequence of records, each ended by a record separator
//! (U+001E). A record holds fourteen fields separated by a unit separator
//! (U+001F): the commit id and its short form, the change id and its short
//! form, the description, the author, the timestamp as shown, the timestamp
//! in seconds since the Unix epoch, three flags (`1` for set) for the
//! working copy, immutability and conflicts, the parents' commit ids and the
//! bookmarks (each list separated by commas), and the changed files
//! (separated by U+001D, each a status letter followed by the path: `A`
//! added, `D` deleted, `C` conflicted, anything else modified).
use crate::domain::models::{ids_view, CommitId, FileChange, FileStatus, GraphRow, GraphRowVisual, RepoStatus};
use crate::app::features::navigation::views;
use crate::text::string_of;
use vstd::prelude::*;

verus! {

broadcast use vstd::string::group_string_axioms;

/// Ends a record.
pub const RECORD_END: char = '\u{1e}';

/// Separates the fields of a record.
pub const FIELD_SEP: char = '\u{1f}';

/// Separates the changed files of a record.
pub const ENTRY_SEP: char = '\u{1d}';

/// Separates the parents and the bookmarks of a record.
pub const LIST_SEP: char = ',';

/// The number of fields of a record.
pub const FIELD_COUNT: usize = 14;

/// The most digits a timestamp in seconds may have.
pub const MAX_DIGITS: usize = 18;

/// Position of the first `c` in `s`, or its length.
pub open spec fn first_of(s: Seq<char>, c: char) -> int
    decreases s.len(),
{
    if s.len() == 0 {
        0
    } else if s[0] == c {
        0
    } else {
        1 + first_of(s.drop_first(), c)
    }
}

pub proof fn lemma_first_of_bound(s: Seq<char>, c: char)
    ensures
        0 <= first_of(s, c) <= s.len(),
    decreases s.len(),
{
    if s.len() > 0 && s[0] != c {
        lemma_first_of_bound(s.drop_first(), c);
    }
}

proof fn lemma_first_of(s: Seq<char>, c: char, k: int)
    requires
        0 <= k <= s.len(),
        forall|j: int| 0 <= j < k ==> #[trigger] s[j] != c,
        k == s.len() || s[k] == c,
    ensures
        first_of(s, c) == k,
    decreases k,
{
    if k > 0 {
        let t = s.drop_first();
        assert forall|j: int| 0 <= j < k - 1 implies #[trigger] t[j] != c by {
            assert(t[j] == s[j + 1]);
        }
        lemma_first_of(t, c, k - 1);
    }
}

/// The pieces of `s` between the occurrences of `c`, as `str::split` gives
/// them: one more piece than occurrences.
pub open spec fn pieces(s: Seq<char>, c: char) -> Seq<Seq<char>>
    decreases s.len(),
{
    let k = first_of(s, c);
    proof {
        lemma_first_of_bound(s, c);
    }
    if k < s.len() {
        seq![s.subrange(0, k)] + pieces(s.subrange(k + 1, s.len() as int), c)
    } else {
        seq![s]
    }
}

/// The pieces that are not empty, in order.
pub open spec fn drop_empty(ps: Seq<Seq<char>>) -> Seq<Seq<char>>
    decreases ps.len(),
{
    if ps.len() == 0 {
        Seq::empty()
    } else if ps.last().len() == 0 {
        drop_empty(ps.drop_last())
    } else {
        drop_empty(ps.drop_last()).push(ps.last())
    }
}

/// The items of a list field.
pub open spec fn list_items(s: Seq<char>, c: char) -> Seq<Seq<char>> {
    drop_empty(pieces(s, c))
}

/// The views of vectors of characters.
pub open spec fn char_views(v: Seq<Vec<char>>) -> Seq<Seq<char>> {
    v.map_values(|p: Vec<char>| p@)
}

/// The pieces of `s` between the occurrences of `c` (see `pieces`).
pub fn split_on(s: &Vec<char>, c: char) -> (res: Vec<Vec<char>>)
    ensures
        char_views(res@) == pieces(s@, c),
{
    let n = s.len();
    let mut res: Vec<Vec<char>> = Vec::new();
    let mut start: usize = 0;
    assert(s@.subrange(0, n as int) =~= s@);
    loop
        invariant
            n == s@.len(),
            start <= n,
            char_views(res@) + pieces(s@.subrange(start as int, n as int), c) == pieces(s@, c),
        decreases n - start,
    {
        let ghost rest = s@.subrange(start as int, n as int);
        let mut k: usize = start;
        while k < n && s[k] != c
            invariant
                start <= k <= n,
                n == s@.len(),
                forall|j: int| start <= j < k ==> s@[j] != c,
            decreases n - k,
        {
            k += 1;
        }
        proof {
            assert forall|j: int| 0 <= j < k - start implies #[trigger] rest[j] != c by {
                assert(rest[j] == s@[start + j]);
            }
            lemma_first_of(rest, c, k - start);
        }
        let mut piece: Vec<char> = Vec::new();
        for i in start..k
            invariant
                start <= k <= n,
                n == s@.len(),
                piece@ == s@.subrange(start as int, i as int),
        {
            piece.push(s[i]);
            assert(piece@ =~= s@.subrange(start as int, i + 1));
        }
        let ghost before = char_views(res@);
        res.push(piece);
        assert(char_views(res@) =~= before.push(s@.subrange(start as int, k as int)));
        if k < n {
            proof {
                assert(rest.subrange(0, k - start) =~= s@.subrange(start as int, k as int));
                assert(rest.subrange(k - start + 1, rest.len() as int) =~= s@.subrange(
                    k + 1,
                    n as int,
                ));
                assert(pieces(rest, c) == seq![s@.subrange(start as int, k as int)] + pieces(
                    s@.subrange(k + 1, n as int),
                    c,
                ));
                assert(char_views(res@) + pieces(s@.subrange(k + 1, n as int), c) =~= pieces(
                    s@,
                    c,
                ));
            }
            start = k + 1;
        } else {
            proof {
                assert(rest =~= s@.subrange(start as int, k as int));
                assert(char_views(res@) =~= pieces(s@, c));
            }
            return res;
        }
    }
}

/// The pieces that are not empty (see `drop_empty`).
fn without_empty(ps: Vec<Vec<char>>) -> (res: Vec<Vec<char>>)
    ensures
        char_views(res@) == drop_empty(char_views(ps@)),
{
    let ghost all = char_views(ps@);
    let mut res: Vec<Vec<char>> = Vec::new();
    let mut rest = ps;
    let n = rest.len();
    let mut i: usize = 0;
    while i < n
        invariant
            n == all.len(),
            i <= n,
            rest@.len() == n - i,
            char_views(rest@) == all.subrange(i as int, n as int),
            char_views(res@) == drop_empty(all.take(i as int)),
        decreases n - i,
    {
        let ghost old_rest = rest@;
        assert(char_views(old_rest)[0] == all[i as int]);
        let p = rest.remove(0);
        proof {
            assert(p@ == all[i as int]);
            assert(all.take(i + 1).drop_last() =~= all.take(i as int));
        }
        let ghost before = char_views(res@);
        if p.len() > 0 {
            res.push(p);
            assert(char_views(res@) =~= before.push(all[i as int]));
        }
        proof {
            assert(rest@ =~= old_rest.drop_first());
            assert forall|j: int| 0 <= j < rest@.len() implies #[trigger] char_views(rest@)[j]
                == all.subrange(i + 1, n as int)[j] by {
                assert(char_views(rest@)[j] == char_views(old_rest)[j + 1]);
                assert(all.subrange(i as int, n as int)[j + 1] == all.subrange(i + 1, n as int)[j]);
            }
            assert(char_views(rest@) =~= all.subrange(i + 1, n as int));
        }
        i += 1;
    }
    assert(all.take(n as int) =~= all);
    res
}

/// Whether every character is a decimal digit.
pub open spec fn all_digits(s: Seq<char>) -> bool {
    forall|i: int| 0 <= i < s.len() ==> '0' <= #[trigger] s[i] <= '9'
}

/// The number that the decimal digits `s` write.
pub open spec fn digits_value(s: Seq<char>) -> int
    decreases s.len(),
{
    if s.len() == 0 {
        0
    } else {
        digits_value(s.drop_last()) * 10 + (s.last() as int - '0' as int)
    }
}

/// The seconds that a timestamp field gives: up to eighteen digits, after
/// an optional minus sign; anything else gives 0.
pub open spec fn seconds_value(s: Seq<char>) -> i64 {
    if 1 <= s.len() <= MAX_DIGITS && all_digits(s) {
        digits_value(s) as i64
    } else if 2 <= s.len() <= MAX_DIGITS + 1 && s[0] == '-' && all_digits(s.drop_first()) {
        (-digits_value(s.drop_first())) as i64
    } else {
        0
    }
}

proof fn lemma_digits_bound(s: Seq<char>)
    requires
        all_digits(s),
    ensures
        0 <= digits_value(s) < vstd::arithmetic::power::pow(10, s.len()),
    decreases s.len(),
{
    vstd::arithmetic::power::lemma_pow_positive(10, s.len());
    if s.len() > 0 {
        let t = s.drop_last();
        assert(all_digits(t)) by {
            assert forall|i: int| 0 <= i < t.len() implies '0' <= #[trigger] t[i] <= '9' by {
                assert(t[i] == s[i]);
            }
        }
        lemma_digits_bound(t);
        vstd::arithmetic::power::lemma_pow_adds(10, t.len(), 1);
        vstd::arithmetic::power::lemma_pow1(10);
        let d = s.last() as int - '0' as int;
        let v = digits_value(t);
        let p = vstd::arithmetic::power::pow(10, t.len());
        assert(0 <= d <= 9);
        assert(v * 10 + d < p * 10) by (nonlinear_arith)
            requires
                0 <= v < p,
                0 <= d <= 9,
        ;
        assert(0 <= v * 10 + d) by (nonlinear_arith)
            requires
                0 <= v,
                0 <= d,
        ;
    }
}

proof fn lemma_pow10_18()
    ensures
        vstd::arithmetic::power::pow(10, 18) == 1_000_000_000_000_000_000,
{
    reveal_with_fuel(vstd::arithmetic::power::pow, 19);
}

proof fn lemma_pow_monotone(a: nat, b: nat)
    requires
        a <= b,
    ensures
        vstd::arithmetic::power::pow(10, a) <= vstd::arithmetic::power::pow(10, b),
{
    vstd::arithmetic::power::lemma_pow_increases(10, a, b);
}

/// The value of the decimal digits `cs`, of which there are at most eighteen.
fn digits_of(cs: &Vec<char>, from: usize) -> (res: i64)
    requires
        from <= cs@.len(),
        cs@.len() - from <= MAX_DIGITS,
        all_digits(cs@.subrange(from as int, cs@.len() as int)),
    ensures
        res == digits_value(cs@.subrange(from as int, cs@.len() as int)),
{
    let n = cs.len();
    let ghost all = cs@.subrange(from as int, n as int);
    proof {
        lemma_digits_bound(all);
        lemma_pow10_18();
        lemma_pow_monotone(all.len(), 18);
    }
    let mut v: i64 = 0;
    let mut i = from;
    while i < n
        invariant
            from <= i <= n,
            n == cs@.len(),
            n - from <= MAX_DIGITS,
            all == cs@.subrange(from as int, n as int),
            all_digits(all),
            v == digits_value(all.take(i - from)),
            digits_value(all) < 1_000_000_000_000_000_000,
        decreases n - i,
    {
        let ghost t = all.take(i + 1 - from);
        proof {
            assert(t.drop_last() =~= all.take(i - from));
            assert(t.last() == cs@[i as int]);
            assert(all_digits(t)) by {
                assert forall|j: int| 0 <= j < t.len() implies '0' <= #[trigger] t[j] <= '9' by {
                    assert(t[j] == all[j]);
                }
            }
            lemma_digits_bound(t);
            lemma_pow_monotone(t.len(), 18);
            lemma_pow10_18();
        }
        let d = (cs[i] as u32 - '0' as u32) as i64;
        assert(cs@[i as int] == all[i - from]);
        v = v * 10 + d;
        i += 1;
    }
    assert(all.take(n - from) =~= all);
    v
}

/// The seconds of a timestamp field (see `seconds_value`).
pub fn parse_seconds(cs: &Vec<char>) -> (res: i64)
    ensures
        res == seconds_value(cs@),
{
    let n = cs.len();
    let negative = n >= 1 && cs[0] == '-';
    let from: usize = if negative {
        1
    } else {
        0
    };
    if n <= from || n - from > MAX_DIGITS {
        return 0;
    }
    let mut i = from;
    while i < n
        invariant
            from <= i <= n,
            n == cs@.len(),
            from == (if negative { 1usize } else { 0usize }),
            negative == (n >= 1 && cs@[0] == '-'),
            forall|j: int| from <= j < i ==> '0' <= #[trigger] cs@[j] <= '9',
        decreases n - i,
    {
        if cs[i] < '0' || cs[i] > '9' {
            proof {
                assert(!('0' <= cs@[i as int] <= '9'));
                assert(!all_digits(cs@));
                if negative {
                    assert(!('0' <= cs@[0] <= '9'));
                    assert(cs@.drop_first()[i - 1] == cs@[i as int]);
                    assert(!all_digits(cs@.drop_first()));
                }
            }
            return 0;
        }
        i += 1;
    }
    let ghost body = cs@.subrange(from as int, n as int);
    assert(all_digits(body)) by {
        assert forall|j: int| 0 <= j < body.len() implies '0' <= #[trigger] body[j] <= '9' by {
            assert(body[j] == cs@[from + j]);
        }
    }
    let v = digits_of(cs, from);
    proof {
        lemma_digits_bound(body);
        lemma_pow_monotone(body.len(), 18);
        lemma_pow10_18();
    }
    if negative {
        assert(body =~= cs@.drop_first());
        -v
    } else {
        assert(body =~= cs@);
        if n >= 1 {
            assert(cs@[0] != '-');
        }
        v
    }
}

/// The status of a changed file from its letter.
pub open spec fn status_of(c: char) -> FileStatus {
    if c == 'A' {
        FileStatus::Added
    } else if c == 'D' {
        FileStatus::Deleted
    } else if c == 'C' {
        FileStatus::Conflicted
    } else {
        FileStatus::Modified
    }
}

/// The changed file of an entry: its status letter, then its path.
pub open spec fn file_entry(f: FileChange, e: Seq<char>) -> bool {
    e.len() > 0 && f.status == status_of(e[0]) && f.path@ == e.drop_first()
}

/// A flag field is set.
pub open spec fn flag_set(s: Seq<char>) -> bool {
    s.len() == 1 && s[0] == '1'
}

/// `r` is the row that the fields `f` of a record describe, with its lanes
/// not laid out yet.
pub open spec fn row_of_record(f: Seq<Seq<char>>, r: GraphRow) -> bool {
    &&& f.len() == FIELD_COUNT
    &&& r.commit_id@ == f[0]
    &&& r.commit_id_short@ == f[1]
    &&& r.change_id@ == f[2]
    &&& r.change_id_short@ == f[3]
    &&& r.description@ == f[4]
    &&& r.author@ == f[5]
    &&& r.timestamp@ == f[6]
    &&& r.timestamp_secs == seconds_value(f[7])
    &&& r.is_working_copy == flag_set(f[8])
    &&& r.is_immutable == flag_set(f[9])
    &&& r.has_conflict == flag_set(f[10])
    &&& ids_view(r.parents@) == list_items(f[11], LIST_SEP)
    &&& views(r.bookmarks@) == list_items(f[12], LIST_SEP)
    &&& r.changed_files@.len() == list_items(f[13], ENTRY_SEP).len()
    &&& forall|k: int|
        0 <= k < r.changed_files@.len() ==> file_entry(
            #[trigger] r.changed_files@[k],
            list_items(f[13], ENTRY_SEP)[k],
        )
    &&& r.visual.column == 0
    &&& r.visual.active_lanes@.len() == 0
    &&& r.visual.connector_lanes@.len() == 0
    &&& r.visual.parent_columns@.len() == 0
    &&& r.visual.continuing_lanes@.len() == 0
}

/// The records of a log that have all their fields, as their fields; the
/// piece after the last record end and malformed records are skipped.
pub open spec fn complete_records(recs: Seq<Seq<char>>) -> Seq<Seq<Seq<char>>>
    decreases recs.len(),
{
    if recs.len() == 0 {
        Seq::empty()
    } else {
        let rest = complete_records(recs.drop_last());
        let f = pieces(recs.last(), FIELD_SEP);
        if f.len() == FIELD_COUNT {
            rest.push(f)
        } else {
            rest
        }
    }
}

/// The records of the log `text`.
pub open spec fn log_records(text: Seq<char>) -> Seq<Seq<Seq<char>>> {
    complete_records(pieces(text, RECORD_END))
}

/// The strings of the items of a list field.
fn list_strings(s: &Vec<char>, c: char) -> (res: Vec<String>)
    ensures
        views(res@) == list_items(s@, c),
{
    let items = without_empty(split_on(s, c));
    let mut res: Vec<String> = Vec::new();
    let n = items.len();
    for i in 0..n
        invariant
            n == items@.len(),
            views(res@) == char_views(items@).take(i as int),
    {
        let t = string_of(&items[i]);
        let ghost before = res@;
        res.push(t);
        assert(views(res@) =~= views(before).push(items@[i as int]@));
        assert(char_views(items@).take(i + 1) =~= char_views(items@).take(i as int).push(
            items@[i as int]@,
        ));
    }
    assert(char_views(items@).take(n as int) =~= char_views(items@));
    res
}

/// The changed files of a files field.
fn files_of(s: &Vec<char>) -> (res: Vec<FileChange>)
    ensures
        res@.len() == list_items(s@, ENTRY_SEP).len(),
        forall|k: int|
            0 <= k < res@.len() ==> file_entry(#[trigger] res@[k], list_items(s@, ENTRY_SEP)[k]),
{
    let items = without_empty(split_on(s, ENTRY_SEP));
    let ghost iv = char_views(items@);
    let mut res: Vec<FileChange> = Vec::new();
    let n = items.len();
    for i in 0..n
        invariant
            n == items@.len(),
            iv == char_views(items@),
            iv == list_items(s@, ENTRY_SEP),
            res@.len() == i,
            forall|k: int| 0 <= k < i ==> file_entry(#[trigger] res@[k], iv[k]),
    {
        let e = &items[i];
        assert(e@ == iv[i as int]);
        assert(iv[i as int].len() > 0) by {
            lemma_drop_empty_nonempty(pieces(s@, ENTRY_SEP), i as int);
        }
        let c = e[0];
        let status = if c == 'A' {
            FileStatus::Added
        } else if c == 'D' {
            FileStatus::Deleted
        } else if c == 'C' {
            FileStatus::Conflicted
        } else {
            FileStatus::Modified
        };
        let mut rest: Vec<char> = Vec::new();
        let m = e.len();
        for j in 1..m
            invariant
                m == e@.len(),
                m >= 1,
                rest@ == e@.subrange(1, j as int),
        {
            rest.push(e[j]);
            assert(rest@ =~= e@.subrange(1, j + 1));
        }
        assert(rest@ =~= e@.drop_first());
        res.push(FileChange { path: string_of(&rest), status });
    }
    res
}

proof fn lemma_drop_empty_nonempty(ps: Seq<Seq<char>>, k: int)
    requires
        0 <= k < drop_empty(ps).len(),
    ensures
        drop_empty(ps)[k].len() > 0,
    decreases ps.len(),
{
    if ps.len() > 0 {
        if ps.last().len() == 0 {
            lemma_drop_empty_nonempty(ps.drop_last(), k);
        } else if k < drop_empty(ps.drop_last()).len() {
            lemma_drop_empty_nonempty(ps.drop_last(), k);
        }
    }
}

/// The row that a record's fields describe (see `row_of_record`).
fn row_from_fields(f: &Vec<Vec<char>>) -> (res: GraphRow)
    requires
        f@.len() == FIELD_COUNT,
    ensures
        row_of_record(char_views(f@), res),
{
    let ghost fv = char_views(f@);
    assert(forall|i: int| 0 <= i < FIELD_COUNT ==> #[trigger] fv[i] == f@[i]@);
    let parents_text = list_strings(&f[11], LIST_SEP);
    let mut parents: Vec<CommitId> = Vec::new();
    let n = parents_text.len();
    for i in 0..n
        invariant
            n == parents_text@.len(),
            ids_view(parents@) == views(parents_text@).take(i as int),
    {
        let ghost before = parents@;
        let id = CommitId(parents_text[i].clone());
        parents.push(id);
        assert(ids_view(parents@) =~= ids_view(before).push(parents_text@[i as int]@));
        assert(views(parents_text@).take(i + 1) =~= views(parents_text@).take(i as int).push(
            parents_text@[i as int]@,
        ));
    }
    assert(views(parents_text@).take(n as int) =~= views(parents_text@));
    GraphRow {
        commit_id: CommitId(string_of(&f[0])),
        commit_id_short: string_of(&f[1]),
        change_id: string_of(&f[2]),
        change_id_short: string_of(&f[3]),
        description: string_of(&f[4]),
        author: string_of(&f[5]),
        timestamp: string_of(&f[6]),
        timestamp_secs: parse_seconds(&f[7]),
        is_working_copy: f[8].len() == 1 && f[8][0] == '1',
        is_immutable: f[9].len() == 1 && f[9][0] == '1',
        has_conflict: f[10].len() == 1 && f[10][0] == '1',
        parents,
        bookmarks: list_strings(&f[12], LIST_SEP),
        changed_files: files_of(&f[13]),
        visual: GraphRowVisual::new(),
    }
}

/// The rows of the log `text`, one per complete record, in order (see
/// `log_records` and `row_of_record`).
pub fn parse_log(text: &str) -> (res: Vec<GraphRow>)
    ensures
        res@.len() == log_records(text@).len(),
        forall|k: int| 0 <= k < res@.len() ==> row_of_record(log_records(text@)[k], #[trigger] res@[k]),
{
    let cs = crate::text::chars_of(text);
    let recs = split_on(&cs, RECORD_END);
    let ghost rv = char_views(recs@);
    let mut rows: Vec<GraphRow> = Vec::new();
    let n = recs.len();
    for i in 0..n
        invariant
            n == recs@.len(),
            rv == char_views(recs@),
            rv == pieces(text@, RECORD_END),
            rows@.len() == complete_records(rv.take(i as int)).len(),
            forall|k: int|
                0 <= k < rows@.len() ==> row_of_record(
                    complete_records(rv.take(i as int))[k],
                    #[trigger] rows@[k],
                ),
    {
        proof {
            assert(rv.take(i + 1).drop_last() =~= rv.take(i as int));
            assert(rv.take(i + 1).last() == recs@[i as int]@);
        }
        let fields = split_on(&recs[i], FIELD_SEP);
        if fields.len() == FIELD_COUNT {
            let row = row_from_fields(&fields);
            rows.push(row);
        }
    }
    assert(rv.take(n as int) =~= rv);
    rows
}

/// The working copy's commit among `rows`: that of the first row flagged as
/// the working copy, or empty.
pub open spec fn working_copy_of(rows: Seq<GraphRow>) -> Seq<char> {
    match crate::app::features::vcs::actions::working_copy_row(rows) {
        Some(r) => r.commit_id@,
        None => Seq::empty(),
    }
}

/// The repository status that the log `text` describes, with the
/// repository's name, the current operation and the workspace.
pub fn repo_status_from_log(
    text: &str,
    repo_name: String,
    operation_id: String,
    workspace_id: String,
) -> (res: RepoStatus)
    ensures
        res.repo_name == repo_name,
        res.operation_id == operation_id,
        res.workspace_id == workspace_id,
        res.graph@.len() == log_records(text@).len(),
        forall|k: int|
            0 <= k < res.graph@.len() ==> row_of_record(log_records(text@)[k], #[trigger] res.graph@[k]),
        res.working_copy_id@ == working_copy_of(res.graph@),
{
    let graph = parse_log(text);
    let wc = match crate::app::features::vcs::actions::find_working_copy(&graph) {
        Some(k) => graph[k].commit_id.clone(),
        None => CommitId(String::new()),
    };
    RepoStatus { repo_name, operation_id, workspace_id, working_copy_id: wc, graph }
}

} // verus!
