//! How the diff panel colours each line of a diff.
//!
//! Lines of the two-column form that `jj` prints carry the old line number in
//! bytes 0..4 and the new one in bytes 4..9, then a colon at byte 9; an added
//! line has no old number and a removed line no new one.
use crate::app::features::navigation::views;
use crate::text::{chars_of, is_whitespace, lines, seq_starts_with, starts_with, text_lines, white_space};
use vstd::prelude::*;
use vstd::utf8::{decode_utf8, encode_utf8, is_continuation_byte};

verus! {

broadcast use vstd::utf8::group_utf8_lib;

/// What a line of a diff shows, which decides its colour.
#[derive(Clone, Copy, Debug, PartialEq, Eq, Structural)]
pub enum DiffLineKind {
    /// A line of the commit's header (ids, author, dates).
    Header,
    /// The title of an added file.
    FileAdded,
    /// The title of a deleted file.
    FileDeleted,
    /// The title of a modified file.
    FileModified,
    /// The mark of lines left out.
    Elided,
    /// A numbered line that only the new version has.
    LineAdded,
    /// A numbered line that only the old version has.
    LineRemoved,
    /// Anything else.
    Context,
}

/// The line starts with one of the header labels.
pub open spec fn is_header_line(l: Seq<char>) -> bool {
    ||| seq_starts_with(l, "Commit ID:"@)
    ||| seq_starts_with(l, "Change ID:"@)
    ||| seq_starts_with(l, "Author:"@)
    ||| seq_starts_with(l, "Author   :"@)
    ||| seq_starts_with(l, "Committer:"@)
    ||| seq_starts_with(l, "Timestamp:"@)
    ||| seq_starts_with(l, "Date:"@)
}

/// The line starts with a header label or a file title or the elision mark.
pub open spec fn is_titled_line(l: Seq<char>) -> bool {
    ||| is_header_line(l)
    ||| seq_starts_with(l, "+ Added"@)
    ||| seq_starts_with(l, "- Deleted"@)
    ||| seq_starts_with(l, "~ Modified"@)
    ||| seq_starts_with(l, "    ..."@)
}

/// The bytes of a numbered line: at least ten, the tenth a colon.
pub open spec fn numbered(b: Seq<u8>) -> bool {
    b.len() >= 10 && b[9] == 58u8
}

/// Every character is white space.
pub open spec fn blank(cs: Seq<char>) -> bool {
    forall|i: int| 0 <= i < cs.len() ==> white_space(#[trigger] cs[i])
}

/// The kind of the diff line `l`.
pub open spec fn line_kind(l: Seq<char>) -> DiffLineKind {
    let b = encode_utf8(l);
    if is_header_line(l) {
        DiffLineKind::Header
    } else if seq_starts_with(l, "+ Added"@) {
        DiffLineKind::FileAdded
    } else if seq_starts_with(l, "- Deleted"@) {
        DiffLineKind::FileDeleted
    } else if seq_starts_with(l, "~ Modified"@) {
        DiffLineKind::FileModified
    } else if seq_starts_with(l, "    ..."@) {
        DiffLineKind::Elided
    } else if numbered(b) {
        if blank(decode_utf8(b.subrange(0, 4))) {
            DiffLineKind::LineAdded
        } else if blank(decode_utf8(b.subrange(4, 9))) {
            DiffLineKind::LineRemoved
        } else {
            DiffLineKind::Context
        }
    } else {
        DiffLineKind::Context
    }
}

/// The columns of `l` can be cut apart: when the line is read as numbered,
/// its fifth byte starts a character.
pub open spec fn columns_cut(l: Seq<char>) -> bool {
    let b = encode_utf8(l);
    !is_titled_line(l) && numbered(b) ==> !is_continuation_byte(b[4])
}

/// Whether every character of `s` is white space.
fn blank_text(s: &str) -> (res: bool)
    ensures
        res == blank(s@),
{
    let cs = chars_of(s);
    let n = cs.len();
    for i in 0..n
        invariant
            n == cs@.len(),
            cs@ == s@,
            forall|j: int| 0 <= j < i ==> white_space(#[trigger] cs@[j]),
    {
        if !is_whitespace(cs[i]) {
            assert(!white_space(s@[i as int]));
            return false;
        }
    }
    true
}

/// The kind of one diff line (see `line_kind`).
pub fn classify_diff_line(line: &str) -> (res: DiffLineKind)
    requires
        columns_cut(line@),
    ensures
        res == line_kind(line@),
{
    if starts_with(line, "Commit ID:") || starts_with(line, "Change ID:") || starts_with(
        line,
        "Author:",
    ) || starts_with(line, "Author   :") || starts_with(line, "Committer:") || starts_with(
        line,
        "Timestamp:",
    ) || starts_with(line, "Date:") {
        return DiffLineKind::Header;
    }
    if starts_with(line, "+ Added") {
        return DiffLineKind::FileAdded;
    }
    if starts_with(line, "- Deleted") {
        return DiffLineKind::FileDeleted;
    }
    if starts_with(line, "~ Modified") {
        return DiffLineKind::FileModified;
    }
    if starts_with(line, "    ...") {
        return DiffLineKind::Elided;
    }
    let b = line.as_bytes();
    let ghost bs = encode_utf8(line@);
    assert(b@ == bs);
    if b.len() >= 10 && b[9] == 58u8 {
        proof {
            assert(vstd::utf8::is_leading_byte_width_1(bs[9]));
            assert(vstd::utf8::is_char_boundary(bs, 9));
        }
        let (head, _rest) = line.split_at(9);
        proof {
            let hb = encode_utf8(head@);
            assert(hb =~= bs.subrange(0, 9));
            assert(hb[4] == bs[4]);
            assert(vstd::utf8::is_char_boundary(hb, 4));
        }
        let (c1, c2) = head.split_at(4);
        proof {
            assert(encode_utf8(c1@) =~= bs.subrange(0, 4));
            assert(encode_utf8(c2@) =~= bs.subrange(4, 9));
            assert(decode_utf8(encode_utf8(c1@)) == c1@);
            assert(decode_utf8(encode_utf8(c2@)) == c2@);
        }
        if blank_text(c1) {
            DiffLineKind::LineAdded
        } else if blank_text(c2) {
            DiffLineKind::LineRemoved
        } else {
            DiffLineKind::Context
        }
    } else {
        DiffLineKind::Context
    }
}

/// Whether the columns of every line of `content` can be cut apart.
pub fn diff_columns_cut(content: &str) -> (res: bool)
    ensures
        res == forall|k: int|
            0 <= k < text_lines(content@).len() ==> columns_cut(#[trigger] text_lines(content@)[k]),
{
    let ls = lines(content);
    let n = ls.len();
    assert(views(ls@) == text_lines(content@));
    for i in 0..n
        invariant
            n == ls@.len(),
            views(ls@) == text_lines(content@),
            forall|k: int| 0 <= k < i ==> columns_cut(#[trigger] text_lines(content@)[k]),
    {
        let line = ls[i].as_str();
        assert(line@ == text_lines(content@)[i as int]);
        let b = line.as_bytes();
        let ghost bs = encode_utf8(line@);
        assert(b@ == bs);
        let titled = starts_with(line, "Commit ID:") || starts_with(line, "Change ID:")
            || starts_with(line, "Author:") || starts_with(line, "Author   :") || starts_with(
            line,
            "Committer:",
        ) || starts_with(line, "Timestamp:") || starts_with(line, "Date:") || starts_with(
            line,
            "+ Added",
        ) || starts_with(line, "- Deleted") || starts_with(line, "~ Modified") || starts_with(
            line,
            "    ...",
        );
        if !titled && b.len() >= 10 && b[9] == 58u8 && 0x80u8 <= b[4] && b[4] <= 0xBFu8 {
            return false;
        }
    }
    true
}

/// The lines of a diff, each with its kind, as the diff panel shows them.
pub fn diff_view_lines(content: &str) -> (res: Vec<(String, DiffLineKind)>)
    requires
        forall|k: int|
            0 <= k < text_lines(content@).len() ==> columns_cut(#[trigger] text_lines(content@)[k]),
    ensures
        res@.len() == text_lines(content@).len(),
        forall|k: int|
            0 <= k < res@.len() ==> (#[trigger] res@[k]).0@ == text_lines(content@)[k] && res@[k].1
                == line_kind(text_lines(content@)[k]),
{
    let ls = lines(content);
    let n = ls.len();
    assert(views(ls@) == text_lines(content@));
    let mut res: Vec<(String, DiffLineKind)> = Vec::new();
    for i in 0..n
        invariant
            n == ls@.len(),
            views(ls@) == text_lines(content@),
            forall|k: int|
                0 <= k < text_lines(content@).len() ==> columns_cut(
                    #[trigger] text_lines(content@)[k],
                ),
            res@.len() == i,
            forall|k: int|
                0 <= k < i ==> (#[trigger] res@[k]).0@ == text_lines(content@)[k] && res@[k].1
                    == line_kind(text_lines(content@)[k]),
    {
        assert(ls@[i as int]@ == text_lines(content@)[i as int]);
        let kind = classify_diff_line(ls[i].as_str());
        res.push((ls[i].clone(), kind));
    }
    res
}

/// The diff panel's content: the diff shown, if any, and how far it is
/// scrolled.
pub struct DiffView<'a> {
    pub diff_content: Option<&'a str>,
    pub scroll_offset: u16,
}

impl<'a> DiffView<'a> {
    /// There is a diff to show: some content that is not empty.
    pub open spec fn has_content(self) -> bool {
        match self.diff_content {
            Some(c) => c@.len() > 0,
            None => false,
        }
    }

    /// The lines of the diff with their kinds (see `diff_view_lines`), or
    /// nothing when there is no diff to show and the panel says so.
    pub fn lines(&self) -> (res: Option<Vec<(String, DiffLineKind)>>)
        requires
            match self.diff_content {
                Some(c) => forall|k: int|
                    0 <= k < text_lines(c@).len() ==> columns_cut(#[trigger] text_lines(c@)[k]),
                None => true,
            },
        ensures
            res is Some == self.has_content(),
            match (res, self.diff_content) {
                (Some(v), Some(c)) => v@.len() == text_lines(c@).len() && forall|k: int|
                    0 <= k < v@.len() ==> (#[trigger] v@[k]).0@ == text_lines(c@)[k] && v@[k].1
                        == line_kind(text_lines(c@)[k]),
                _ => true,
            },
    {
        match self.diff_content {
            Some(c) => {
                if c.is_empty() {
                    None
                } else {
                    Some(diff_view_lines(c))
                }
            },
            None => None,
        }
    }
}

} // verus!
