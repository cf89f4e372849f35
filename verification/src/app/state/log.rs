use crate::domain::models::CommitId;
use vstd::prelude::*;

verus! {

/// Which panel has the keyboard focus.
#[derive(PartialEq, Eq, Structural, Clone, Copy, Debug)]
pub enum Panel {
    Graph,
    Diff,
}

/// Selection and scroll position of the revision table.
#[derive(PartialEq, Eq, Structural, Clone, Copy, Debug)]
pub struct TableSelection {
    pub selected: Option<usize>,
    /// Index of the first row shown.
    pub offset: usize,
}

impl TableSelection {
    pub fn new() -> (res: Self)
        ensures
            res == (TableSelection { selected: None, offset: 0 }),
    {
        TableSelection { selected: None, offset: 0 }
    }

    /// The selected row.
    pub fn selected(&self) -> (res: Option<usize>)
        ensures
            res == self.selected,
    {
        self.selected
    }

    /// The first row shown.
    pub fn offset(&self) -> (res: usize)
        ensures
            res == self.offset,
    {
        self.offset
    }

    /// Selects a row; clearing the selection also scrolls back to the top.
    pub fn select(&mut self, index: Option<usize>)
        ensures
            final(self).selected == index,
            final(self).offset == if index is None {
                0
            } else {
                old(self).offset
            },
    {
        self.selected = index;
        if index.is_none() {
            self.offset = 0;
        }
    }
}

/// Diffs already loaded, by commit. Later entries override earlier ones.
#[derive(Debug)]
pub struct DiffCache {
    pub entries: Vec<(CommitId, String)>,
}

/// The cached diff of `id` in `entries`: that of the last entry for it.
pub open spec fn cached_in(entries: Seq<(CommitId, String)>, id: Seq<char>) -> Option<Seq<char>>
    decreases entries.len(),
{
    if entries.len() == 0 {
        None
    } else if entries.last().0@ == id {
        Some(entries.last().1@)
    } else {
        cached_in(entries.drop_last(), id)
    }
}

impl DiffCache {
    pub open spec fn lookup(&self, id: Seq<char>) -> Option<Seq<char>> {
        cached_in(self.entries@, id)
    }

    pub fn new() -> (res: Self)
        ensures
            forall|id: Seq<char>| #[trigger] res.lookup(id) is None,
    {
        DiffCache { entries: Vec::new() }
    }

    /// Stores the diff of a commit.
    pub fn insert(&mut self, id: CommitId, diff: String)
        ensures
            forall|k: Seq<char>|
                #[trigger] final(self).lookup(k) == if k == id@ {
                    Some(diff@)
                } else {
                    old(self).lookup(k)
                },
    {
        let ghost before = self.entries@;
        let ghost idv = id@;
        let ghost dv = diff@;
        self.entries.push((id, diff));
        assert(self.entries@.drop_last() =~= before);
    }

    /// Forgets every diff.
    pub fn clear(&mut self)
        ensures
            forall|id: Seq<char>| #[trigger] final(self).lookup(id) is None,
    {
        self.entries = Vec::new();
    }

    /// The cached diff of a commit.
    pub fn get(&self, id: &CommitId) -> (res: Option<&String>)
        ensures
            match res {
                Some(d) => self.lookup(id@) == Some(d@),
                None => self.lookup(id@) is None,
            },
    {
        let mut i = self.entries.len();
        assert(self.entries@.take(i as int) =~= self.entries@);
        while i > 0
            invariant
                i <= self.entries@.len(),
                cached_in(self.entries@.take(i as int), id@) == self.lookup(id@),
            decreases i,
        {
            proof {
                let t = self.entries@.take(i as int);
                assert(t.drop_last() =~= self.entries@.take(i - 1));
            }
            if self.entries[i - 1].0.same_as(id) {
                return Some(&self.entries[i - 1].1);
            }
            i -= 1;
        }
        None
    }
}

/// State of the revision log panel.
#[derive(Debug)]
pub struct LogState {
    pub list_state: TableSelection,
    pub selected_file_index: Option<usize>,
    pub current_diff: Option<String>,
    pub is_loading_diff: bool,
    pub diff_scroll: u16,
    pub diff_cache: DiffCache,
    /// Revisions marked for a multi-revision operation, without repeats.
    pub selected_ids: Vec<CommitId>,
}

impl LogState {
    pub fn default() -> (res: Self)
        ensures
            res.list_state == (TableSelection { selected: None, offset: 0 }),
            res.selected_file_index is None,
            res.current_diff is None,
            !res.is_loading_diff,
            res.diff_scroll == 0,
            forall|id: Seq<char>| #[trigger] res.diff_cache.lookup(id) is None,
            res.selected_ids@.len() == 0,
    {
        LogState {
            list_state: TableSelection::new(),
            selected_file_index: None,
            current_diff: None,
            is_loading_diff: false,
            diff_scroll: 0,
            diff_cache: DiffCache::new(),
            selected_ids: Vec::new(),
        }
    }

    /// Whether a revision is marked.
    pub fn is_selected(&self, id: &CommitId) -> (res: bool)
        ensures
            res == exists|i: int|
                0 <= i < self.selected_ids@.len() && #[trigger] self.selected_ids@[i]@ == id@,
    {
        let n = self.selected_ids.len();
        for i in 0..n
            invariant
                n == self.selected_ids@.len(),
                forall|j: int| 0 <= j < i ==> #[trigger] self.selected_ids@[j]@ != id@,
        {
            if self.selected_ids[i].same_as(id) {
                return true;
            }
        }
        false
    }
}

} // verus!
