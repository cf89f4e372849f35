use vstd::prelude::*;

verus! {

/// Identifier of a commit (its hexadecimal commit hash).
#[derive(Debug, Eq, Hash)]
pub struct CommitId(pub String);

impl PartialEq for CommitId {
    fn eq(&self, other: &Self) -> (res: bool) {
        self.0 == other.0
    }
}

impl vstd::std_specs::cmp::PartialEqSpecImpl for CommitId {
    open spec fn obeys_eq_spec() -> bool {
        true
    }

    open spec fn eq_spec(&self, other: &Self) -> bool {
        self.0@ == other.0@
    }
}

impl View for CommitId {
    type V = Seq<char>;

    open spec fn view(&self) -> Seq<char> {
        self.0@
    }
}

impl Clone for CommitId {
    fn clone(&self) -> (res: Self)
        ensures
            res == *self,
    {
        CommitId(self.0.clone())
    }
}

impl CommitId {
    /// Compares two identifiers by their text.
    pub fn same_as(&self, other: &CommitId) -> (res: bool)
        ensures
            res == (self@ == other@),
    {
        self.0 == other.0
    }
}

/// The views of a sequence of commit identifiers.
pub open spec fn ids_view(ids: Seq<CommitId>) -> Seq<Seq<char>> {
    ids.map_values(|c: CommitId| c@)
}

/// Some identifier of `ids` has the text `id`.
pub open spec fn holds_id(ids: Seq<CommitId>, id: Seq<char>) -> bool {
    exists|i: int| 0 <= i < ids.len() && #[trigger] ids[i]@ == id
}

/// No two identifiers of `ids` have the same text.
pub open spec fn ids_unique(ids: Seq<CommitId>) -> bool {
    forall|i: int, j: int| 0 <= i < j < ids.len() ==> (#[trigger] ids[i])@ != (#[trigger] ids[j])@
}

/// The identifiers of `ids` as a set: each text once, where it first occurs.
pub open spec fn first_occurrences(ids: Seq<CommitId>) -> Seq<CommitId>
    decreases ids.len(),
{
    if ids.len() == 0 {
        Seq::empty()
    } else {
        let r = first_occurrences(ids.drop_last());
        if holds_id(r, ids.last()@) {
            r
        } else {
            r.push(ids.last())
        }
    }
}

/// The identifiers kept once each are without repeats, and hold the same
/// texts as `ids`.
pub proof fn lemma_first_occurrences(ids: Seq<CommitId>)
    ensures
        ids_unique(first_occurrences(ids)),
        forall|id: Seq<char>| #[trigger] holds_id(first_occurrences(ids), id) == holds_id(ids, id),
        first_occurrences(ids).len() <= ids.len(),
        ids.len() > 0 ==> first_occurrences(ids).len() > 0,
    decreases ids.len(),
{
    if ids.len() > 0 {
        let init = ids.drop_last();
        lemma_first_occurrences(init);
        let r = first_occurrences(init);
        let f = first_occurrences(ids);
        assert forall|id: Seq<char>| #[trigger] holds_id(f, id) == holds_id(ids, id) by {
            assert(holds_id(r, id) == holds_id(init, id));
            if holds_id(ids, id) {
                let i = choose|i: int| 0 <= i < ids.len() && #[trigger] ids[i]@ == id;
                if i < ids.len() - 1 {
                    assert(init[i]@ == id);
                    assert(holds_id(init, id));
                    let j = choose|j: int| 0 <= j < r.len() && #[trigger] r[j]@ == id;
                    assert(f[j] == r[j]);
                    assert(holds_id(f, id));
                } else if !holds_id(r, ids.last()@) {
                    assert(f[r.len() as int]@ == id);
                    assert(holds_id(f, id));
                }
            }
            if holds_id(f, id) {
                let i = choose|i: int| 0 <= i < f.len() && #[trigger] f[i]@ == id;
                if i < r.len() {
                    assert(r[i]@ == id);
                    assert(holds_id(r, id));
                    let j = choose|j: int| 0 <= j < init.len() && #[trigger] init[j]@ == id;
                    assert(ids[j]@ == id);
                } else {
                    assert(ids[ids.len() - 1]@ == id);
                }
                assert(holds_id(ids, id));
            }
        }
        if !holds_id(r, ids.last()@) {
            assert forall|i: int, j: int| 0 <= i < j < f.len() implies (#[trigger] f[i])@ != (
            #[trigger] f[j])@ by {
                if j == r.len() {
                    assert(f[i] == r[i]);
                    if r[i]@ == ids.last()@ {
                        assert(holds_id(r, ids.last()@));
                    }
                } else {
                    assert(f[i] == r[i] && f[j] == r[j]);
                }
            }
        }
    }
}

/// The identifiers of `ids`, each text once (see `first_occurrences`).
pub fn unique_ids(ids: &Vec<CommitId>) -> (res: Vec<CommitId>)
    ensures
        res@ == first_occurrences(ids@),
{
    let mut res: Vec<CommitId> = Vec::new();
    let n = ids.len();
    for i in 0..n
        invariant
            n == ids@.len(),
            res@ == first_occurrences(ids@.take(i as int)),
    {
        assert(ids@.take(i + 1).drop_last() =~= ids@.take(i as int));
        let m = res.len();
        let mut found = false;
        for k in 0..m
            invariant
                m == res@.len(),
                i < n,
                n == ids@.len(),
                found == exists|j: int| 0 <= j < k && #[trigger] res@[j]@ == ids@[i as int]@,
        {
            if res[k].same_as(&ids[i]) {
                found = true;
            }
        }
        if !found {
            res.push(ids[i].clone());
        }
    }
    assert(ids@.take(n as int) =~= ids@);
    res
}

/// Status of a file changed by a revision.
#[derive(PartialEq, Eq, Structural, Clone, Copy, Debug)]
pub enum FileStatus {
    Added,
    Modified,
    Deleted,
    Conflicted,
}

/// A file changed by a revision.
#[derive(Debug)]
pub struct FileChange {
    pub path: String,
    pub status: FileStatus,
}

impl Clone for FileChange {
    fn clone(&self) -> (res: Self)
        ensures
            res == *self,
    {
        FileChange { path: self.path.clone(), status: self.status }
    }
}

/// Lane assignment of one row of the revision graph.
#[derive(Debug)]
pub struct GraphRowVisual {
    /// Lane in which the row's node is drawn.
    pub column: usize,
    /// Lanes occupied when the row is reached (above the node).
    pub active_lanes: Vec<bool>,
    /// Lanes occupied after the row (below the node).
    pub connector_lanes: Vec<bool>,
    /// Lane of each parent, in the order of the parents.
    pub parent_columns: Vec<usize>,
    /// Smallest of the node's lane and its parents' lanes.
    pub parent_min: usize,
    /// Largest of the node's lane and its parents' lanes.
    pub parent_max: usize,
    /// Lanes that continue from one lane to another (from, to).
    pub continuing_lanes: Vec<(usize, usize)>,
}

impl GraphRowVisual {
    pub fn new() -> (res: Self)
        ensures
            res.column == 0,
            res.active_lanes@ == Seq::<bool>::empty(),
            res.connector_lanes@ == Seq::<bool>::empty(),
            res.parent_columns@ == Seq::<usize>::empty(),
            res.parent_min == 0,
            res.parent_max == 0,
            res.continuing_lanes@ == Seq::<(usize, usize)>::empty(),
    {
        GraphRowVisual {
            column: 0,
            active_lanes: Vec::new(),
            connector_lanes: Vec::new(),
            parent_columns: Vec::new(),
            parent_min: 0,
            parent_max: 0,
            continuing_lanes: Vec::new(),
        }
    }
}

impl GraphRowVisual {
    /// Both values hold the same lanes.
    pub open spec fn same(self, other: GraphRowVisual) -> bool {
        &&& self.column == other.column
        &&& self.active_lanes@ == other.active_lanes@
        &&& self.connector_lanes@ == other.connector_lanes@
        &&& self.parent_columns@ == other.parent_columns@
        &&& self.parent_min == other.parent_min
        &&& self.parent_max == other.parent_max
        &&& self.continuing_lanes@ == other.continuing_lanes@
    }
}

impl Clone for GraphRowVisual {
    fn clone(&self) -> (res: Self)
        ensures
            res.same(*self),
    {
        let active_lanes = self.active_lanes.clone();
        assert(active_lanes@ =~= self.active_lanes@);
        let connector_lanes = self.connector_lanes.clone();
        assert(connector_lanes@ =~= self.connector_lanes@);
        let parent_columns = self.parent_columns.clone();
        assert(parent_columns@ =~= self.parent_columns@);
        let mut continuing_lanes: Vec<(usize, usize)> = Vec::new();
        let n = self.continuing_lanes.len();
        for i in 0..n
            invariant
                n == self.continuing_lanes@.len(),
                continuing_lanes@ == self.continuing_lanes@.take(i as int),
        {
            let (a, b) = self.continuing_lanes[i];
            continuing_lanes.push((a, b));
            assert(continuing_lanes@ =~= self.continuing_lanes@.take(i + 1));
        }
        assert(continuing_lanes@ =~= self.continuing_lanes@);
        GraphRowVisual {
            column: self.column,
            active_lanes,
            connector_lanes,
            parent_columns,
            parent_min: self.parent_min,
            parent_max: self.parent_max,
            continuing_lanes,
        }
    }
}

/// One revision of the graph, with what the views show of it.
#[derive(Debug)]
pub struct GraphRow {
    pub commit_id: CommitId,
    pub commit_id_short: String,
    pub change_id: String,
    pub change_id_short: String,
    /// Full description.
    pub description: String,
    pub author: String,
    pub timestamp: String,
    pub timestamp_secs: i64,
    pub is_working_copy: bool,
    pub is_immutable: bool,
    pub has_conflict: bool,
    pub parents: Vec<CommitId>,
    pub bookmarks: Vec<String>,
    pub changed_files: Vec<FileChange>,
    pub visual: GraphRowVisual,
}

impl GraphRow {
    /// A row with the given commit and parents, every other field empty.
    pub fn new(commit_id: CommitId, parents: Vec<CommitId>) -> (res: Self)
        ensures
            res.commit_id == commit_id,
            res.parents == parents,
            res.commit_id_short@ == Seq::<char>::empty(),
            res.change_id@ == Seq::<char>::empty(),
            res.change_id_short@ == Seq::<char>::empty(),
            res.description@ == Seq::<char>::empty(),
            res.author@ == Seq::<char>::empty(),
            res.timestamp@ == Seq::<char>::empty(),
            res.timestamp_secs == 0,
            !res.is_working_copy,
            !res.is_immutable,
            !res.has_conflict,
            res.bookmarks@ == Seq::<String>::empty(),
            res.changed_files@ == Seq::<FileChange>::empty(),
            res.visual.column == 0,
            res.visual.active_lanes@ == Seq::<bool>::empty(),
            res.visual.connector_lanes@ == Seq::<bool>::empty(),
            res.visual.parent_columns@ == Seq::<usize>::empty(),
            res.visual.continuing_lanes@ == Seq::<(usize, usize)>::empty(),
    {
        GraphRow {
            commit_id,
            commit_id_short: String::new(),
            change_id: String::new(),
            change_id_short: String::new(),
            description: String::new(),
            author: String::new(),
            timestamp: String::new(),
            timestamp_secs: 0,
            is_working_copy: false,
            is_immutable: false,
            has_conflict: false,
            parents,
            bookmarks: Vec::new(),
            changed_files: Vec::new(),
            visual: GraphRowVisual::new(),
        }
    }
}

impl Default for GraphRow {
    /// A row of no commit (an empty id) with no parents, every field empty.
    fn default() -> (res: Self)
        ensures
            res.commit_id@ == Seq::<char>::empty(),
            res.parents@ == Seq::<CommitId>::empty(),
            res.description@ == Seq::<char>::empty(),
            !res.is_working_copy,
            !res.is_immutable,
            !res.has_conflict,
            res.bookmarks@ == Seq::<String>::empty(),
            res.changed_files@ == Seq::<FileChange>::empty(),
            res.visual.column == 0,
            res.visual.active_lanes@ == Seq::<bool>::empty(),
            res.visual.connector_lanes@ == Seq::<bool>::empty(),
            res.visual.parent_columns@ == Seq::<usize>::empty(),
            res.visual.continuing_lanes@ == Seq::<(usize, usize)>::empty(),
    {
        GraphRow::new(CommitId(String::new()), Vec::new())
    }
}

impl GraphRow {
    /// Both rows hold the same values.
    pub open spec fn same(self, other: GraphRow) -> bool {
        &&& self.commit_id == other.commit_id
        &&& self.commit_id_short == other.commit_id_short
        &&& self.change_id == other.change_id
        &&& self.change_id_short == other.change_id_short
        &&& self.description == other.description
        &&& self.author == other.author
        &&& self.timestamp == other.timestamp
        &&& self.timestamp_secs == other.timestamp_secs
        &&& self.is_working_copy == other.is_working_copy
        &&& self.is_immutable == other.is_immutable
        &&& self.has_conflict == other.has_conflict
        &&& self.parents@ == other.parents@
        &&& self.bookmarks@ == other.bookmarks@
        &&& self.changed_files@ == other.changed_files@
        &&& self.visual.same(other.visual)
    }
}

impl Clone for GraphRow {
    fn clone(&self) -> (res: Self)
        ensures
            res.same(*self),
    {
        let parents = self.parents.clone();
        assert(parents@ =~= self.parents@);
        let bookmarks = self.bookmarks.clone();
        assert(bookmarks@ =~= self.bookmarks@);
        let changed_files = self.changed_files.clone();
        assert(changed_files@ =~= self.changed_files@);
        GraphRow {
            commit_id: self.commit_id.clone(),
            commit_id_short: self.commit_id_short.clone(),
            change_id: self.change_id.clone(),
            change_id_short: self.change_id_short.clone(),
            description: self.description.clone(),
            author: self.author.clone(),
            timestamp: self.timestamp.clone(),
            timestamp_secs: self.timestamp_secs,
            is_working_copy: self.is_working_copy,
            is_immutable: self.is_immutable,
            has_conflict: self.has_conflict,
            parents,
            bookmarks,
            changed_files,
            visual: self.visual.clone(),
        }
    }
}

/// A loaded view of the repository.
#[derive(Debug)]
pub struct RepoStatus {
    pub repo_name: String,
    pub operation_id: String,
    pub workspace_id: String,
    pub working_copy_id: CommitId,
    pub graph: Vec<GraphRow>,
}

impl RepoStatus {
    /// Both values hold the same repository data (rows compared field by field).
    pub open spec fn same(self, other: RepoStatus) -> bool {
        &&& self.repo_name == other.repo_name
        &&& self.operation_id == other.operation_id
        &&& self.workspace_id == other.workspace_id
        &&& self.working_copy_id == other.working_copy_id
        &&& self.graph@.len() == other.graph@.len()
        &&& forall|i: int| 0 <= i < self.graph@.len() ==> #[trigger] self.graph@[i].same(other.graph@[i])
    }
}

impl Clone for RepoStatus {
    fn clone(&self) -> (res: Self)
        ensures
            res.same(*self),
    {
        let mut graph: Vec<GraphRow> = Vec::new();
        let n = self.graph.len();
        for i in 0..n
            invariant
                n == self.graph@.len(),
                graph@.len() == i,
                forall|j: int| 0 <= j < i ==> #[trigger] graph@[j].same(self.graph@[j]),
        {
            graph.push(self.graph[i].clone());
        }
        RepoStatus {
            repo_name: self.repo_name.clone(),
            operation_id: self.operation_id.clone(),
            workspace_id: self.workspace_id.clone(),
            working_copy_id: self.working_copy_id.clone(),
            graph,
        }
    }
}

} // verus!
