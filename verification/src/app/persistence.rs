//! The recent filters as they are stored between sessions.
use crate::app::features::navigation::views;
use vstd::prelude::*;

verus! {

/// The stored list of recent revset filters, most recent first.
#[derive(Debug)]
pub struct RecentFilters {
    pub filters: Vec<String>,
}

impl RecentFilters {
    /// The filters to store for a list of recent filters (a copy).
    pub fn from_filters(filters: &Vec<String>) -> (res: Self)
        ensures
            views(res.filters@) == views(filters@),
    {
        let mut copy: Vec<String> = Vec::new();
        let n = filters.len();
        for i in 0..n
            invariant
                n == filters@.len(),
                views(copy@) == views(filters@.take(i as int)),
        {
            let ghost before = copy@;
            let item = filters[i].clone();
            copy.push(item);
            assert(copy@ == before.push(filters@[i as int]));
            assert(filters@.take(i + 1) == filters@.take(i as int).push(filters@[i as int]));
            assert(views(copy@) =~= views(before).push(filters@[i as int]@));
            assert(views(filters@.take(i + 1)) =~= views(filters@.take(i as int)).push(
                filters@[i as int]@,
            ));
        }
        assert(filters@.take(n as int) =~= filters@);
        RecentFilters { filters: copy }
    }
}

} // verus!
