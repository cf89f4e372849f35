use vstd::prelude::*;

verus! {

broadcast use vstd::string::group_string_axioms;

/// The texts of the header bar.
#[derive(Debug)]
pub struct HeaderState {
    pub repo_text: String,
    pub branch_text: String,
    pub stats_text: String,
    pub wc_text: String,
    pub op_text: String,
}

impl Default for HeaderState {
    /// The header before any repository is loaded.
    fn default() -> (res: Self)
        ensures
            res.repo_text@ == " no repo "@,
            res.branch_text@ == " (detached) "@,
            res.stats_text@ == Seq::<char>::empty(),
            res.wc_text@ == " Loading... "@,
            res.op_text@ == " OP: ........ "@,
    {
        HeaderState {
            repo_text: " no repo ".to_string(),
            branch_text: " (detached) ".to_string(),
            stats_text: String::new(),
            wc_text: " Loading... ".to_string(),
            op_text: " OP: ........ ".to_string(),
        }
    }
}

} // verus!
