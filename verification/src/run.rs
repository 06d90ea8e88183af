use vstd::prelude::*;
use crate::paths::{issues_file, issues_file_spec, repos_file, repos_file_spec};

verus! {

/// The views of a vector of owned strings.
pub open spec fn views_of(names: Seq<String>) -> Seq<Seq<char>> {
    names.map_values(|n: String| n@)
}

/// Every file a fully successful run over these repository names writes, in
/// the order it writes them: the repository listing first, then one issue
/// file per repository, in listing order. One listing file plus one file
/// per repository: exactly `names.len() + 1` files.
pub open spec fn planned_paths(dir: Seq<char>, names: Seq<Seq<char>>) -> Seq<Seq<char>> {
    Seq::new(
        names.len() + 1,
        |i: int|
            if i == 0 {
                repos_file_spec(dir)
            } else {
                issues_file_spec(dir, names[i - 1])
            },
    )
}

/// Builds the full run's output files, in write order.
pub fn planned_files(dir: &str, names: &Vec<String>) -> (r: Vec<String>)
    ensures
        r@.len() == names@.len() + 1,
        views_of(r@) == planned_paths(dir@, views_of(names@)),
{
    let mut r: Vec<String> = Vec::new();
    r.push(repos_file(dir));
    let mut i: usize = 0;
    while i < names.len()
        invariant
            i <= names@.len(),
            r@.len() == i + 1,
            r@[0]@ == repos_file_spec(dir@),
            forall|j: int| 1 <= j <= i ==> r@[j]@ == issues_file_spec(dir@, names@[j - 1]@),
        decreases names@.len() - i,
    {
        r.push(issues_file(dir, names[i].as_str()));
        i = i + 1;
    }
    proof {
        let rv = views_of(r@);
        let pp = planned_paths(dir@, views_of(names@));
        assert forall|k: int| 0 <= k < rv.len() implies rv[k] == pp[k] by {
            if k > 0 {
                assert(r@[k]@ == issues_file_spec(dir@, names@[k - 1]@));
            }
        }
        assert(rv =~= pp);
    }
    r
}

/// The files on disk after a run that wrote the repository listing and then
/// finished the issue files of the first `completed` repositories before
/// stopping: exactly the first `completed + 1` planned files. A page-fetch
/// failure at the repository after them aborts the run and leaves exactly
/// these files in place.
pub fn written_files(dir: &str, names: &Vec<String>, completed: usize) -> (r: Vec<String>)
    requires
        completed <= names@.len(),
    ensures
        r@.len() == completed + 1,
        views_of(r@) == planned_paths(dir@, views_of(names@)).take(completed + 1),
{
    let mut r: Vec<String> = Vec::new();
    r.push(repos_file(dir));
    let mut i: usize = 0;
    while i < completed
        invariant
            completed <= names@.len(),
            i <= completed,
            r@.len() == i + 1,
            r@[0]@ == repos_file_spec(dir@),
            forall|j: int| 1 <= j <= i ==> r@[j]@ == issues_file_spec(dir@, names@[j - 1]@),
        decreases completed - i,
    {
        r.push(issues_file(dir, names[i].as_str()));
        i = i + 1;
    }
    proof {
        let rv = views_of(r@);
        let pf = planned_paths(dir@, views_of(names@)).take(completed + 1);
        assert forall|k: int| 0 <= k < rv.len() implies rv[k] == pf[k] by {
            if k > 0 {
                assert(r@[k]@ == issues_file_spec(dir@, names@[k - 1]@));
            }
        }
        assert(rv =~= pf);
    }
    r
}

/// A run that fails while fetching issues leaves exactly the planned files
/// of the repositories it finished, in write order: what was written is a
/// prefix of what a full run would have written, and nothing else exists.
pub proof fn lemma_abort_leaves_prefix(dir: Seq<char>, names: Seq<Seq<char>>, completed: int)
    requires
        0 <= completed <= names.len(),
    ensures
        planned_paths(dir, names).take(completed + 1).len() == completed + 1,
        forall|k: int| 0 <= k <= completed ==> planned_paths(dir, names).take(completed + 1)[k]
            == planned_paths(dir, names)[k],
{
}

/// A fully successful run writes exactly one file per repository plus the
/// listing file, and is the same as a run that finished every repository.
pub proof fn lemma_full_run_files(dir: Seq<char>, names: Seq<Seq<char>>)
    ensures
        planned_paths(dir, names).len() == names.len() + 1,
        planned_paths(dir, names).take(names.len() as int + 1) == planned_paths(dir, names),
{
    assert(planned_paths(dir, names).take(names.len() as int + 1) =~= planned_paths(dir, names));
}

} // verus!
