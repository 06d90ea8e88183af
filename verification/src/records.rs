use vstd::prelude::*;

verus! {

/// One repository record as the platform returned it: the `name` field,
/// which steers the rest of the run, held as a plain string beside the full
/// record, which is passed through verbatim to the output file.
pub struct RepoRecord {
    pub name: String,
    pub body: serde_json::Value,
}

/// Extracts each repository's name, in listing order.
pub fn record_names(records: &Vec<RepoRecord>) -> (r: Vec<String>)
    ensures
        r@.len() == records@.len(),
        forall|i: int| 0 <= i < records@.len() ==> r@[i]@ == records@[i].name@,
{
    let mut r: Vec<String> = Vec::new();
    let mut i: usize = 0;
    while i < records.len()
        invariant
            i <= records@.len(),
            r@.len() == i,
            forall|j: int| 0 <= j < i ==> r@[j]@ == records@[j].name@,
        decreases records@.len() - i,
    {
        r.push(records[i].name.clone());
        i = i + 1;
    }
    r
}

/// Extracts each repository's full record, in listing order, for the
/// serializer: the listing file holds the records themselves, not the
/// name-and-record pairs this library works with.
pub fn record_bodies(records: &Vec<RepoRecord>) -> (r: Vec<serde_json::Value>)
    ensures
        r@.len() == records@.len(),
        forall|i: int| 0 <= i < records@.len() ==> r@[i] == records@[i].body,
{
    let mut r: Vec<serde_json::Value> = Vec::new();
    let mut i: usize = 0;
    while i < records.len()
        invariant
            i <= records@.len(),
            r@.len() == i,
            forall|j: int| 0 <= j < i ==> r@[j] == records@[j].body,
        decreases records@.len() - i,
    {
        r.push(records[i].body.clone());
        i = i + 1;
    }
    r
}

} // verus!
