use vstd::prelude::*;

verus! {

/// The body of a successful list-collections response:
/// `{ "result": { "collections": [ { "name": ... }, ... ] } }`.
pub struct CollectionsResponse {
    pub result: CollectionsResult,
}

/// The nested result object of the list-collections response.
pub struct CollectionsResult {
    pub collections: Vec<CollectionInfo>,
}

/// One collection descriptor: its name on the server.
pub struct CollectionInfo {
    pub name: String,
}

/// The body of a successful create-snapshot response:
/// `{ "result": { "name": ... } }`.
pub struct SnapshotResponse {
    pub result: SnapshotResult,
}

/// The nested result object of the create-snapshot response: the
/// server-assigned name of the snapshot that was created.
pub struct SnapshotResult {
    pub name: String,
}

impl CollectionsResponse {
    /// Takes the collection names out of a parsed response, in the listed
    /// order.
    pub fn names(self) -> (r: Vec<String>)
        ensures
            r@.len() == self.result.collections@.len(),
            forall|i: int|
                0 <= i < r@.len() ==> r@[i]@ == self.result.collections@[i].name@,
    {
        let mut cols = self.result.collections;
        let mut r: Vec<String> = Vec::new();
        let n = cols.len();
        let mut i: usize = 0;
        while i < n
            invariant
                i <= n,
                cols@.len() == n - i,
                r@.len() == i,
                forall|j: int|
                    0 <= j < i ==> r@[j]@ == old_collections(self)[j].name@,
                forall|j: int|
                    0 <= j < cols@.len() ==> cols@[j] == old_collections(self)[j + i],
            decreases n - i,
        {
            let c = cols.remove(0);
            r.push(c.name);
            i = i + 1;
        }
        r
    }
}

/// The descriptor sequence a response was parsed from; names `self.result
/// .collections@` so that loop invariants can quote it after the vector has
/// been moved out.
pub open spec fn old_collections(resp: CollectionsResponse) -> Seq<CollectionInfo> {
    resp.result.collections@
}

} // verus!
