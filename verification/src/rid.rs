use vstd::prelude::*;

verus! {

/// Identifier of a record: the cluster it lives in and its position there.
/// The pair `(-1, -1)` is the empty sentinel used by anonymous documents.
#[derive(Debug, Clone, Copy, PartialEq, Eq, Structural)]
pub struct ORecordID {
    pub cluster: i16,
    pub position: i64,
}

impl ORecordID {
    pub fn new(cluster: i16, position: i64) -> (r: ORecordID)
        ensures
            r.cluster == cluster,
            r.position == position,
    {
        ORecordID { cluster, position }
    }

    pub fn empty() -> (r: ORecordID)
        ensures
            r.cluster == -1i16,
            r.position == -1i64,
    {
        ORecordID { cluster: -1, position: -1 }
    }

    /// The empty sentinel marks a record without an assigned identity.
    pub open spec fn is_empty_spec(&self) -> bool {
        self.cluster == -1i16 && self.position == -1i64
    }
}

} // verus!
