use vstd::prelude::*;

verus! {

/// Length in bytes of a raw snapshot identifier (a SHA-1 object id).
pub const OID_RAW_LEN: usize = 20;

/// Identifier of one committed snapshot: the raw bytes of its object id.
#[derive(Debug, Clone, PartialEq, Eq)]
pub struct CommitId {
    bytes: Vec<u8>,
}

impl View for CommitId {
    type V = Seq<u8>;

    closed spec fn view(&self) -> Seq<u8> {
        self.bytes@
    }
}

impl CommitId {
    /// A commit id is exactly `OID_RAW_LEN` raw bytes.
    pub open spec fn well_formed(&self) -> bool {
        self@.len() == OID_RAW_LEN
    }

    /// Builds a commit id from raw bytes; succeeds exactly on inputs of
    /// the raw object-id length.
    pub fn from_bytes(bytes: Vec<u8>) -> (r: Option<CommitId>)
        ensures
            bytes@.len() == OID_RAW_LEN ==> (r matches Some(c) && c@ == bytes@
                && c.well_formed()),
            bytes@.len() != OID_RAW_LEN ==> r is None,
    {
        if bytes.len() == OID_RAW_LEN {
            Some(CommitId { bytes })
        } else {
            None
        }
    }

    /// The raw bytes of the identifier.
    pub fn bytes(&self) -> (r: &Vec<u8>)
        ensures
            r@ == self@,
    {
        &self.bytes
    }
}

/// The reference the working tree currently derives from: its full
/// reference name and the snapshot it points to.
#[derive(Debug, Clone, PartialEq, Eq)]
pub struct Head {
    /// Full reference name, such as a branch reference.
    pub name: String,
    /// The snapshot identifier the reference points to.
    pub id: CommitId,
}

} // verus!
