use vstd::prelude::*;
use vstd::string::StringExecFns;

use crate::error::SegmentConversionError;

verus! {

/// The closed set of storage-engine kinds a segment can be backed by.
#[derive(Clone, Copy, Debug, PartialEq, Eq, Structural)]
pub enum SegmentType {
    HnswDistributed,
    BlockfileMetadata,
    BlockfileRecord,
    Sqlite,
}

/// The canonical wire string of each segment kind.
pub open spec fn wire_name(t: SegmentType) -> Seq<char> {
    match t {
        SegmentType::HnswDistributed => "urn:chroma:segment/vector/hnsw-distributed"@,
        SegmentType::BlockfileRecord => "urn:chroma:segment/record/blockfile"@,
        SegmentType::Sqlite => "urn:chroma:segment/metadata/sqlite"@,
        SegmentType::BlockfileMetadata => "urn:chroma:segment/metadata/blockfile"@,
    }
}

/// The segment kind whose canonical wire string is `s`, if any.
pub open spec fn type_of_wire(s: Seq<char>) -> Option<SegmentType> {
    if s == wire_name(SegmentType::HnswDistributed) {
        Some(SegmentType::HnswDistributed)
    } else if s == wire_name(SegmentType::BlockfileRecord) {
        Some(SegmentType::BlockfileRecord)
    } else if s == wire_name(SegmentType::Sqlite) {
        Some(SegmentType::Sqlite)
    } else if s == wire_name(SegmentType::BlockfileMetadata) {
        Some(SegmentType::BlockfileMetadata)
    } else {
        None
    }
}

/// Round trip of the taxonomy: resolving the canonical wire string of any
/// kind gives back that same kind.
pub proof fn lemma_wire_round_trip(t: SegmentType)
    ensures
        type_of_wire(wire_name(t)) == Some(t),
{
    reveal_strlit("urn:chroma:segment/vector/hnsw-distributed");
    reveal_strlit("urn:chroma:segment/record/blockfile");
    reveal_strlit("urn:chroma:segment/metadata/sqlite");
    reveal_strlit("urn:chroma:segment/metadata/blockfile");
    assert(wire_name(SegmentType::HnswDistributed).len() == 42);
    assert(wire_name(SegmentType::BlockfileRecord).len() == 35);
    assert(wire_name(SegmentType::Sqlite).len() == 34);
    assert(wire_name(SegmentType::BlockfileMetadata).len() == 37);
}

/// A string that is no kind's canonical wire string resolves to no kind.
pub proof fn lemma_unknown_wire(s: Seq<char>)
    requires
        forall|t: SegmentType| s != wire_name(t),
    ensures
        type_of_wire(s) is None,
{
    assert(s != wire_name(SegmentType::HnswDistributed));
    assert(s != wire_name(SegmentType::BlockfileRecord));
    assert(s != wire_name(SegmentType::Sqlite));
    assert(s != wire_name(SegmentType::BlockfileMetadata));
}

impl SegmentType {
    /// The canonical wire string of this kind.
    pub fn to_canonical_string(&self) -> (r: String)
        ensures
            r@ == wire_name(*self),
    {
        match self {
            SegmentType::HnswDistributed => String::from_str(
                "urn:chroma:segment/vector/hnsw-distributed",
            ),
            SegmentType::BlockfileRecord => String::from_str("urn:chroma:segment/record/blockfile"),
            SegmentType::Sqlite => String::from_str("urn:chroma:segment/metadata/sqlite"),
            SegmentType::BlockfileMetadata => String::from_str(
                "urn:chroma:segment/metadata/blockfile",
            ),
        }
    }

    /// Resolves a wire string to its segment kind; any string outside the
    /// canonical set is an invalid segment type.
    pub fn try_from(s: &str) -> (r: Result<SegmentType, SegmentConversionError>)
        ensures
            match type_of_wire(s@) {
                Some(t) => r matches Ok(x) && x == t,
                None => r matches Err(SegmentConversionError::InvalidSegmentType),
            },
    {
        let given = s.to_owned();
        if given == SegmentType::HnswDistributed.to_canonical_string() {
            Ok(SegmentType::HnswDistributed)
        } else if given == SegmentType::BlockfileRecord.to_canonical_string() {
            Ok(SegmentType::BlockfileRecord)
        } else if given == SegmentType::Sqlite.to_canonical_string() {
            Ok(SegmentType::Sqlite)
        } else if given == SegmentType::BlockfileMetadata.to_canonical_string() {
            Ok(SegmentType::BlockfileMetadata)
        } else {
            Err(SegmentConversionError::InvalidSegmentType)
        }
    }
}

} // verus!
