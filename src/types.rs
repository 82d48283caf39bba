use vstd::prelude::*;
use vstd::string::*;

verus! {

/// Identifier of a collection (the 128 bits of its UUID).
#[derive(Clone, Copy, Debug, PartialEq, Eq, Hash, Structural)]
pub struct CollectionUuid(pub u128);

/// Identifier of a segment (the 128 bits of its UUID).
#[derive(Clone, Copy, Debug, PartialEq, Eq, Hash, Structural)]
pub struct SegmentUuid(pub u128);

/// The semantic role of a segment within its collection.
#[derive(Clone, Copy, Debug, PartialEq, Eq, Hash, Structural)]
pub enum SegmentScope {
    Vector,
    Metadata,
    Record,
    Sqlite,
}

/// The storage implementation behind a segment.
#[derive(Clone, Copy, Debug, PartialEq, Eq, Hash, Structural)]
pub enum SegmentType {
    BlockfileMetadata,
    BlockfileRecord,
    HnswDistributed,
    HnswLocalMemory,
    HnswLocalPersisted,
    Sqlite,
    Spann,
}

/// The tag of each segment type, as callers spell it.
pub open spec fn segment_type_urn(t: SegmentType) -> Seq<char> {
    match t {
        SegmentType::BlockfileMetadata => "urn:chroma:segment/metadata/blockfile"@,
        SegmentType::BlockfileRecord => "urn:chroma:segment/record/blockfile"@,
        SegmentType::HnswDistributed => "urn:chroma:segment/vector/hnsw-distributed"@,
        SegmentType::HnswLocalMemory => "urn:chroma:segment/vector/hnsw-local-memory"@,
        SegmentType::HnswLocalPersisted => "urn:chroma:segment/vector/hnsw-local-persisted"@,
        SegmentType::Sqlite => "urn:chroma:segment/metadata/sqlite"@,
        SegmentType::Spann => "urn:chroma:segment/vector/spann"@,
    }
}

/// The segment type whose tag is `s`, if any.
pub open spec fn parse_segment_type(s: Seq<char>) -> Option<SegmentType> {
    if s == segment_type_urn(SegmentType::BlockfileMetadata) {
        Some(SegmentType::BlockfileMetadata)
    } else if s == segment_type_urn(SegmentType::BlockfileRecord) {
        Some(SegmentType::BlockfileRecord)
    } else if s == segment_type_urn(SegmentType::HnswDistributed) {
        Some(SegmentType::HnswDistributed)
    } else if s == segment_type_urn(SegmentType::HnswLocalMemory) {
        Some(SegmentType::HnswLocalMemory)
    } else if s == segment_type_urn(SegmentType::HnswLocalPersisted) {
        Some(SegmentType::HnswLocalPersisted)
    } else if s == segment_type_urn(SegmentType::Sqlite) {
        Some(SegmentType::Sqlite)
    } else if s == segment_type_urn(SegmentType::Spann) {
        Some(SegmentType::Spann)
    } else {
        None
    }
}

/// Why a segment type tag was refused.
#[derive(Clone, Copy, Debug, PartialEq, Eq, Structural)]
pub enum SegmentConversionError {
    InvalidSegmentType,
}

impl SegmentType {
    /// Reads a segment type from its tag.
    pub fn try_from_str(s: &String) -> (r: Result<SegmentType, SegmentConversionError>)
        ensures
            r == (match parse_segment_type(s@) {
                Some(t) => Ok::<SegmentType, SegmentConversionError>(t),
                None => Err(SegmentConversionError::InvalidSegmentType),
            }),
    {
        if *s == String::from_str("urn:chroma:segment/metadata/blockfile") {
            Ok(SegmentType::BlockfileMetadata)
        } else if *s == String::from_str("urn:chroma:segment/record/blockfile") {
            Ok(SegmentType::BlockfileRecord)
        } else if *s == String::from_str("urn:chroma:segment/vector/hnsw-distributed") {
            Ok(SegmentType::HnswDistributed)
        } else if *s == String::from_str("urn:chroma:segment/vector/hnsw-local-memory") {
            Ok(SegmentType::HnswLocalMemory)
        } else if *s == String::from_str("urn:chroma:segment/vector/hnsw-local-persisted") {
            Ok(SegmentType::HnswLocalPersisted)
        } else if *s == String::from_str("urn:chroma:segment/metadata/sqlite") {
            Ok(SegmentType::Sqlite)
        } else if *s == String::from_str("urn:chroma:segment/vector/spann") {
            Ok(SegmentType::Spann)
        } else {
            Err(SegmentConversionError::InvalidSegmentType)
        }
    }
}

/// A catalog record of a collection.
#[derive(Clone, Debug, PartialEq, Eq)]
pub struct Collection {
    pub collection_id: CollectionUuid,
    pub name: String,
    pub tenant: String,
    pub database: String,
    pub log_position: i64,
    pub version: i32,
    pub total_records_post_compaction: u64,
}

impl Collection {
    /// A copy of the record, field for field.
    pub fn duplicate(&self) -> (r: Collection)
        ensures
            r == *self,
    {
        Collection {
            collection_id: self.collection_id,
            name: self.name.clone(),
            tenant: self.tenant.clone(),
            database: self.database.clone(),
            log_position: self.log_position,
            version: self.version,
            total_records_post_compaction: self.total_records_post_compaction,
        }
    }
}

/// A copy of a list of strings, element for element.
pub fn copy_strings(v: &Vec<String>) -> (r: Vec<String>)
    ensures
        r@ == v@,
{
    let mut r: Vec<String> = Vec::new();
    let mut i: usize = 0;
    while i < v.len()
        invariant
            i <= v@.len(),
            r@ == v@.subrange(0, i as int),
        decreases v@.len() - i,
    {
        r.push(v[i].clone());
        i = i + 1;
        assert(r@ =~= v@.subrange(0, i as int));
    }
    assert(v@.subrange(0, v@.len() as int) =~= v@);
    r
}

/// What a segment holds, with its storage locations as a sequence.
pub struct SegmentView {
    pub id: SegmentUuid,
    pub segment_type: SegmentType,
    pub scope: SegmentScope,
    pub collection: CollectionUuid,
    pub file_path: Seq<String>,
}

/// A physical storage unit that belongs to one collection.
#[derive(Clone, Debug)]
pub struct Segment {
    pub id: SegmentUuid,
    pub segment_type: SegmentType,
    pub scope: SegmentScope,
    pub collection: CollectionUuid,
    pub file_path: Vec<String>,
}

impl View for Segment {
    type V = SegmentView;

    open spec fn view(&self) -> SegmentView {
        SegmentView {
            id: self.id,
            segment_type: self.segment_type,
            scope: self.scope,
            collection: self.collection,
            file_path: self.file_path@,
        }
    }
}

impl Segment {
    /// A copy of the segment, field for field.
    pub fn duplicate(&self) -> (r: Segment)
        ensures
            r@ == self@,
    {
        Segment {
            id: self.id,
            segment_type: self.segment_type,
            scope: self.scope,
            collection: self.collection,
            file_path: copy_strings(&self.file_path),
        }
    }
}

/// A database, as a listing of a tenant's databases reports it.
#[derive(Clone, Debug, PartialEq, Eq)]
pub struct Database {
    pub id: u128,
    pub name: String,
    pub tenant: String,
}

/// A tenant with the counter of its last compaction.
#[derive(Clone, Debug, PartialEq, Eq)]
pub struct Tenant {
    pub id: String,
    pub last_compaction_time: i64,
}

/// The new storage locations of one segment, as a flush reports them.
#[derive(Clone, Debug)]
pub struct SegmentFlushInfo {
    pub segment_id: SegmentUuid,
    pub file_paths: Vec<String>,
}

/// What a successful flush reports.
#[derive(Clone, Copy, Debug, PartialEq, Eq, Structural)]
pub struct FlushCompactionResponse {
    pub collection_id: CollectionUuid,
    pub collection_version: i32,
    pub last_compaction_time: i64,
}

impl FlushCompactionResponse {
    pub fn new(collection_id: CollectionUuid, collection_version: i32, last_compaction_time: i64) -> (r: Self)
        ensures
            r.collection_id == collection_id,
            r.collection_version == collection_version,
            r.last_compaction_time == last_compaction_time,
    {
        FlushCompactionResponse { collection_id, collection_version, last_compaction_time }
    }
}

/// The versions of one collection that a caller names for deletion.
#[derive(Clone, Debug)]
pub struct VersionListForCollection {
    pub tenant_id: String,
    pub database_id: String,
    pub collection_id: String,
    pub versions: Vec<i64>,
}

/// Why a flush was refused.
#[derive(Clone, Copy, Debug, PartialEq, Eq, Structural)]
pub enum FlushCompactionError {
    CollectionNotFound,
    SegmentNotFound,
}

/// Why a lookup of compaction counters was refused.
#[derive(Clone, Copy, Debug, PartialEq, Eq, Structural)]
pub enum GetLastCompactionTimeError {
    TenantNotFound,
}

/// Why a segment listing was refused.
#[derive(Clone, Copy, Debug, PartialEq, Eq, Structural)]
pub enum GetSegmentsError {
    MalformedType(SegmentConversionError),
}

/// Why a collection's size could not be given.
#[derive(Clone, Debug, PartialEq, Eq)]
pub enum GetCollectionSizeError {
    NotFound(String),
}

} // verus!
