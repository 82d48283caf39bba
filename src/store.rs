use vstd::prelude::*;
use crate::types::{
    Collection, CollectionUuid, Database, FlushCompactionError, FlushCompactionResponse,
    GetCollectionSizeError, GetLastCompactionTimeError, GetSegmentsError, Segment,
    SegmentConversionError, SegmentFlushInfo, SegmentScope, SegmentType, SegmentUuid,
    SegmentView, Tenant, VersionListForCollection, copy_strings, parse_segment_type,
};

verus! {

/// What the catalog holds: its collections, its segments and the compaction
/// counters of its tenants, each in the order in which it was first added.
pub struct SysDbView {
    pub collections: Seq<Collection>,
    pub segments: Seq<SegmentView>,
    pub tenants: Seq<Tenant>,
}

impl SysDbView {
    /// No two records of one kind share a key.
    pub open spec fn wf(self) -> bool {
        &&& forall|i: int, j: int|
            0 <= i < self.collections.len() && 0 <= j < self.collections.len()
                && #[trigger] self.collections[i].collection_id
                == #[trigger] self.collections[j].collection_id ==> i == j
        &&& forall|i: int, j: int|
            0 <= i < self.segments.len() && 0 <= j < self.segments.len()
                && #[trigger] self.segments[i].id == #[trigger] self.segments[j].id ==> i == j
        &&& forall|i: int, j: int|
            0 <= i < self.tenants.len() && 0 <= j < self.tenants.len()
                && #[trigger] self.tenants[i].id@ == #[trigger] self.tenants[j].id@ ==> i == j
    }

    pub open spec fn has_collection(self, id: CollectionUuid) -> bool {
        exists|i: int| 0 <= i < self.collections.len() && #[trigger] self.collections[i].collection_id == id
    }

    /// Where the collection `id` stands (meaningful where it is present).
    pub open spec fn collection_index(self, id: CollectionUuid) -> int {
        choose|i: int| 0 <= i < self.collections.len() && #[trigger] self.collections[i].collection_id == id
    }

    pub open spec fn has_segment(self, id: SegmentUuid) -> bool {
        exists|i: int| 0 <= i < self.segments.len() && #[trigger] self.segments[i].id == id
    }

    /// Where the segment `id` stands (meaningful where it is present).
    pub open spec fn segment_index(self, id: SegmentUuid) -> int {
        choose|i: int| 0 <= i < self.segments.len() && #[trigger] self.segments[i].id == id
    }

    pub open spec fn has_tenant(self, t: Seq<char>) -> bool {
        exists|i: int| 0 <= i < self.tenants.len() && #[trigger] self.tenants[i].id@ == t
    }

    /// Where the tenant `t` stands (meaningful where it is present).
    pub open spec fn tenant_index(self, t: Seq<char>) -> int {
        choose|i: int| 0 <= i < self.tenants.len() && #[trigger] self.tenants[i].id@ == t
    }

    /// The compaction counter of tenant `t`; 0 for a tenant not seen yet.
    pub open spec fn tenant_time(self, t: Seq<char>) -> i64 {
        if self.has_tenant(t) {
            self.tenants[self.tenant_index(t)].last_compaction_time
        } else {
            0
        }
    }
}

/// Whether collection `c` meets every filter that is set.
pub open spec fn collection_matches(
    c: Collection,
    collection_id: Option<CollectionUuid>,
    name: Option<String>,
    tenant: Option<String>,
    database: Option<String>,
) -> bool {
    &&& (match collection_id {
        Some(id) => id == c.collection_id,
        None => true,
    })
    &&& (match name {
        Some(n) => n@ == c.name@,
        None => true,
    })
    &&& (match tenant {
        Some(t) => t@ == c.tenant@,
        None => true,
    })
    &&& (match database {
        Some(d) => d@ == c.database@,
        None => true,
    })
}

pub open spec fn collection_filter(
    collection_id: Option<CollectionUuid>,
    name: Option<String>,
    tenant: Option<String>,
    database: Option<String>,
) -> spec_fn(Collection) -> bool {
    |c: Collection| collection_matches(c, collection_id, name, tenant, database)
}

/// Whether segment `s` meets every filter that is set; it must belong to
/// `collection` in any case.
pub open spec fn segment_matches(
    s: SegmentView,
    id: Option<SegmentUuid>,
    segment_type: Option<SegmentType>,
    scope: Option<SegmentScope>,
    collection: CollectionUuid,
) -> bool {
    &&& (match id {
        Some(i) => i == s.id,
        None => true,
    })
    &&& (match segment_type {
        Some(t) => t == s.segment_type,
        None => true,
    })
    &&& (match scope {
        Some(sc) => sc == s.scope,
        None => true,
    })
    &&& collection == s.collection
}

pub open spec fn segment_filter(
    id: Option<SegmentUuid>,
    segment_type: Option<SegmentType>,
    scope: Option<SegmentScope>,
    collection: CollectionUuid,
) -> spec_fn(SegmentView) -> bool {
    |s: SegmentView| segment_matches(s, id, segment_type, scope, collection)
}

/// Segment `s` after the storage locations of `infos` were applied in order:
/// each entry for its id replaces the locations wholesale.
pub open spec fn flushed_segment(s: SegmentView, infos: Seq<SegmentFlushInfo>) -> SegmentView
    decreases infos.len(),
{
    if infos.len() == 0 {
        s
    } else {
        let prior = flushed_segment(s, infos.drop_last());
        if infos.last().segment_id == s.id {
            SegmentView { file_path: infos.last().file_paths@, ..prior }
        } else {
            prior
        }
    }
}

/// The catalog after a successful flush of collection `collection_id`
/// (present, with every segment of `infos` present).
pub open spec fn flushed_view(
    v: SysDbView,
    tenant_id: String,
    collection_id: CollectionUuid,
    log_position: i64,
    collection_version: i32,
    infos: Seq<SegmentFlushInfo>,
    total_records_post_compaction: u64,
) -> SysDbView {
    SysDbView {
        collections: v.collections.update(
            v.collection_index(collection_id),
            (Collection {
                log_position,
                version: (collection_version + 1) as i32,
                total_records_post_compaction,
                ..v.collections[v.collection_index(collection_id)]
            }),
        ),
        segments: v.segments.map_values(|s: SegmentView| flushed_segment(s, infos)),
        tenants: if v.has_tenant(tenant_id@) {
            v.tenants.update(
                v.tenant_index(tenant_id@),
                (Tenant {
                    last_compaction_time: (v.tenant_time(tenant_id@) + 1) as i64,
                    ..v.tenants[v.tenant_index(tenant_id@)]
                }),
            )
        } else {
            v.tenants.push(Tenant { id: tenant_id, last_compaction_time: 1 })
        },
    }
}

/// Whether every segment that `infos` names is in the catalog.
pub open spec fn all_segments_known(v: SysDbView, infos: Seq<SegmentFlushInfo>) -> bool {
    forall|k: int| 0 <= k < infos.len() ==> v.has_segment(#[trigger] infos[k].segment_id)
}

/// Whether `id` carries the version and variant bits of a random (version 4)
/// UUID.
pub open spec fn is_random_uuid(id: u128) -> bool {
    id & 0xF000C000000000000000u128 == 0x40008000000000000000u128
}

/// Relies on uuid::Uuid::new_v4, read as 128 bits by Uuid::as_u128: random
/// bits with the version nibble set to 4 and the variant bits to 10.
#[verifier::external_body]
fn new_database_id() -> (r: u128)
    ensures
        is_random_uuid(r),
{
    uuid::Uuid::new_v4().as_u128()
}

/// The names of the databases of `tenant`, once each, in the order in which
/// their first collection stands in `cs`.
pub open spec fn tenant_databases(cs: Seq<Collection>, tenant: Seq<char>) -> Seq<Seq<char>>
    decreases cs.len(),
{
    if cs.len() == 0 {
        Seq::empty()
    } else {
        let prior = tenant_databases(cs.drop_last(), tenant);
        let c = cs.last();
        if c.tenant@ == tenant && !prior.contains(c.database@) {
            prior.push(c.database@)
        } else {
            prior
        }
    }
}

/// The first `limit` items of `s` where a positive limit is given, else all.
pub open spec fn limited<A>(s: Seq<A>, limit: Option<u32>) -> Seq<A> {
    match limit {
        Some(l) => if l > 0 && s.len() > l {
            s.subrange(0, l as int)
        } else {
            s
        },
        None => s,
    }
}

pub open spec fn database_names(ds: Seq<Database>) -> Seq<Seq<char>> {
    ds.map_values(|d: Database| d.name@)
}

/// The collection ids of `vs`, once each, in the order of their first entry.
pub open spec fn distinct_collection_ids(vs: Seq<VersionListForCollection>) -> Seq<Seq<char>>
    decreases vs.len(),
{
    if vs.len() == 0 {
        Seq::empty()
    } else {
        let prior = distinct_collection_ids(vs.drop_last());
        if prior.contains(vs.last().collection_id@) {
            prior
        } else {
            prior.push(vs.last().collection_id@)
        }
    }
}

pub open spec fn result_keys(rs: Seq<(String, bool)>) -> Seq<Seq<char>> {
    rs.map_values(|e: (String, bool)| e.0@)
}

/// Whether some database of `ds` is named `name`.
fn has_database_named(ds: &Vec<Database>, name: &String) -> (r: bool)
    ensures
        r == database_names(ds@).contains(name@),
{
    let mut i: usize = 0;
    while i < ds.len()
        invariant
            i <= ds@.len(),
            forall|j: int| 0 <= j < i ==> ds@[j].name@ != name@,
        decreases ds@.len() - i,
    {
        if ds[i].name == *name {
            assert(database_names(ds@)[i as int] == name@);
            return true;
        }
        i = i + 1;
    }
    false
}

/// Whether some entry of `rs` has the key `key`.
fn has_key(rs: &Vec<(String, bool)>, key: &String) -> (r: bool)
    ensures
        r == result_keys(rs@).contains(key@),
{
    let mut i: usize = 0;
    while i < rs.len()
        invariant
            i <= rs@.len(),
            forall|j: int| 0 <= j < i ==> rs@[j].0@ != key@,
        decreases rs@.len() - i,
    {
        if rs[i].0 == *key {
            assert(result_keys(rs@)[i as int] == key@);
            return true;
        }
        i = i + 1;
    }
    false
}

/// Whether `versions` holds `v`.
fn holds_version(versions: &Vec<i64>, v: i64) -> (r: bool)
    ensures
        r == versions@.contains(v),
{
    let mut i: usize = 0;
    while i < versions.len()
        invariant
            i <= versions@.len(),
            forall|j: int| 0 <= j < i ==> versions@[j] != v,
        decreases versions@.len() - i,
    {
        if versions[i] == v {
            return true;
        }
        i = i + 1;
    }
    false
}

/// Whether every tenant of `ids` is known to the catalog.
pub open spec fn all_tenants_known(v: SysDbView, ids: Seq<String>) -> bool {
    forall|k: int| 0 <= k < ids.len() ==> v.has_tenant(#[trigger] ids[k]@)
}

/// The catalog store. Callers that share it between threads hold it behind
/// one lock, so that each operation runs alone.
pub struct TestSysDb {
    collections: Vec<Collection>,
    segments: Vec<Segment>,
    tenant_last_compaction_time: Vec<Tenant>,
}

impl View for TestSysDb {
    type V = SysDbView;

    closed spec fn view(&self) -> SysDbView {
        SysDbView {
            collections: self.collections@,
            segments: self.segments@.map_values(|s: Segment| s@),
            tenants: self.tenant_last_compaction_time@,
        }
    }
}

impl TestSysDb {
    pub open spec fn wf(&self) -> bool {
        self@.wf()
    }

    /// An empty catalog.
    pub fn new() -> (r: Self)
        ensures
            r.wf(),
            r@.collections.len() == 0,
            r@.segments.len() == 0,
            r@.tenants.len() == 0,
    {
        TestSysDb {
            collections: Vec::new(),
            segments: Vec::new(),
            tenant_last_compaction_time: Vec::new(),
        }
    }

    fn find_collection(&self, id: CollectionUuid) -> (r: Option<usize>)
        requires
            self.wf(),
        ensures
            match r {
                Some(i) => self@.has_collection(id) && i == self@.collection_index(id)
                    && i < self@.collections.len(),
                None => !self@.has_collection(id),
            },
    {
        let mut i: usize = 0;
        while i < self.collections.len()
            invariant
                self.wf(),
                i <= self.collections@.len(),
                forall|j: int| 0 <= j < i ==> self.collections@[j].collection_id != id,
            decreases self.collections@.len() - i,
        {
            if self.collections[i].collection_id == id {
                assert(self@.collections[i as int].collection_id == id);
                return Some(i);
            }
            i = i + 1;
        }
        None
    }

    /// Registers `collection`, replacing a record with the same id.
    pub fn add_collection(&mut self, collection: Collection)
        requires
            old(self).wf(),
        ensures
            final(self).wf(),
            final(self)@.collections == (if old(self)@.has_collection(collection.collection_id) {
                old(self)@.collections.update(
                    old(self)@.collection_index(collection.collection_id),
                    collection,
                )
            } else {
                old(self)@.collections.push(collection)
            }),
            final(self)@.segments == old(self)@.segments,
            final(self)@.tenants == old(self)@.tenants,
    {
        match self.find_collection(collection.collection_id) {
            Some(i) => {
                self.collections.set(i, collection);
            },
            None => {
                self.collections.push(collection);
            },
        }
        assert(self@.segments == old(self)@.segments);
        assert(self@.tenants == old(self)@.tenants);
        assert forall|i: int, j: int|
            0 <= i < self@.collections.len() && 0 <= j < self@.collections.len()
                && #[trigger] self@.collections[i].collection_id
                == #[trigger] self@.collections[j].collection_id implies i == j by {
            if i != j && i < old(self)@.collections.len() && j < old(self)@.collections.len() {
                if !old(self)@.has_collection(collection.collection_id) {
                    assert(old(self)@.collections[i].collection_id == self@.collections[i].collection_id);
                }
            }
        }
    }
}

impl TestSysDb {
    fn find_segment(&self, id: SegmentUuid) -> (r: Option<usize>)
        requires
            self.wf(),
        ensures
            match r {
                Some(i) => self@.has_segment(id) && i == self@.segment_index(id)
                    && i < self@.segments.len(),
                None => !self@.has_segment(id),
            },
    {
        let mut i: usize = 0;
        while i < self.segments.len()
            invariant
                self.wf(),
                i <= self.segments@.len(),
                forall|j: int| 0 <= j < i ==> self@.segments[j].id != id,
            decreases self.segments@.len() - i,
        {
            if self.segments[i].id == id {
                assert(self@.segments[i as int].id == id);
                return Some(i);
            }
            i = i + 1;
        }
        None
    }

    fn find_tenant(&self, t: &String) -> (r: Option<usize>)
        requires
            self.wf(),
        ensures
            match r {
                Some(i) => self@.has_tenant(t@) && i == self@.tenant_index(t@)
                    && i < self@.tenants.len(),
                None => !self@.has_tenant(t@),
            },
    {
        let mut i: usize = 0;
        while i < self.tenant_last_compaction_time.len()
            invariant
                self.wf(),
                i <= self.tenant_last_compaction_time@.len(),
                forall|j: int| 0 <= j < i ==> self@.tenants[j].id@ != t@,
            decreases self.tenant_last_compaction_time@.len() - i,
        {
            if self.tenant_last_compaction_time[i].id == *t {
                assert(self@.tenants[i as int].id@ == t@);
                return Some(i);
            }
            i = i + 1;
        }
        None
    }

    /// Sets the record count of collection `collection_id`, which must be
    /// present.
    pub fn update_collection_size(&mut self, collection_id: CollectionUuid, collection_size: u64)
        requires
            old(self).wf(),
            old(self)@.has_collection(collection_id),
        ensures
            final(self).wf(),
            final(self)@.collections == old(self)@.collections.update(
                old(self)@.collection_index(collection_id),
                (Collection {
                    total_records_post_compaction: collection_size,
                    ..old(self)@.collections[old(self)@.collection_index(collection_id)]
                }),
            ),
            final(self)@.segments == old(self)@.segments,
            final(self)@.tenants == old(self)@.tenants,
    {
        let i = self.find_collection(collection_id).unwrap();
        let mut c = self.collections[i].duplicate();
        c.total_records_post_compaction = collection_size;
        self.collections.set(i, c);
        assert(self@.segments == old(self)@.segments);
        assert(self@.tenants == old(self)@.tenants);
        assert forall|i: int, j: int|
            0 <= i < self@.collections.len() && 0 <= j < self@.collections.len()
                && #[trigger] self@.collections[i].collection_id
                == #[trigger] self@.collections[j].collection_id implies i == j by {
            assert(old(self)@.collections[i].collection_id == self@.collections[i].collection_id);
            assert(old(self)@.collections[j].collection_id == self@.collections[j].collection_id);
        }
    }

    /// Registers `segment`, replacing a segment with the same id.
    pub fn add_segment(&mut self, segment: Segment)
        requires
            old(self).wf(),
        ensures
            final(self).wf(),
            final(self)@.segments == (if old(self)@.has_segment(segment.id) {
                old(self)@.segments.update(old(self)@.segment_index(segment.id), segment@)
            } else {
                old(self)@.segments.push(segment@)
            }),
            final(self)@.collections == old(self)@.collections,
            final(self)@.tenants == old(self)@.tenants,
    {
        let ghost sv = segment@;
        match self.find_segment(segment.id) {
            Some(i) => {
                self.segments.set(i, segment);
                assert(self@.segments =~= old(self)@.segments.update(i as int, sv));
            },
            None => {
                self.segments.push(segment);
                assert(self@.segments =~= old(self)@.segments.push(sv));
            },
        }
        assert(self@.collections == old(self)@.collections);
        assert(self@.tenants == old(self)@.tenants);
        assert forall|i: int, j: int|
            0 <= i < self@.segments.len() && 0 <= j < self@.segments.len()
                && #[trigger] self@.segments[i].id == #[trigger] self@.segments[j].id implies i
                == j by {
            if i != j && i < old(self)@.segments.len() && j < old(self)@.segments.len() {
                if !old(self)@.has_segment(sv.id) {
                    assert(old(self)@.segments[i].id == self@.segments[i].id);
                }
            }
        }
    }

    /// Sets the compaction counter of `tenant`, adding the tenant if it is new.
    pub fn add_tenant_last_compaction_time(&mut self, tenant: String, last_compaction_time: i64)
        requires
            old(self).wf(),
        ensures
            final(self).wf(),
            final(self)@.tenants == (if old(self)@.has_tenant(tenant@) {
                old(self)@.tenants.update(
                    old(self)@.tenant_index(tenant@),
                    Tenant { id: tenant, last_compaction_time },
                )
            } else {
                old(self)@.tenants.push(Tenant { id: tenant, last_compaction_time })
            }),
            final(self)@.collections == old(self)@.collections,
            final(self)@.segments == old(self)@.segments,
    {
        let ghost tv = tenant;
        match self.find_tenant(&tenant) {
            Some(i) => {
                self.tenant_last_compaction_time.set(i, Tenant { id: tenant, last_compaction_time });
            },
            None => {
                self.tenant_last_compaction_time.push(Tenant { id: tenant, last_compaction_time });
            },
        }
        assert(self@.collections == old(self)@.collections);
        assert(self@.segments == old(self)@.segments);
        assert forall|i: int, j: int|
            0 <= i < self@.tenants.len() && 0 <= j < self@.tenants.len()
                && #[trigger] self@.tenants[i].id@ == #[trigger] self@.tenants[j].id@ implies i
                == j by {
            if i != j && i < old(self)@.tenants.len() && j < old(self)@.tenants.len() {
                if !old(self)@.has_tenant(tv@) {
                    assert(old(self)@.tenants[i].id@ == self@.tenants[i].id@);
                }
            }
        }
    }
}

impl TestSysDb {
    fn filter_collections(
        collection: &Collection,
        collection_id: Option<CollectionUuid>,
        name: &Option<String>,
        tenant: &Option<String>,
        database: &Option<String>,
    ) -> (r: bool)
        ensures
            r == collection_matches(*collection, collection_id, *name, *tenant, *database),
    {
        if let Some(id) = collection_id {
            if id != collection.collection_id {
                return false;
            }
        }
        if let Some(n) = name {
            if *n != collection.name {
                return false;
            }
        }
        if let Some(t) = tenant {
            if *t != collection.tenant {
                return false;
            }
        }
        if let Some(d) = database {
            if *d != collection.database {
                return false;
            }
        }
        true
    }

    fn filter_segments(
        segment: &Segment,
        id: Option<SegmentUuid>,
        segment_type: Option<SegmentType>,
        scope: Option<SegmentScope>,
        collection: CollectionUuid,
    ) -> (r: bool)
        ensures
            r == segment_matches(segment@, id, segment_type, scope, collection),
    {
        if let Some(i) = id {
            if i != segment.id {
                return false;
            }
        }
        if let Some(t) = segment_type {
            if t != segment.segment_type {
                return false;
            }
        }
        if let Some(sc) = scope {
            if sc != segment.scope {
                return false;
            }
        }
        collection == segment.collection
    }

    /// The collections that meet every filter that is set, in the order in
    /// which the catalog holds them; with no filter set, all of them.
    pub fn get_collections(
        &self,
        collection_id: Option<CollectionUuid>,
        name: Option<String>,
        tenant: Option<String>,
        database: Option<String>,
    ) -> (r: Vec<Collection>)
        ensures
            r@ == self@.collections.filter(collection_filter(collection_id, name, tenant, database)),
    {
        let ghost pred = collection_filter(collection_id, name, tenant, database);
        let mut out: Vec<Collection> = Vec::new();
        let mut i: usize = 0;
        while i < self.collections.len()
            invariant
                i <= self.collections@.len(),
                pred == collection_filter(collection_id, name, tenant, database),
                out@ == self@.collections.subrange(0, i as int).filter(pred),
            decreases self.collections@.len() - i,
        {
            proof {
                reveal(Seq::filter);
                assert(self@.collections.subrange(0, i + 1).drop_last()
                    =~= self@.collections.subrange(0, i as int));
            }
            if TestSysDb::filter_collections(&self.collections[i], collection_id, &name, &tenant, &database) {
                out.push(self.collections[i].duplicate());
            }
            i = i + 1;
        }
        assert(self@.collections.subrange(0, i as int) =~= self@.collections);
        out
    }

    /// The segments of `collection` that meet every filter that is set, in the
    /// order in which the catalog holds them. A type filter is read as a
    /// segment type tag and is combined with the other filters, as they are
    /// with one another; a tag that names no type is refused.
    pub fn get_segments(
        &self,
        id: Option<SegmentUuid>,
        segment_type: Option<String>,
        scope: Option<SegmentScope>,
        collection: CollectionUuid,
    ) -> (r: Result<Vec<Segment>, GetSegmentsError>)
        ensures
            match segment_type {
                Some(t) => parse_segment_type(t@) is None <==> r is Err,
                None => r is Ok,
            },
            r is Err ==> r == Err::<Vec<Segment>, GetSegmentsError>(
                GetSegmentsError::MalformedType(SegmentConversionError::InvalidSegmentType),
            ),
            r is Ok ==> r->Ok_0@.map_values(|s: Segment| s@) == self@.segments.filter(
                segment_filter(
                    id,
                    match segment_type {
                        Some(t) => parse_segment_type(t@),
                        None => None,
                    },
                    scope,
                    collection,
                ),
            ),
    {
        let parsed: Option<SegmentType> = match segment_type {
            Some(t) => match SegmentType::try_from_str(&t) {
                Ok(st) => Some(st),
                Err(e) => {
                    return Err(GetSegmentsError::MalformedType(e));
                },
            },
            None => None,
        };
        let ghost pred = segment_filter(id, parsed, scope, collection);
        let mut out: Vec<Segment> = Vec::new();
        let mut i: usize = 0;
        while i < self.segments.len()
            invariant
                i <= self.segments@.len(),
                pred == segment_filter(id, parsed, scope, collection),
                out@.map_values(|s: Segment| s@) == self@.segments.subrange(0, i as int).filter(pred),
            decreases self.segments@.len() - i,
        {
            proof {
                reveal(Seq::filter);
                assert(self@.segments.subrange(0, i + 1).drop_last()
                    =~= self@.segments.subrange(0, i as int));
            }
            if TestSysDb::filter_segments(&self.segments[i], id, parsed, scope, collection) {
                let ghost before = out@;
                out.push(self.segments[i].duplicate());
                assert(out@.map_values(|s: Segment| s@)
                    =~= before.map_values(|s: Segment| s@).push(self@.segments[i as int]));
            }
            i = i + 1;
        }
        assert(self@.segments.subrange(0, i as int) =~= self@.segments);
        Ok(out)
    }

    /// The number of records of collection `collection_id` after its last
    /// compaction.
    pub fn get_collection_size(&self, collection_id: CollectionUuid) -> (r: Result<
        usize,
        GetCollectionSizeError,
    >)
        requires
            self.wf(),
        ensures
            self@.has_collection(collection_id) ==> r == Ok::<usize, GetCollectionSizeError>(
                self@.collections[self@.collection_index(
                    collection_id,
                )].total_records_post_compaction as usize,
            ),
            !self@.has_collection(collection_id) ==> (match r {
                Err(GetCollectionSizeError::NotFound(m)) => m@ == "Collection not found"@,
                Ok(_) => false,
            }),
    {
        match self.find_collection(collection_id) {
            Some(i) => Ok(self.collections[i].total_records_post_compaction as usize),
            None => Err(GetCollectionSizeError::NotFound(String::from_str("Collection not found"))),
        }
    }

    /// The compaction counter of each tenant of `tenant_ids`, in their order;
    /// refused as a whole where one of them is unknown.
    pub fn get_last_compaction_time(&self, tenant_ids: Vec<String>) -> (r: Result<
        Vec<Tenant>,
        GetLastCompactionTimeError,
    >)
        requires
            self.wf(),
        ensures
            r is Ok <==> all_tenants_known(self@, tenant_ids@),
            r is Err ==> r == Err::<Vec<Tenant>, GetLastCompactionTimeError>(
                GetLastCompactionTimeError::TenantNotFound,
            ),
            r is Ok ==> r->Ok_0@.len() == tenant_ids@.len() && forall|k: int|
                0 <= k < tenant_ids@.len() ==> (#[trigger] r->Ok_0@[k]).id == tenant_ids@[k]
                    && r->Ok_0@[k].last_compaction_time == self@.tenant_time(tenant_ids@[k]@),
    {
        let mut out: Vec<Tenant> = Vec::new();
        let mut k: usize = 0;
        while k < tenant_ids.len()
            invariant
                self.wf(),
                k <= tenant_ids@.len(),
                out@.len() == k,
                forall|j: int| 0 <= j < k ==> self@.has_tenant(#[trigger] tenant_ids@[j]@),
                forall|j: int|
                    0 <= j < k ==> (#[trigger] out@[j]).id == tenant_ids@[j]
                        && out@[j].last_compaction_time == self@.tenant_time(tenant_ids@[j]@),
            decreases tenant_ids@.len() - k,
        {
            match self.find_tenant(&tenant_ids[k]) {
                Some(i) => {
                    out.push(Tenant {
                        id: tenant_ids[k].clone(),
                        last_compaction_time: self.tenant_last_compaction_time[i].last_compaction_time,
                    });
                },
                None => {
                    return Err(GetLastCompactionTimeError::TenantNotFound);
                },
            }
            k = k + 1;
        }
        Ok(out)
    }
}

impl TestSysDb {
    /// Records a finished compaction of collection `collection_id`, as one
    /// step: the collection takes `log_position`, the version that follows
    /// `collection_version` and `total_records_post_compaction`; each segment
    /// named in `segment_flush_info` takes its new storage locations; the
    /// compaction counter of `tenant_id` goes up by one (from 0 for a new
    /// tenant). Every named segment is looked up before anything is written,
    /// so a refused flush leaves the catalog as it was.
    pub fn flush_compaction(
        &mut self,
        tenant_id: String,
        collection_id: CollectionUuid,
        log_position: i64,
        collection_version: i32,
        segment_flush_info: &[SegmentFlushInfo],
        total_records_post_compaction: u64,
    ) -> (r: Result<FlushCompactionResponse, FlushCompactionError>)
        requires
            old(self).wf(),
            collection_version < i32::MAX,
            old(self)@.tenant_time(tenant_id@) < i64::MAX,
        ensures
            final(self).wf(),
            !old(self)@.has_collection(collection_id) ==> r == Err::<
                FlushCompactionResponse,
                FlushCompactionError,
            >(FlushCompactionError::CollectionNotFound) && final(self)@ == old(self)@,
            old(self)@.has_collection(collection_id) && !all_segments_known(
                old(self)@,
                segment_flush_info@,
            ) ==> r == Err::<FlushCompactionResponse, FlushCompactionError>(
                FlushCompactionError::SegmentNotFound,
            ) && final(self)@ == old(self)@,
            old(self)@.has_collection(collection_id) && all_segments_known(
                old(self)@,
                segment_flush_info@,
            ) ==> {
                &&& r == Ok::<FlushCompactionResponse, FlushCompactionError>(
                    FlushCompactionResponse {
                        collection_id,
                        collection_version: (collection_version + 1) as i32,
                        last_compaction_time: (old(self)@.tenant_time(tenant_id@) + 1) as i64,
                    },
                )
                &&& final(self)@ == flushed_view(
                    old(self)@,
                    tenant_id,
                    collection_id,
                    log_position,
                    collection_version,
                    segment_flush_info@,
                    total_records_post_compaction,
                )
            },
    {
        let ci = match self.find_collection(collection_id) {
            Some(i) => i,
            None => {
                return Err(FlushCompactionError::CollectionNotFound);
            },
        };
        let mut k: usize = 0;
        while k < segment_flush_info.len()
            invariant
                self.wf(),
                *self == *old(self),
                old(self)@.has_collection(collection_id),
                k <= segment_flush_info@.len(),
                forall|j: int|
                    0 <= j < k ==> self@.has_segment(#[trigger] segment_flush_info@[j].segment_id),
            decreases segment_flush_info@.len() - k,
        {
            if self.find_segment(segment_flush_info[k].segment_id).is_none() {
                return Err(FlushCompactionError::SegmentNotFound);
            }
            k = k + 1;
        }

        let new_version = collection_version + 1;
        let mut c = self.collections[ci].duplicate();
        c.log_position = log_position;
        c.version = new_version;
        c.total_records_post_compaction = total_records_post_compaction;
        self.collections.set(ci, c);
        assert(self@.segments == old(self)@.segments);
        assert(self@.tenants == old(self)@.tenants);
        assert forall|i: int, j: int|
            0 <= i < self@.collections.len() && 0 <= j < self@.collections.len()
                && #[trigger] self@.collections[i].collection_id
                == #[trigger] self@.collections[j].collection_id implies i == j by {
            assert(old(self)@.collections[i].collection_id == self@.collections[i].collection_id);
            assert(old(self)@.collections[j].collection_id == self@.collections[j].collection_id);
        }

        let ghost segs0 = old(self)@.segments;
        let ghost colls1 = self@.collections;
        k = 0;
        while k < segment_flush_info.len()
            invariant
                self.wf(),
                k <= segment_flush_info@.len(),
                segs0 == old(self)@.segments,
                all_segments_known(old(self)@, segment_flush_info@),
                self@.collections == colls1,
                self@.tenants == old(self)@.tenants,
                self@.segments.len() == segs0.len(),
                self@.segments == segs0.map_values(
                    |s: SegmentView| flushed_segment(s, segment_flush_info@.subrange(0, k as int)),
                ),
                forall|j: int| 0 <= j < segs0.len() ==> #[trigger] self@.segments[j].id == segs0[j].id,
            decreases segment_flush_info@.len() - k,
        {
            let ghost id = segment_flush_info@[k as int].segment_id;
            let ghost w = old(self)@.segment_index(id);
            assert(old(self)@.has_segment(segment_flush_info@[k as int].segment_id));
            assert(self@.segments[w].id == id);
            let i = self.find_segment(segment_flush_info[k].segment_id).unwrap();
            let ghost before = self@.segments;
            let mut s = self.segments[i].duplicate();
            s.file_path = copy_strings(&segment_flush_info[k].file_paths);
            self.segments.set(i, s);
            proof {
                let pre = segment_flush_info@.subrange(0, k as int);
                let post = segment_flush_info@.subrange(0, k + 1);
                assert(post.drop_last() =~= pre);
                assert(self@.segments =~= before.update(
                    i as int,
                    SegmentView { file_path: segment_flush_info@[k as int].file_paths@, ..before[i as int] },
                ));
                assert forall|j: int| 0 <= j < segs0.len() implies #[trigger] self@.segments[j]
                    == flushed_segment(segs0[j], post) by {
                    if j != i {
                        assert(before[j].id != id);
                    }
                }
                assert(self@.segments =~= segs0.map_values(
                    |s: SegmentView| flushed_segment(s, post),
                ));
                assert(self@.collections == colls1);
                assert(self@.tenants == old(self)@.tenants);
                assert forall|a: int, b: int|
                    0 <= a < self@.segments.len() && 0 <= b < self@.segments.len()
                        && #[trigger] self@.segments[a].id == #[trigger] self@.segments[b].id implies a
                        == b by {
                    assert(before[a].id == self@.segments[a].id);
                    assert(before[b].id == self@.segments[b].id);
                }
            }
            k = k + 1;
        }
        assert(segment_flush_info@.subrange(0, k as int) =~= segment_flush_info@);

        let ghost colls2 = self@.collections;
        let ghost segs2 = self@.segments;
        let last_compaction_time = match self.find_tenant(&tenant_id) {
            Some(i) => {
                let t = self.tenant_last_compaction_time[i].last_compaction_time + 1;
                let tid = self.tenant_last_compaction_time[i].id.clone();
                self.tenant_last_compaction_time.set(i, Tenant { id: tid, last_compaction_time: t });
                t
            },
            None => {
                self.tenant_last_compaction_time.push(Tenant { id: tenant_id, last_compaction_time: 1 });
                1
            },
        };
        assert(self@.collections == colls2);
        assert(self@.segments == segs2);
        assert forall|a: int, b: int|
            0 <= a < self@.tenants.len() && 0 <= b < self@.tenants.len()
                && #[trigger] self@.tenants[a].id@ == #[trigger] self@.tenants[b].id@ implies a
                == b by {
            if a != b && a < old(self)@.tenants.len() && b < old(self)@.tenants.len() {
                assert(old(self)@.tenants[a].id@ == self@.tenants[a].id@);
                assert(old(self)@.tenants[b].id@ == self@.tenants[b].id@);
            }
        }
        Ok(FlushCompactionResponse::new(collection_id, new_version, last_compaction_time))
    }
}

impl TestSysDb {
    /// The databases of `tenant`: one record per distinct database name among
    /// its collections, in the order in which the first collection of each
    /// stands, with a fresh random id. A positive `limit` keeps only the first
    /// `limit` of them. `_offset` is accepted and has no effect.
    pub fn list_databases(&self, tenant: String, limit: Option<u32>, _offset: u32) -> (r: Vec<
        Database,
    >)
        ensures
            database_names(r@) == limited(tenant_databases(self@.collections, tenant@), limit),
            forall|i: int| 0 <= i < r@.len() ==> (#[trigger] r@[i]).tenant == tenant,
            forall|i: int| 0 <= i < r@.len() ==> is_random_uuid(#[trigger] r@[i].id),
    {
        let mut databases: Vec<Database> = Vec::new();
        let mut i: usize = 0;
        while i < self.collections.len()
            invariant
                i <= self.collections@.len(),
                database_names(databases@) == tenant_databases(
                    self@.collections.subrange(0, i as int),
                    tenant@,
                ),
                forall|j: int| 0 <= j < databases@.len() ==> (#[trigger] databases@[j]).tenant == tenant,
                forall|j: int| 0 <= j < databases@.len() ==> is_random_uuid(#[trigger] databases@[j].id),
            decreases self.collections@.len() - i,
        {
            proof {
                assert(self@.collections.subrange(0, i + 1).drop_last()
                    =~= self@.collections.subrange(0, i as int));
            }
            let c = &self.collections[i];
            if c.tenant == tenant && !has_database_named(&databases, &c.database) {
                let ghost before = databases@;
                databases.push(Database {
                    id: new_database_id(),
                    name: c.database.clone(),
                    tenant: tenant.clone(),
                });
                assert(database_names(databases@) =~= database_names(before).push(c.database@));
            }
            i = i + 1;
        }
        assert(self@.collections.subrange(0, i as int) =~= self@.collections);
        if let Some(limit_value) = limit {
            if limit_value > 0 && databases.len() > limit_value as usize {
                let ghost before = databases@;
                databases.truncate(limit_value as usize);
                assert(database_names(databases@) =~= database_names(before).subrange(
                    0,
                    limit_value as int,
                ));
            }
        }
        databases
    }

    /// Refused where the first entry of `versions` holds version 1; accepted
    /// otherwise, the empty list included. Only the first entry is looked at.
    pub fn mark_version_for_deletion(&self, _epoch_id: i64, versions: Vec<VersionListForCollection>) -> (r:
        Result<(), String>)
        ensures
            r is Err <==> versions@.len() > 0 && versions@[0].versions@.contains(1),
            match r {
                Err(m) => m@ == "Failed to mark version for deletion"@,
                Ok(_) => true,
            },
    {
        if versions.len() > 0 && holds_version(&versions[0].versions, 1) {
            Err(String::from_str("Failed to mark version for deletion"))
        } else {
            Ok(())
        }
    }

    /// Reports each collection named in `versions` as deleted: one entry per
    /// distinct collection id, in the order of its first mention, each `true`.
    pub fn delete_collection_version(&self, versions: Vec<VersionListForCollection>) -> (r: Vec<
        (String, bool),
    >)
        ensures
            result_keys(r@) == distinct_collection_ids(versions@),
            forall|i: int| 0 <= i < r@.len() ==> (#[trigger] r@[i]).1,
    {
        let mut results: Vec<(String, bool)> = Vec::new();
        let mut i: usize = 0;
        while i < versions.len()
            invariant
                i <= versions@.len(),
                result_keys(results@) == distinct_collection_ids(versions@.subrange(0, i as int)),
                forall|j: int| 0 <= j < results@.len() ==> (#[trigger] results@[j]).1,
            decreases versions@.len() - i,
        {
            proof {
                assert(versions@.subrange(0, i + 1).drop_last() =~= versions@.subrange(0, i as int));
            }
            if !has_key(&results, &versions[i].collection_id) {
                let ghost before = results@;
                results.push((versions[i].collection_id.clone(), true));
                assert(result_keys(results@) =~= result_keys(before).push(versions@[i as int].collection_id@));
            }
            i = i + 1;
        }
        assert(versions@.subrange(0, i as int) =~= versions@);
        results
    }
}

} // verus!
