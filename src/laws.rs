use vstd::prelude::*;
use crate::types::{
    Collection, CollectionUuid, SegmentFlushInfo, SegmentScope, SegmentType, SegmentUuid,
    SegmentView,
};
use crate::store::{
    SysDbView, all_segments_known, all_tenants_known, collection_filter, flushed_segment,
    flushed_view, limited, segment_filter, tenant_databases,
};

verus! {

/// The arguments of one flush for a given tenant.
pub struct FlushCall {
    pub collection_id: CollectionUuid,
    pub log_position: i64,
    pub collection_version: i32,
    pub infos: Seq<SegmentFlushInfo>,
    pub total_records_post_compaction: u64,
}

/// The catalog after the flushes `calls` of tenant `tenant_id`, in order.
pub open spec fn flush_all(v: SysDbView, tenant_id: String, calls: Seq<FlushCall>) -> SysDbView
    decreases calls.len(),
{
    if calls.len() == 0 {
        v
    } else {
        let prior = flush_all(v, tenant_id, calls.drop_last());
        let c = calls.last();
        flushed_view(
            prior,
            tenant_id,
            c.collection_id,
            c.log_position,
            c.collection_version,
            c.infos,
            c.total_records_post_compaction,
        )
    }
}

/// Whether each flush of `calls`, made in order, is one that succeeds: its
/// collection and segments are present and its counters have room to grow.
pub open spec fn all_succeed(v: SysDbView, tenant_id: String, calls: Seq<FlushCall>) -> bool
    decreases calls.len(),
{
    if calls.len() == 0 {
        true
    } else {
        let prior = flush_all(v, tenant_id, calls.drop_last());
        let c = calls.last();
        &&& all_succeed(v, tenant_id, calls.drop_last())
        &&& prior.has_collection(c.collection_id)
        &&& all_segments_known(prior, c.infos)
        &&& c.collection_version < i32::MAX
        &&& prior.tenant_time(tenant_id@) < i64::MAX
    }
}

proof fn lemma_flushed_segment_keeps_id(s: SegmentView, infos: Seq<SegmentFlushInfo>)
    ensures
        flushed_segment(s, infos).id == s.id,
    decreases infos.len(),
{
    if infos.len() > 0 {
        lemma_flushed_segment_keeps_id(s, infos.drop_last());
    }
}

/// One successful flush keeps the catalog well formed and every collection
/// where it stands; the flushed collection takes the version after
/// `collection_version`, and the tenant's counter goes up by exactly one.
pub proof fn lemma_flush_step(
    v: SysDbView,
    tenant_id: String,
    collection_id: CollectionUuid,
    log_position: i64,
    collection_version: i32,
    infos: Seq<SegmentFlushInfo>,
    total: u64,
)
    requires
        v.wf(),
        v.has_collection(collection_id),
        all_segments_known(v, infos),
        collection_version < i32::MAX,
        v.tenant_time(tenant_id@) < i64::MAX,
    ensures
        ({
            let w = flushed_view(v, tenant_id, collection_id, log_position, collection_version, infos, total);
            &&& w.wf()
            &&& w.collections.len() == v.collections.len()
            &&& forall|i: int| 0 <= i < v.collections.len()
                ==> #[trigger] w.collections[i].collection_id == v.collections[i].collection_id
            &&& forall|id: CollectionUuid| #[trigger] v.has_collection(id) ==> w.has_collection(id)
                && w.collection_index(id) == v.collection_index(id)
            &&& w.collections[w.collection_index(collection_id)].version == collection_version + 1
            &&& w.has_tenant(tenant_id@)
            &&& w.tenant_time(tenant_id@) == v.tenant_time(tenant_id@) + 1
        }),
{
    let w = flushed_view(v, tenant_id, collection_id, log_position, collection_version, infos, total);
    let ci = v.collection_index(collection_id);
    assert(forall|i: int| 0 <= i < v.collections.len()
        ==> #[trigger] w.collections[i].collection_id == v.collections[i].collection_id);
    assert forall|i: int| 0 <= i < v.segments.len() implies #[trigger] w.segments[i].id == v.segments[i].id by {
        lemma_flushed_segment_keeps_id(v.segments[i], infos);
    }
    assert forall|i: int, j: int|
        0 <= i < w.collections.len() && 0 <= j < w.collections.len()
            && #[trigger] w.collections[i].collection_id
            == #[trigger] w.collections[j].collection_id implies i == j by {
        assert(v.collections[i].collection_id == w.collections[i].collection_id);
        assert(v.collections[j].collection_id == w.collections[j].collection_id);
    }
    assert forall|i: int, j: int|
        0 <= i < w.segments.len() && 0 <= j < w.segments.len()
            && #[trigger] w.segments[i].id == #[trigger] w.segments[j].id implies i == j by {
        assert(v.segments[i].id == w.segments[i].id);
        assert(v.segments[j].id == w.segments[j].id);
    }
    assert forall|id: CollectionUuid| #[trigger] v.has_collection(id) implies w.has_collection(id)
        && w.collection_index(id) == v.collection_index(id) by {
        let k = v.collection_index(id);
        assert(w.collections[k].collection_id == id);
        let m = w.collection_index(id);
        assert(v.collections[m].collection_id == w.collections[m].collection_id);
    }
    if v.has_tenant(tenant_id@) {
        let ti = v.tenant_index(tenant_id@);
        assert forall|i: int, j: int|
            0 <= i < w.tenants.len() && 0 <= j < w.tenants.len()
                && #[trigger] w.tenants[i].id@ == #[trigger] w.tenants[j].id@ implies i == j by {
            assert(v.tenants[i].id@ == w.tenants[i].id@);
            assert(v.tenants[j].id@ == w.tenants[j].id@);
        }
        assert(w.tenants[ti].id@ == tenant_id@);
        let m = w.tenant_index(tenant_id@);
        assert(v.tenants[m].id@ == w.tenants[m].id@);
    } else {
        let last = v.tenants.len() as int;
        assert forall|i: int, j: int|
            0 <= i < w.tenants.len() && 0 <= j < w.tenants.len()
                && #[trigger] w.tenants[i].id@ == #[trigger] w.tenants[j].id@ implies i == j by {
            if i < last && j < last {
                assert(v.tenants[i].id@ == w.tenants[i].id@);
                assert(v.tenants[j].id@ == w.tenants[j].id@);
            } else if i < last {
                assert(v.tenants[i].id@ == w.tenants[i].id@);
            } else if j < last {
                assert(v.tenants[j].id@ == w.tenants[j].id@);
            }
        }
        assert(w.tenants[last].id@ == tenant_id@);
        let m = w.tenant_index(tenant_id@);
        assert(m == last);
    }
}

/// After N successful flushes for a tenant, its compaction counter is its
/// value before them (0 for a tenant not seen yet) plus N.
pub proof fn lemma_compaction_counter_counts_flushes(
    v: SysDbView,
    tenant_id: String,
    calls: Seq<FlushCall>,
)
    requires
        v.wf(),
        all_succeed(v, tenant_id, calls),
    ensures
        flush_all(v, tenant_id, calls).wf(),
        flush_all(v, tenant_id, calls).tenant_time(tenant_id@) == v.tenant_time(tenant_id@)
            + calls.len(),
    decreases calls.len(),
{
    if calls.len() > 0 {
        lemma_compaction_counter_counts_flushes(v, tenant_id, calls.drop_last());
        let prior = flush_all(v, tenant_id, calls.drop_last());
        let c = calls.last();
        lemma_flush_step(
            prior,
            tenant_id,
            c.collection_id,
            c.log_position,
            c.collection_version,
            c.infos,
            c.total_records_post_compaction,
        );
    }
}

/// After N successful flushes of one collection, each made with the version
/// that the collection holds at that moment, its version is the version it
/// held before them plus N.
pub proof fn lemma_version_counts_flushes(
    v: SysDbView,
    tenant_id: String,
    collection_id: CollectionUuid,
    calls: Seq<FlushCall>,
)
    requires
        v.wf(),
        v.has_collection(collection_id),
        all_succeed(v, tenant_id, calls),
        forall|k: int| 0 <= k < calls.len() ==> (#[trigger] calls[k]).collection_id == collection_id
            && calls[k].collection_version == v.collections[v.collection_index(
            collection_id,
        )].version + k,
    ensures
        ({
            let w = flush_all(v, tenant_id, calls);
            &&& w.wf()
            &&& w.has_collection(collection_id)
            &&& w.collection_index(collection_id) == v.collection_index(collection_id)
            &&& w.collections[w.collection_index(collection_id)].version == v.collections[v.collection_index(
                collection_id,
            )].version + calls.len()
        }),
    decreases calls.len(),
{
    if calls.len() > 0 {
        let rest = calls.drop_last();
        assert forall|k: int| 0 <= k < rest.len() implies (#[trigger] rest[k]).collection_id
            == collection_id && rest[k].collection_version == v.collections[v.collection_index(
            collection_id,
        )].version + k by {
            assert(rest[k] == calls[k]);
        }
        lemma_version_counts_flushes(v, tenant_id, collection_id, rest);
        let prior = flush_all(v, tenant_id, rest);
        let c = calls.last();
        assert(c == calls[calls.len() - 1]);
        lemma_flush_step(
            prior,
            tenant_id,
            c.collection_id,
            c.log_position,
            c.collection_version,
            c.infos,
            c.total_records_post_compaction,
        );
    }
}

/// With all four filters set, a listing of collections holds only records
/// that meet all four, and every record that meets them.
pub proof fn lemma_filter_all_set(
    cs: Seq<Collection>,
    collection_id: CollectionUuid,
    name: String,
    tenant: String,
    database: String,
)
    ensures
        ({
            let r = cs.filter(
                collection_filter(Some(collection_id), Some(name), Some(tenant), Some(database)),
            );
            &&& forall|i: int| 0 <= i < r.len() ==> (#[trigger] r[i]).collection_id == collection_id
                && r[i].name@ == name@ && r[i].tenant@ == tenant@ && r[i].database@ == database@
            &&& forall|i: int|
                0 <= i < cs.len() && (#[trigger] cs[i]).collection_id == collection_id
                    && cs[i].name@ == name@ && cs[i].tenant@ == tenant@ && cs[i].database@
                    == database@ ==> r.contains(cs[i])
        }),
{
    let pred = collection_filter(Some(collection_id), Some(name), Some(tenant), Some(database));
    cs.filter_lemma(pred);
    let r = cs.filter(pred);
    assert forall|i: int| 0 <= i < r.len() implies (#[trigger] r[i]).collection_id == collection_id
        && r[i].name@ == name@ && r[i].tenant@ == tenant@ && r[i].database@ == database@ by {
        assert(pred(r[i]));
    }
    assert forall|i: int|
        0 <= i < cs.len() && (#[trigger] cs[i]).collection_id == collection_id && cs[i].name@
            == name@ && cs[i].tenant@ == tenant@ && cs[i].database@ == database@ implies r.contains(
        cs[i],
    ) by {
        assert(pred(cs[i]));
    }
}

/// With no filter set, a listing of collections holds every record, in the
/// order in which the catalog holds them.
pub proof fn lemma_filter_none_set(cs: Seq<Collection>)
    ensures
        cs.filter(collection_filter(None, None, None, None)) == cs,
    decreases cs.len(),
{
    reveal(Seq::filter);
    if cs.len() > 0 {
        lemma_filter_none_set(cs.drop_last());
        assert(cs.drop_last().push(cs.last()) =~= cs);
    }
}

/// A lookup of compaction counters that names a tenant unknown to the catalog
/// is refused as a whole, whatever the other tenants are.
pub proof fn lemma_unknown_tenant_refuses(v: SysDbView, tenant_ids: Seq<String>, k: int)
    requires
        0 <= k < tenant_ids.len(),
        !v.has_tenant(tenant_ids[k]@),
    ensures
        !all_tenants_known(v, tenant_ids),
{
}

/// Every query's answer is fixed by the catalog's contents and its arguments:
/// asked again of a catalog with the same contents, it answers the same (the
/// ids of listed databases aside, which are fresh each time).
pub proof fn lemma_queries_repeat(
    v1: SysDbView,
    v2: SysDbView,
    collection_id: Option<CollectionUuid>,
    name: Option<String>,
    tenant: Option<String>,
    database: Option<String>,
    segment_id: Option<SegmentUuid>,
    segment_type: Option<SegmentType>,
    scope: Option<SegmentScope>,
    collection: CollectionUuid,
    db_tenant: Seq<char>,
    limit: Option<u32>,
    tenant_ids: Seq<String>,
    size_of: CollectionUuid,
)
    requires
        v1 == v2,
    ensures
        v1.collections.filter(collection_filter(collection_id, name, tenant, database))
            == v2.collections.filter(collection_filter(collection_id, name, tenant, database)),
        v1.segments.filter(segment_filter(segment_id, segment_type, scope, collection))
            == v2.segments.filter(segment_filter(segment_id, segment_type, scope, collection)),
        limited(tenant_databases(v1.collections, db_tenant), limit) == limited(
            tenant_databases(v2.collections, db_tenant),
            limit,
        ),
        all_tenants_known(v1, tenant_ids) == all_tenants_known(v2, tenant_ids),
        forall|k: int|
            0 <= k < tenant_ids.len() ==> v1.tenant_time(#[trigger] tenant_ids[k]@) == v2.tenant_time(
                tenant_ids[k]@,
            ),
        v1.has_collection(size_of) == v2.has_collection(size_of),
        v1.has_collection(size_of) ==> v1.collections[v1.collection_index(
            size_of,
        )].total_records_post_compaction == v2.collections[v2.collection_index(
            size_of,
        )].total_records_post_compaction,
{
}

} // verus!
