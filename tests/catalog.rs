use sysdb::store::TestSysDb;
use sysdb::types::{
    Collection, CollectionUuid, FlushCompactionError, GetCollectionSizeError,
    GetLastCompactionTimeError, GetSegmentsError, Segment, SegmentConversionError,
    SegmentFlushInfo, SegmentScope, SegmentType, SegmentUuid, VersionListForCollection,
};

const HNSW: &str = "urn:chroma:segment/vector/hnsw-distributed";
const RECORD: &str = "urn:chroma:segment/record/blockfile";

fn collection(id: u128, name: &str, tenant: &str, database: &str, version: i32) -> Collection {
    Collection {
        collection_id: CollectionUuid(id),
        name: name.to_string(),
        tenant: tenant.to_string(),
        database: database.to_string(),
        log_position: 0,
        version,
        total_records_post_compaction: 0,
    }
}

fn segment(id: u128, collection: u128, t: SegmentType, scope: SegmentScope) -> Segment {
    Segment {
        id: SegmentUuid(id),
        segment_type: t,
        scope,
        collection: CollectionUuid(collection),
        file_path: vec!["old/path".to_string()],
    }
}

fn versions(collection_id: &str, vs: Vec<i64>) -> VersionListForCollection {
    VersionListForCollection {
        tenant_id: "t1".to_string(),
        database_id: "d1".to_string(),
        collection_id: collection_id.to_string(),
        versions: vs,
    }
}

fn flush_info(segment_id: u128, paths: &[&str]) -> SegmentFlushInfo {
    SegmentFlushInfo {
        segment_id: SegmentUuid(segment_id),
        file_paths: paths.iter().map(|p| p.to_string()).collect(),
    }
}

#[test]
fn flush_bumps_version_and_sets_record_count() {
    let mut db = TestSysDb::new();
    db.add_collection(collection(1, "c1", "t1", "d1", 1));
    db.add_segment(segment(10, 1, SegmentType::HnswDistributed, SegmentScope::Vector));
    let r = db
        .flush_compaction("t1".to_string(), CollectionUuid(1), 42, 1, &[flush_info(10, &["new/a", "new/b"])], 77)
        .unwrap();
    assert_eq!(r.collection_id, CollectionUuid(1));
    assert_eq!(r.collection_version, 2);
    assert_eq!(r.last_compaction_time, 1);
    let cs = db.get_collections(Some(CollectionUuid(1)), None, None, None);
    assert_eq!(cs.len(), 1);
    assert_eq!(cs[0].version, 2);
    assert_eq!(cs[0].log_position, 42);
    assert_eq!(cs[0].total_records_post_compaction, 77);
    assert_eq!(db.get_collection_size(CollectionUuid(1)), Ok(77));
    let segs = db.get_segments(Some(SegmentUuid(10)), None, None, CollectionUuid(1)).unwrap();
    assert_eq!(segs.len(), 1);
    assert_eq!(segs[0].file_path, vec!["new/a".to_string(), "new/b".to_string()]);
}

#[test]
fn list_databases_gives_distinct_names() {
    let mut db = TestSysDb::new();
    db.add_collection(collection(1, "a", "t1", "d1", 0));
    db.add_collection(collection(2, "b", "t1", "d2", 0));
    db.add_collection(collection(3, "c", "t1", "d1", 0));
    db.add_collection(collection(4, "d", "t2", "d3", 0));
    let dbs = db.list_databases("t1".to_string(), None, 0);
    assert_eq!(dbs.len(), 2);
    let mut names: Vec<String> = dbs.iter().map(|d| d.name.clone()).collect();
    names.sort();
    assert_eq!(names, vec!["d1".to_string(), "d2".to_string()]);
    for d in &dbs {
        assert_eq!(d.tenant, "t1");
    }
}

#[test]
fn listed_databases_get_fresh_random_ids() {
    let mut db = TestSysDb::new();
    db.add_collection(collection(1, "a", "t1", "d1", 0));
    db.add_collection(collection(2, "b", "t1", "d2", 0));
    let dbs = db.list_databases("t1".to_string(), None, 0);
    assert_ne!(dbs[0].id, dbs[1].id);
    for d in &dbs {
        assert_eq!(d.id & 0xF000C000000000000000u128, 0x40008000000000000000u128);
    }
}

#[test]
fn list_databases_limit_truncates_and_offset_is_ignored() {
    let mut db = TestSysDb::new();
    db.add_collection(collection(1, "a", "t1", "d1", 0));
    db.add_collection(collection(2, "b", "t1", "d2", 0));
    db.add_collection(collection(3, "c", "t1", "d3", 0));
    assert_eq!(db.list_databases("t1".to_string(), Some(2), 0).len(), 2);
    assert_eq!(db.list_databases("t1".to_string(), Some(0), 0).len(), 3);
    assert_eq!(db.list_databases("t1".to_string(), Some(5), 0).len(), 3);
    assert_eq!(db.list_databases("t1".to_string(), None, 7).len(), 3);
    assert_eq!(db.list_databases("nobody".to_string(), None, 0).len(), 0);
}

#[test]
fn flush_with_unknown_segment_fails_and_changes_nothing() {
    let mut db = TestSysDb::new();
    db.add_collection(collection(1, "c1", "t1", "d1", 1));
    db.add_segment(segment(10, 1, SegmentType::HnswDistributed, SegmentScope::Vector));
    let r = db.flush_compaction(
        "t1".to_string(),
        CollectionUuid(1),
        5,
        1,
        &[flush_info(10, &["x"]), flush_info(99, &["y"])],
        3,
    );
    assert_eq!(r, Err(FlushCompactionError::SegmentNotFound));
    let cs = db.get_collections(None, None, None, None);
    assert_eq!(cs[0].version, 1);
    let segs = db.get_segments(Some(SegmentUuid(10)), None, None, CollectionUuid(1)).unwrap();
    assert_eq!(segs[0].file_path, vec!["old/path".to_string()]);
    assert_eq!(
        db.get_last_compaction_time(vec!["t1".to_string()]),
        Err(GetLastCompactionTimeError::TenantNotFound)
    );
}

#[test]
fn flush_of_unknown_collection_fails() {
    let mut db = TestSysDb::new();
    let r = db.flush_compaction("t1".to_string(), CollectionUuid(5), 0, 0, &[], 0);
    assert_eq!(r, Err(FlushCompactionError::CollectionNotFound));
}

#[test]
fn collection_size_known_and_unknown() {
    let mut db = TestSysDb::new();
    assert_eq!(
        db.get_collection_size(CollectionUuid(1)),
        Err(GetCollectionSizeError::NotFound("Collection not found".to_string()))
    );
    db.add_collection(collection(1, "c1", "t1", "d1", 0));
    assert_eq!(db.get_collection_size(CollectionUuid(1)), Ok(0));
    db.update_collection_size(CollectionUuid(1), 1234);
    assert_eq!(db.get_collection_size(CollectionUuid(1)), Ok(1234));
}

#[test]
fn unknown_tenant_fails_whole_lookup() {
    let mut db = TestSysDb::new();
    db.add_tenant_last_compaction_time("a".to_string(), 9);
    let r = db.get_last_compaction_time(vec!["a".to_string(), "unknown".to_string()]);
    assert_eq!(r, Err(GetLastCompactionTimeError::TenantNotFound));
    let ok = db.get_last_compaction_time(vec!["a".to_string(), "a".to_string()]).unwrap();
    assert_eq!(ok.len(), 2);
    assert_eq!(ok[0].id, "a");
    assert_eq!(ok[0].last_compaction_time, 9);
    assert_eq!(db.get_last_compaction_time(vec![]), Ok(vec![]));
}

#[test]
fn repeated_queries_agree() {
    let mut db = TestSysDb::new();
    db.add_collection(collection(1, "a", "t1", "d1", 0));
    db.add_collection(collection(2, "b", "t1", "d2", 0));
    db.add_segment(segment(10, 1, SegmentType::BlockfileRecord, SegmentScope::Record));
    db.add_tenant_last_compaction_time("t1".to_string(), 3);
    assert_eq!(db.get_collections(None, None, None, None), db.get_collections(None, None, None, None));
    assert_eq!(
        db.get_segments(None, None, None, CollectionUuid(1)).unwrap().len(),
        db.get_segments(None, None, None, CollectionUuid(1)).unwrap().len()
    );
    let n1: Vec<String> = db.list_databases("t1".to_string(), None, 0).iter().map(|d| d.name.clone()).collect();
    let n2: Vec<String> = db.list_databases("t1".to_string(), None, 0).iter().map(|d| d.name.clone()).collect();
    assert_eq!(n1, n2);
    assert_eq!(
        db.get_last_compaction_time(vec!["t1".to_string()]),
        db.get_last_compaction_time(vec!["t1".to_string()])
    );
    assert_eq!(db.get_collection_size(CollectionUuid(2)), db.get_collection_size(CollectionUuid(2)));
}

#[test]
fn version_and_counter_grow_by_one_per_flush() {
    let mut db = TestSysDb::new();
    db.add_collection(collection(1, "c1", "t1", "d1", 4));
    db.add_collection(collection(2, "c2", "t1", "d1", 0));
    db.add_tenant_last_compaction_time("t1".to_string(), 10);
    for n in 0..5 {
        let r = db.flush_compaction("t1".to_string(), CollectionUuid(1), n, 4 + n as i32, &[], 1).unwrap();
        assert_eq!(r.collection_version, 5 + n as i32);
        assert_eq!(r.last_compaction_time, 11 + n);
    }
    let r = db.flush_compaction("t1".to_string(), CollectionUuid(2), 0, 0, &[], 1).unwrap();
    assert_eq!(r.last_compaction_time, 16);
    let cs = db.get_collections(Some(CollectionUuid(1)), None, None, None);
    assert_eq!(cs[0].version, 9);
    let t = db.get_last_compaction_time(vec!["t1".to_string()]).unwrap();
    assert_eq!(t[0].last_compaction_time, 16);
}

#[test]
fn flush_version_follows_caller_version() {
    let mut db = TestSysDb::new();
    db.add_collection(collection(1, "c1", "t1", "d1", 7));
    let r = db.flush_compaction("t2".to_string(), CollectionUuid(1), 0, 2, &[], 0).unwrap();
    assert_eq!(r.collection_version, 3);
    assert_eq!(r.last_compaction_time, 1);
}

#[test]
fn collection_filters_combine() {
    let mut db = TestSysDb::new();
    db.add_collection(collection(1, "a", "t1", "d1", 0));
    db.add_collection(collection(2, "a", "t1", "d2", 0));
    db.add_collection(collection(3, "b", "t2", "d1", 0));
    assert_eq!(db.get_collections(None, None, None, None).len(), 3);
    let all_set = db.get_collections(
        Some(CollectionUuid(2)),
        Some("a".to_string()),
        Some("t1".to_string()),
        Some("d2".to_string()),
    );
    assert_eq!(all_set.len(), 1);
    assert_eq!(all_set[0].collection_id, CollectionUuid(2));
    let mismatch = db.get_collections(
        Some(CollectionUuid(2)),
        Some("a".to_string()),
        Some("t1".to_string()),
        Some("d1".to_string()),
    );
    assert!(mismatch.is_empty());
    assert_eq!(db.get_collections(None, Some("a".to_string()), None, None).len(), 2);
    assert_eq!(db.get_collections(None, None, Some("t2".to_string()), None).len(), 1);
}

#[test]
fn add_collection_replaces_same_id() {
    let mut db = TestSysDb::new();
    db.add_collection(collection(1, "a", "t1", "d1", 0));
    db.add_collection(collection(1, "renamed", "t1", "d1", 3));
    let cs = db.get_collections(None, None, None, None);
    assert_eq!(cs.len(), 1);
    assert_eq!(cs[0].name, "renamed");
    assert_eq!(cs[0].version, 3);
}

#[test]
fn segment_filters_combine() {
    let mut db = TestSysDb::new();
    db.add_segment(segment(10, 1, SegmentType::HnswDistributed, SegmentScope::Vector));
    db.add_segment(segment(11, 1, SegmentType::BlockfileRecord, SegmentScope::Record));
    db.add_segment(segment(12, 2, SegmentType::HnswDistributed, SegmentScope::Vector));
    assert_eq!(db.get_segments(None, None, None, CollectionUuid(1)).unwrap().len(), 2);
    let hnsw = db.get_segments(None, Some(HNSW.to_string()), None, CollectionUuid(1)).unwrap();
    assert_eq!(hnsw.len(), 1);
    assert_eq!(hnsw[0].id, SegmentUuid(10));
    let none = db.get_segments(Some(SegmentUuid(11)), Some(HNSW.to_string()), None, CollectionUuid(1)).unwrap();
    assert!(none.is_empty());
    let rec = db.get_segments(None, Some(RECORD.to_string()), Some(SegmentScope::Record), CollectionUuid(1)).unwrap();
    assert_eq!(rec.len(), 1);
    assert_eq!(db.get_segments(None, None, Some(SegmentScope::Metadata), CollectionUuid(1)).unwrap().len(), 0);
}

#[test]
fn segment_type_tag_must_be_known() {
    let db = TestSysDb::new();
    assert_eq!(
        db.get_segments(None, Some("urn:nothing".to_string()), None, CollectionUuid(1)).map(|v| v.len()),
        Err(GetSegmentsError::MalformedType(SegmentConversionError::InvalidSegmentType))
    );
    assert_eq!(
        SegmentType::try_from_str(&"urn:chroma:segment/vector/spann".to_string()),
        Ok(SegmentType::Spann)
    );
    assert_eq!(
        SegmentType::try_from_str(&"urn:chroma:segment/metadata/sqlite".to_string()),
        Ok(SegmentType::Sqlite)
    );
    assert_eq!(
        SegmentType::try_from_str(&"".to_string()),
        Err(SegmentConversionError::InvalidSegmentType)
    );
}

#[test]
fn mark_version_for_deletion_checks_first_entry() {
    let db = TestSysDb::new();
    assert_eq!(db.mark_version_for_deletion(0, vec![]), Ok(()));
    assert_eq!(db.mark_version_for_deletion(0, vec![versions("c", vec![])]), Ok(()));
    assert_eq!(db.mark_version_for_deletion(0, vec![versions("c", vec![2, 3])]), Ok(()));
    assert_eq!(
        db.mark_version_for_deletion(0, vec![versions("c", vec![2, 1])]),
        Err("Failed to mark version for deletion".to_string())
    );
    assert_eq!(
        db.mark_version_for_deletion(0, vec![versions("c", vec![2]), versions("d", vec![1])]),
        Ok(())
    );
}

#[test]
fn delete_collection_version_reports_each_collection() {
    let db = TestSysDb::new();
    let r = db.delete_collection_version(vec![
        versions("c1", vec![1]),
        versions("c2", vec![]),
        versions("c1", vec![4]),
    ]);
    assert_eq!(r, vec![("c1".to_string(), true), ("c2".to_string(), true)]);
    assert!(db.delete_collection_version(vec![]).is_empty());
}

#[test]
fn duplicate_keeps_every_field() {
    let c = collection(3, "n", "t", "d", 8);
    assert_eq!(c.duplicate(), c);
    let s = segment(1, 3, SegmentType::Spann, SegmentScope::Vector);
    let d = s.duplicate();
    assert_eq!(d.id, s.id);
    assert_eq!(d.file_path, s.file_path);
}
