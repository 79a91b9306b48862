use config_agent::cache::entry::{is_dirty_false, is_dirty_true, CacheEntry};
use config_agent::cache::errors::CacheErr;
use config_agent::cache::file::SingleThreadFileCache;
use config_agent::errors::{Code, MiruError};

fn entry(key: &str, value: &str, last_accessed: i64) -> CacheEntry<String> {
    CacheEntry {
        key: key.to_string(),
        value: value.to_string(),
        is_dirty: false,
        created_at: 1,
        last_accessed,
    }
}

fn cache_of(entries: Vec<CacheEntry<String>>) -> SingleThreadFileCache<String> {
    SingleThreadFileCache::from_entries(entries)
}

fn keys(cache: &SingleThreadFileCache<String>) -> Vec<String> {
    cache.entries().into_iter().map(|e| e.key).collect()
}

#[test]
fn write_then_read_gives_the_value_back() {
    let mut cache: SingleThreadFileCache<String> = SingleThreadFileCache::new();
    cache.write("a".to_string(), "one".to_string(), is_dirty_true, false, 100).unwrap();
    assert_eq!(cache.read("a", 200).unwrap(), "one");
    let e = cache.read_entry("a", false, 300).unwrap();
    assert_eq!(e.created_at, 100);
    assert_eq!(e.last_accessed, 200);
    assert!(e.is_dirty);
}

#[test]
fn write_keeps_creation_time_of_replaced_entry() {
    let mut cache: SingleThreadFileCache<String> = SingleThreadFileCache::new();
    cache.write("a".to_string(), "one".to_string(), is_dirty_false, false, 100).unwrap();
    cache.write("a".to_string(), "two".to_string(), is_dirty_false, true, 500).unwrap();
    let e = cache.read_entry("a", false, 600).unwrap();
    assert_eq!(e.value, "two");
    assert_eq!(e.created_at, 100);
    assert_eq!(e.last_accessed, 500);
    assert_eq!(cache.size(), 1);
}

#[test]
fn write_without_overwrite_refuses_existing_key() {
    let mut cache: SingleThreadFileCache<String> = SingleThreadFileCache::new();
    cache.write("a".to_string(), "one".to_string(), is_dirty_false, false, 100).unwrap();
    let r = cache.write("a".to_string(), "two".to_string(), is_dirty_false, false, 200);
    match r {
        Err(CacheErr::CannotOverwriteCacheElement(e)) => assert_eq!(e.key, "a"),
        other => panic!("unexpected {:?}", other),
    }
    assert_eq!(cache.read("a", 300).unwrap(), "one");
}

#[test]
fn read_of_missing_key_is_not_found() {
    let mut cache: SingleThreadFileCache<String> = SingleThreadFileCache::new();
    match cache.read("missing", 1) {
        Err(CacheErr::CacheElementNotFound(e)) => {
            assert_eq!(e.msg, "Unable to find cache entry with key: 'missing'");
            assert_eq!(e.code(), Code::InternalServerError);
            assert_eq!(e.http_status(), 500);
            assert!(!e.is_network_connection_error());
        }
        other => panic!("unexpected {:?}", other),
    }
    assert_eq!(cache.read_optional("missing", 1).unwrap(), None);
}

#[test]
fn read_without_update_leaves_last_access() {
    let mut cache = cache_of(vec![entry("a", "x", 5)]);
    let e = cache.read_entry_optional("a", false, 99).unwrap().unwrap();
    assert_eq!(e.last_accessed, 5);
    let e = cache.read_entry_optional("a", true, 99).unwrap().unwrap();
    assert_eq!(e.last_accessed, 99);
    assert_eq!(cache.entries()[0].last_accessed, 99);
}

#[test]
fn delete_removes_only_that_key() {
    let mut cache = cache_of(vec![entry("a", "1", 1), entry("b", "2", 2), entry("c", "3", 3)]);
    cache.delete("b").unwrap();
    assert_eq!(keys(&cache), vec!["a", "c"]);
    cache.delete("zzz").unwrap();
    assert_eq!(cache.size(), 2);
}

#[test]
fn from_entries_keeps_later_duplicate() {
    let cache = cache_of(vec![entry("a", "1", 1), entry("b", "2", 2), entry("a", "3", 3)]);
    assert_eq!(keys(&cache), vec!["a", "b"]);
    assert_eq!(cache.values(), vec!["3", "2"]);
}

#[test]
fn prune_drops_least_recently_accessed() {
    let mut cache = cache_of(vec![
        entry("a", "1", 30),
        entry("b", "2", 10),
        entry("c", "3", 20),
        entry("d", "4", 40),
    ]);
    cache.prune(2).unwrap();
    assert_eq!(keys(&cache), vec!["a", "d"]);
}

#[test]
fn prune_breaks_ties_by_stored_order() {
    let mut cache = cache_of(vec![entry("a", "1", 10), entry("b", "2", 10), entry("c", "3", 10)]);
    cache.prune(1).unwrap();
    assert_eq!(keys(&cache), vec!["c"]);
}

#[test]
fn prune_within_limit_changes_nothing() {
    let mut cache = cache_of(vec![entry("a", "1", 10), entry("b", "2", 5)]);
    cache.prune(2).unwrap();
    assert_eq!(keys(&cache), vec!["a", "b"]);
    cache.prune(0).unwrap();
    assert_eq!(cache.size(), 0);
}

#[test]
fn find_one_distinguishes_none_one_and_many() {
    let cache = cache_of(vec![entry("a", "x", 1), entry("b", "y", 2), entry("c", "y", 3)]);
    assert_eq!(cache.find_one_optional("is z", |v: &String| v == "z").unwrap(), None);
    assert_eq!(cache.find_one("is x", |v: &String| v == "x").unwrap(), "x");
    match cache.find_one("is y", |v: &String| v == "y") {
        Err(CacheErr::FoundTooManyCacheElements(e)) => {
            assert_eq!(e.expected_count, 1);
            assert_eq!(e.actual_count, 2);
            assert_eq!(e.filter_name, "is y");
        }
        other => panic!("unexpected {:?}", other),
    }
    match cache.find_one("is z", |v: &String| v == "z") {
        Err(CacheErr::CacheElementNotFound(e)) => {
            assert_eq!(e.msg, "Unable to find cache entry with filter: 'is z'")
        }
        other => panic!("unexpected {:?}", other),
    }
    let found = cache.find_one_entry("is x", |e: &CacheEntry<String>| e.key == "a").unwrap();
    assert_eq!(found.value, "x");
}

#[test]
fn find_where_keeps_stored_order() {
    let cache = cache_of(vec![entry("a", "x", 1), entry("b", "y", 2), entry("c", "x", 3)]);
    assert_eq!(cache.find_where(|v: &String| v == "x"), vec!["x", "x"]);
    let es = cache.find_entries_where(|e: &CacheEntry<String>| e.value == "x");
    assert_eq!(es.into_iter().map(|e| e.key).collect::<Vec<_>>(), vec!["a", "c"]);
}

#[test]
fn dirty_entries_are_the_dirty_ones() {
    let mut cache: SingleThreadFileCache<String> = SingleThreadFileCache::new();
    cache.write("a".to_string(), "1".to_string(), is_dirty_true, true, 1).unwrap();
    cache.write("b".to_string(), "2".to_string(), is_dirty_false, true, 1).unwrap();
    cache.write("c".to_string(), "3".to_string(), is_dirty_true, true, 1).unwrap();
    let dirty: Vec<String> = cache.get_dirty_entries().into_iter().map(|e| e.key).collect();
    assert_eq!(dirty, vec!["a", "c"]);
}

#[test]
fn write_entry_without_overwrite_stores_new_key() {
    let mut cache: SingleThreadFileCache<String> = SingleThreadFileCache::new();
    cache.write_entry(&entry("k", "v", 7), false).unwrap();
    assert!(cache.write_entry(&entry("k", "w", 8), false).is_err());
    cache.write_entry(&entry("k", "w", 8), true).unwrap();
    assert_eq!(cache.into_entries()[0].value, "w");
}
