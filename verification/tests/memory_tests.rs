use cortex::memory::{ObjectPool, PathTable, StringPool};
use std::sync::Arc;

#[test]
fn test_string_pool() {
    let mut pool = StringPool::new();

    let s1 = pool.intern("hello");
    let s2 = pool.intern("hello");
    let s3 = pool.intern("world");

    // Same strings should be the same Arc
    assert!(Arc::ptr_eq(&s1, &s2));
    assert!(!Arc::ptr_eq(&s1, &s3));

    let stats = pool.get_stats();
    assert_eq!(stats.unique_strings, 2);
    assert!(stats.memory_saved > 0);
}

#[test]
fn test_object_pool() {
    let mut pool: ObjectPool<Vec<u8>> = ObjectPool::new(2, 5);

    let mut obj1 = pool.acquire();
    obj1.get_mut().push(1);

    let (available, in_use) = pool.stats();
    assert_eq!(available, 1);
    assert_eq!(in_use, 1);

    pool.release(obj1);

    let (available, in_use) = pool.stats();
    assert_eq!(available, 2);
    assert_eq!(in_use, 0);
}

#[test]
fn released_objects_return_up_to_the_maximum() {
    let mut pool: ObjectPool<Vec<u8>> = ObjectPool::new(0, 2);
    let mut o = pool.acquire();
    assert!(o.get().is_empty());
    o.get_mut().push(1);
    assert_eq!(o.get(), &vec![1u8]);
    assert_eq!(pool.stats(), (0, 1));
    pool.release(o);
    assert_eq!(pool.stats(), (1, 0));
    let a = pool.acquire();
    assert_eq!(a.get(), &vec![1u8]);
    let b = pool.acquire();
    let c = pool.acquire();
    pool.release(a);
    pool.release(b);
    pool.release(c);
    // At most two idle objects are kept.
    assert_eq!(pool.stats(), (2, 0));
}

#[test]
fn test_path_table() {
    let mut table = PathTable::new();

    let idx1 = table.get_or_add("/home/user");
    let idx2 = table.get_or_add("/home/user");
    let idx3 = table.get_or_add("/tmp");

    assert_eq!(idx1, idx2);
    assert_ne!(idx1, idx3);

    assert_eq!(table.get(idx1), Some(String::from("/home/user")));
    assert_eq!(table.get(idx3), Some(String::from("/tmp")));
}

use cortex::fs::{FileEntry, FileType};
use cortex::memory::{BatchProcessor, CompressedFileEntry, MemoryManager};

fn sample_entry() -> FileEntry {
    let mut e = FileEntry::default();
    e.name = ".profile".to_string();
    e.path = "/home/u/.profile".to_string();
    e.file_type = FileType::Directory;
    e.size = 2048;
    e.modified = Some(1_700_000_000);
    e.permissions = "drwxr-xr-x".to_string();
    e
}

#[test]
fn interning_twice_keeps_one_copy() {
    let mut pool = StringPool::new();
    pool.intern("abc");
    let before = pool.get_stats();
    pool.intern("abc");
    let after = pool.get_stats();
    assert_eq!(before.unique_strings, 1);
    assert_eq!(after.unique_strings, 1);
    assert_eq!(after.total_strings, 1);
    assert_eq!(after.memory_saved, 3);
    pool.clear();
    assert_eq!(pool.get_stats().unique_strings, 0);
}

#[test]
fn object_pool_keeps_released_objects_below_its_maximum() {
    let mut pool: ObjectPool<Vec<u8>> = ObjectPool::new(1, 5);
    let a = pool.acquire();
    let b = pool.acquire();
    assert_eq!(pool.stats(), (0, 2));
    pool.release(a);
    pool.release(b);
    assert_eq!(pool.stats(), (2, 0));
    let c = pool.acquire();
    assert!(c.get().is_empty());
}

#[test]
fn compress_and_expand_entry() {
    let mut table = PathTable::new();
    let pool = StringPool::new();
    let e = sample_entry();
    let c = CompressedFileEntry::from_entry(&e, &mut table, &pool);
    assert_eq!(c.path_index, 0);
    assert_eq!(c.file_type, 1);
    assert_eq!(c.permissions, 0o755);
    assert_eq!(c.modified, 1_700_000_000);
    let back = c.to_entry(&table, |n| format!("{} B", n)).unwrap();
    assert_eq!(back.name, e.name);
    assert_eq!(back.path, e.path);
    assert_eq!(back.file_type, FileType::Directory);
    assert_eq!(back.size, 2048);
    assert_eq!(back.size_display, "2048 B");
    assert_eq!(back.modified, Some(1_700_000_000));
    assert_eq!(back.permissions, "drwxr-xr-x");
    assert!(back.is_hidden);
    assert_eq!(back.extension, None);
    let mut plain = c.clone();
    plain.permissions = 0o644;
    plain.path_index = 7;
    assert!(plain.to_entry(&table, |n| n.to_string()).is_none());
}

#[test]
fn manager_compress_decompress_and_stats() {
    let mut m = MemoryManager::new(1);
    let e = sample_entry();
    let mut f = sample_entry();
    f.path = "/tmp/x".to_string();
    f.modified = None;
    let c = m.compress_entries(&[e.clone(), f.clone(), e.clone()]);
    assert_eq!(c.iter().map(|c| c.path_index).collect::<Vec<_>>(), vec![0, 1, 0]);
    let d = m.decompress_entries(&c, |n| n.to_string());
    assert_eq!(d.len(), 3);
    assert_eq!(d[1].modified, None);
    let stats = m.get_stats();
    assert_eq!(stats.path_table_entries, 2);
    assert_eq!(stats.path_table_size, "/home/u/.profile".len() + "/tmp/x".len());
    assert_eq!(stats.entry_pool_available, 100);
    assert_eq!(stats.estimated_total, stats.path_table_size);
    assert!(!m.is_over_limit());
    m.gc();
    assert_eq!(m.get_stats().string_pool_unique, 0);
}

#[test]
fn batches_in_order() {
    let p: BatchProcessor<u32> = BatchProcessor::new(2);
    let out = p.process(vec![1, 2, 3, 4, 5], |chunk: &[u32]| vec![chunk.iter().sum::<u32>()]);
    assert_eq!(out, vec![3, 7, 5]);
    let empty = p.process(Vec::new(), |chunk: &[u32]| chunk.to_vec());
    assert!(empty.is_empty());
}

#[test]
fn entries_round_trip_through_the_manager() {
    let mut m = MemoryManager::new(1);
    let e = sample_entry();
    let mut f = sample_entry();
    f.name = "notes.txt".to_string();
    f.path = "/tmp/notes.txt".to_string();
    f.modified = None;
    let es = vec![e.clone(), f.clone()];
    let c = m.compress_entries(&es);
    let d = m.decompress_entries(&c, |n| n.to_string());
    assert_eq!(d.len(), es.len());
    for (x, y) in d.iter().zip(es.iter()) {
        assert_eq!(x.name, y.name);
        assert_eq!(x.path, y.path);
        assert_eq!(x.file_type, y.file_type);
        assert_eq!(x.size, y.size);
        assert_eq!(x.modified, y.modified);
        assert_eq!(x.is_hidden, y.name.starts_with('.'));
        assert!(!x.is_selected);
    }
}
