use cortex::cache::{CacheConfig, DirectoryCache};
use cortex::fs::{FileEntry, FileType, FileSystem};
use cortex::vfs::{ProviderKind, VfsPath};

fn file(dir: &str, name: &str) -> FileEntry {
    let mut e = FileEntry::default();
    e.name = name.to_string();
    e.path = format!("{}/{}", dir, name);
    e.file_type = FileType::File;
    e
}

#[test]
fn test_cache_basic_operations() {
    let mut cache = DirectoryCache::new();
    let path = "/tmp/cache-basic";
    // Cache miss
    assert!(cache.get(path, 1).is_none());
    // Put the listing of a directory holding file1.txt and file2.txt
    let entries = FileSystem::arrange_listing(true, vec![file(path, "file1.txt"), file(path, "file2.txt")], false);
    cache.put(path, entries.iter().map(|e| e.clone()).collect(), Some(7), 2).unwrap();
    // Cache hit
    let cached = cache.get(path, 3).unwrap();
    assert_eq!(cached.len(), entries.len());
    // Check statistics
    let stats = cache.get_statistics();
    assert_eq!(stats.total_hits, 1);
    assert_eq!(stats.total_misses, 1);
}

#[test]
fn test_cache_lru_eviction() {
    let mut config = CacheConfig::default();
    config.max_entries = 2;
    let mut cache = DirectoryCache::with_config(config);
    // Add three directories (one will be evicted)
    cache.put("/tmp/dir1", vec![], Some(1), 1).unwrap();
    cache.put("/tmp/dir2", vec![], Some(1), 2).unwrap();
    cache.put("/tmp/dir3", vec![], Some(1), 3).unwrap();
    // First directory should be evicted
    assert!(cache.get("/tmp/dir1", 4).is_none());
    assert!(cache.get("/tmp/dir2", 5).is_some());
    assert!(cache.get("/tmp/dir3", 6).is_some());
    let stats = cache.get_statistics();
    assert_eq!(stats.total_evictions, 1);
}

#[test]
fn test_cache_invalidation() {
    let mut cache = DirectoryCache::new();
    let path = "/tmp/cache-invalidation";
    cache.put(path, vec![], Some(1), 1).unwrap();
    // Verify it's cached
    assert!(cache.get(path, 2).is_some());
    // Invalidate
    cache.invalidate(path);
    // Should be gone
    assert!(cache.get(path, 3).is_none());
}

#[test]
fn test_sftp_provider_can_handle() {
    let provider = ProviderKind::Sftp;
    let sftp_path = VfsPath::Sftp {
        host: "example.com".to_string(),
        port: 22,
        username: "user".to_string(),
        path: "/home/user".to_string(),
    };
    let local_path = VfsPath::Local("/tmp".to_string());
    assert!(provider.can_handle(&sftp_path));
    assert!(!provider.can_handle(&local_path));
}

#[test]
fn test_ftp_provider_can_handle() {
    let provider = ProviderKind::Ftp;
    let ftp_path = VfsPath::Ftp {
        host: "ftp.example.com".to_string(),
        port: 21,
        username: "user".to_string(),
        path: "/public".to_string(),
    };
    let sftp_path = VfsPath::Sftp {
        host: "example.com".to_string(),
        port: 22,
        username: "user".to_string(),
        path: "/home/user".to_string(),
    };
    assert!(provider.can_handle(&ftp_path));
    assert!(!provider.can_handle(&sftp_path));
}
