use auto_commit_rs::cache::{
    cache_file_name, record_commit, repo_path_hash, CacheIndex, RepoCache,
};

#[test]
fn test_repo_path_hash_deterministic() {
    let h1 = repo_path_hash("/home/user/project");
    let h2 = repo_path_hash("/home/user/project");
    assert_eq!(h1, h2);
    assert_eq!(h1.len(), 16);
}

#[test]
fn test_repo_path_hash_different_paths() {
    let h1 = repo_path_hash("/home/user/project-a");
    let h2 = repo_path_hash("/home/user/project-b");
    assert_ne!(h1, h2);
}

#[test]
fn test_repo_path_hash_is_hex() {
    let h = repo_path_hash("/some/repo");
    assert!(h.chars().all(|c| c.is_ascii_hexdigit()));
}

#[test]
fn test_cache_file_name_has_extension() {
    let name = cache_file_name("/home/user/project");
    assert_eq!(name.len(), 21);
    assert!(name.ends_with(".toml"));
    assert!(name.starts_with(&repo_path_hash("/home/user/project")));
}

#[test]
fn test_record_commit_indexes_new_repo_once() {
    let mut index = CacheIndex::default();
    let mut cache = RepoCache::default();
    cache.repo_path = "/r".into();

    record_commit(&mut index, &mut cache, "/r", "abc123", "feat: one");
    assert_eq!(index.repos.len(), 1);
    assert_eq!(index.repos[0].repo_path, "/r");
    assert_eq!(index.repos[0].cache_file, cache_file_name("/r"));
    assert_eq!(cache.commits.len(), 1);
    assert_eq!(cache.commits[0].hash, "abc123");
    assert_eq!(cache.commits[0].message_preview, "feat: one");

    record_commit(&mut index, &mut cache, "/r", "def456", "fix: two");
    assert_eq!(index.repos.len(), 1);
    assert_eq!(cache.commits.len(), 2);
    assert_eq!(cache.commits[1].hash, "def456");
}
