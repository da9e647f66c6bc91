use alxr_common::device::path_string_to_hash;
use std::collections::hash_map::DefaultHasher;
use std::hash::{Hash, Hasher};

fn std_hash(s: &str) -> u64 {
    let mut hasher = DefaultHasher::new();
    s.hash(&mut hasher);
    hasher.finish()
}

#[test]
fn path_hash_matches_str_hashing() {
    for path in ["/user/head", "/user/hand/left", "/user/hand/right", "", "/\u{fc}n\u{ef}code"] {
        assert_eq!(path_string_to_hash(path), std_hash(path));
    }
}

#[test]
fn distinct_paths_get_distinct_ids() {
    assert_ne!(path_string_to_hash("/user/hand/left"), path_string_to_hash("/user/hand/right"));
}
