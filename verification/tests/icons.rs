use upx_tools::icons::{explorer_dir, icon_cache_path, is_thumbnail_cache};

#[test]
fn caches_lie_below_the_profile() {
    assert_eq!(icon_cache_path("C:\\Users\\me"), "C:\\Users\\me\\AppData\\Local\\IconCache.db");
    assert_eq!(
        explorer_dir("C:\\Users\\me"),
        "C:\\Users\\me\\AppData\\Local\\Microsoft\\Windows\\Explorer"
    );
}

#[test]
fn thumbnail_caches_are_told_by_their_names() {
    assert!(is_thumbnail_cache("thumbcache_256.db"));
    assert!(is_thumbnail_cache("thumbcache_"));
    assert!(!is_thumbnail_cache("thumbcache"));
    assert!(!is_thumbnail_cache("iconcache_256.db"));
    assert!(!is_thumbnail_cache("Thumbcache_256.db"));
    assert!(!is_thumbnail_cache(""));
}
