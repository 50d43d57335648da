//! The icon caches of the desktop shell: which files they are.

use crate::text::{chars_of, glue, has_prefix};
use vstd::prelude::*;

verus! {

/// The database of icons below the profile directory `profile`.
pub open spec fn icon_cache_of(profile: Seq<char>) -> Seq<char> {
    profile + "\\AppData\\Local\\IconCache.db"@
}

/// The directory below the profile directory `profile` that holds the caches
/// of thumbnails.
pub open spec fn explorer_dir_of(profile: Seq<char>) -> Seq<char> {
    profile + "\\AppData\\Local\\Microsoft\\Windows\\Explorer"@
}

/// Whether a file of this name is a cache of thumbnails.
pub open spec fn is_thumbnail_cache_name(name: Seq<char>) -> bool {
    "thumbcache_"@.is_prefix_of(name)
}

/// The database of icons below a profile directory.
pub fn icon_cache_path(profile: &str) -> (path: String)
    ensures
        path@ == icon_cache_of(profile@),
{
    glue(profile, "\\AppData\\Local\\IconCache.db")
}

/// The directory below a profile directory that holds the caches of
/// thumbnails.
pub fn explorer_dir(profile: &str) -> (path: String)
    ensures
        path@ == explorer_dir_of(profile@),
{
    glue(profile, "\\AppData\\Local\\Microsoft\\Windows\\Explorer")
}

/// Tells whether a file of this name is a cache of thumbnails.
pub fn is_thumbnail_cache(name: &str) -> (b: bool)
    ensures
        b == is_thumbnail_cache_name(name@),
{
    let chars = chars_of(name);
    let prefix = chars_of("thumbcache_");
    has_prefix(chars.as_slice(), prefix.as_slice())
}

} // verus!
