//! Disk cache bookkeeping: where an entry is kept and when it has expired.
//!
//! The files themselves are read and written by the caller; this module
//! decides their names and their freshness.

use crate::text::{chars_of, push_all, push_text, string_of};
use vstd::prelude::*;

verus! {

/// The time that an entry lives where none is given: one hour, in seconds.
pub const DEFAULT_TTL_SECS: u64 = 3600;

/// Whether `c` may not stand in a file name.
pub open spec fn is_unsafe(c: char) -> bool {
    c == '/' || c == '\\' || c == ':'
}

/// `key` with an underscore in place of every slash, backslash and colon.
pub open spec fn safe_key(key: Seq<char>) -> Seq<char> {
    Seq::new(
        key.len(),
        |i: int|
            if is_unsafe(key[i]) {
                '_'
            } else {
                key[i]
            },
    )
}

/// The path of `file` below `dir`: a slash is put between the two unless
/// `dir` is empty or ends with one.
pub open spec fn joined(dir: Seq<char>, file: Seq<char>) -> Seq<char> {
    if dir.len() == 0 || dir.last() == '/' {
        dir + file
    } else {
        dir + "/"@ + file
    }
}

/// The path of the file that holds the entry for `key` in a cache below
/// `dir`.
pub open spec fn entry_path(dir: Seq<char>, key: Seq<char>) -> Seq<char> {
    joined(dir, safe_key(key) + ".json"@)
}

/// A cache of JSON files in one directory, each entry living for a fixed
/// time.
#[derive(Debug)]
pub struct DiskCache {
    cache_dir: String,
    ttl_secs: u64,
}

impl DiskCache {
    /// The directory of the cache.
    pub closed spec fn dir(&self) -> Seq<char> {
        self.cache_dir@
    }

    /// The time that an entry lives, in seconds.
    pub closed spec fn ttl(&self) -> u64 {
        self.ttl_secs
    }

    /// A cache below `cache_dir` whose entries live for `ttl_secs` seconds.
    pub fn new(cache_dir: String, ttl_secs: u64) -> (r: DiskCache)
        ensures
            r.dir() == cache_dir@,
            r.ttl() == ttl_secs,
    {
        DiskCache { cache_dir, ttl_secs }
    }

    /// A cache below `cache_dir` whose entries live for one hour.
    pub fn with_default_ttl(cache_dir: String) -> (r: DiskCache)
        ensures
            r.dir() == cache_dir@,
            r.ttl() == DEFAULT_TTL_SECS,
    {
        DiskCache::new(cache_dir, DEFAULT_TTL_SECS)
    }

    /// The directory of the cache.
    pub fn cache_dir(&self) -> (r: &str)
        ensures
            r@ == self.dir(),
    {
        self.cache_dir.as_str()
    }

    /// The time that an entry lives, in seconds.
    pub fn ttl_secs(&self) -> (r: u64)
        ensures
            r == self.ttl(),
    {
        self.ttl_secs
    }

    /// The path of the file that holds the entry for `key`.
    pub fn cache_path(&self, key: &str) -> (r: String)
        ensures
            r@ == entry_path(self.dir(), key@),
    {
        let k = chars_of(key);
        let mut file: Vec<char> = Vec::new();
        let mut i: usize = 0;
        while i < k.len()
            invariant
                i <= k.len(),
                k@ == key@,
                file@ == safe_key(key@).take(i as int),
            decreases k.len() - i,
        {
            let c = k[i];
            if c == '/' || c == '\\' || c == ':' {
                file.push('_');
            } else {
                file.push(c);
            }
            i += 1;
        }
        assert(safe_key(key@).take(k.len() as int) == safe_key(key@));
        push_text(&mut file, ".json");
        let mut out = chars_of(self.cache_dir.as_str());
        if out.len() > 0 && out[out.len() - 1] != '/' {
            push_text(&mut out, "/");
        }
        push_all(&mut out, &file);
        string_of(&out)
    }

    /// Whether an entry that was written `elapsed_secs` seconds and
    /// `elapsed_subsec_nanos` nanoseconds ago has outlived its time.
    pub fn is_expired(&self, elapsed_secs: u64, elapsed_subsec_nanos: u32) -> (r: bool)
        ensures
            r == (elapsed_secs > self.ttl() || (elapsed_secs == self.ttl() && elapsed_subsec_nanos
                > 0)),
    {
        elapsed_secs > self.ttl_secs || (elapsed_secs == self.ttl_secs && elapsed_subsec_nanos > 0)
    }
}

} // verus!
