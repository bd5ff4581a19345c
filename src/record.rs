//! Plugin records as the store keeps them, and the display name of a plugin.
use vstd::prelude::*;
use vstd::string::StrSliceExecFns;
use vstd::string::StringExecFns;

verus! {

/// One persisted plugin. `directory` is the record's identity.
pub struct PluginRecord {
    pub directory: String,
    pub enabled: bool,
    pub url: Option<String>,
}

/// The record seeded for a bundled plugin: enabled, with no install source.
pub open spec fn is_bundled_record(r: PluginRecord, dir: Seq<char>) -> bool {
    &&& r.directory@ == dir
    &&& r.enabled
    &&& r.url is None
}

/// A new record for the bundled plugin in `dir`.
pub fn bundled_record(dir: &String) -> (r: PluginRecord)
    ensures
        is_bundled_record(r, dir@),
{
    PluginRecord { directory: dir.clone(), enabled: true, url: None }
}

/// The index of the last `/` among the first `n` characters of `s`, or -1.
pub open spec fn last_slash(s: Seq<char>, n: int) -> int
    decreases n,
{
    if n <= 0 {
        -1
    } else if s[n - 1] == '/' {
        n - 1
    } else {
        last_slash(s, n - 1)
    }
}

/// The last `/`-separated segment of a path; the whole path where it has no `/`.
pub open spec fn last_segment(s: Seq<char>) -> Seq<char> {
    s.subrange(last_slash(s, s.len() as int) + 1, s.len() as int)
}

proof fn lemma_last_slash_bounds(s: Seq<char>, n: int)
    requires
        0 <= n <= s.len(),
    ensures
        -1 <= last_slash(s, n) < n,
    decreases n,
{
    if n > 0 {
        lemma_last_slash_bounds(s, n - 1);
    }
}

/// The short name a plugin is shown under: the last segment of its directory.
pub fn plugin_name(dir: &str) -> (r: String)
    ensures
        r@ == last_segment(dir@),
{
    let len = dir.unicode_len();
    let mut start: usize = 0;
    let mut i: usize = 0;
    while i < len
        invariant
            len == dir@.len(),
            i <= len,
            start as int == last_slash(dir@, i as int) + 1,
        decreases len - i,
    {
        if dir.get_char(i) == '/' {
            start = i + 1;
        }
        i = i + 1;
    }
    proof {
        lemma_last_slash_bounds(dir@, len as int);
    }
    String::from_str(dir.substring_char(start, len))
}

} // verus!
