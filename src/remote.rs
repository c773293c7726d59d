use vstd::prelude::*;

use crate::upload::{json_string_array, string_views, strings_to_json};

verus! {

/// Space of the drive account, in bytes.
#[derive(Debug)]
pub struct PcsDiskQuota {
    pub total: u64,
    /// Whether some space expires within 7 days.
    pub expire: bool,
    pub used: u64,
    pub free: u64,
}

impl PcsDiskQuota {
    /// Space left to use: total less used, plus free space; `None` when
    /// that is negative or does not fit.
    pub fn idle(&self) -> (r: Option<u64>)
        ensures
            r is Some <==> 0 <= self.total - self.used + self.free <= u64::MAX,
            r is Some ==> r->Some_0 == self.total - self.used + self.free,
    {
        let v: i128 = self.total as i128 - self.used as i128 + self.free as i128;
        if v < 0 || v > u64::MAX as i128 {
            None
        } else {
            Some(v as u64)
        }
    }
}

/// Answer of the create-folder call.
#[derive(Debug)]
pub struct PcsCreateFolderResult {
    pub fs_id: u64,
    pub category: i32,
    pub path: String,
    pub ctime: i64,
    pub mtime: i64,
    pub is_dir: i32,
}

/// Result of one path of a file-management call.
#[derive(Debug)]
pub struct PcsFileTask {
    pub errno: i32,
    pub path: String,
    pub task_id: Option<String>,
}

/// Answer of a file-management call.
#[derive(Debug)]
pub struct PcsFileTaskOperationResult {
    pub info: Vec<PcsFileTask>,
    pub task_id: Option<String>,
}

/// An entry found by a search.
#[derive(Debug)]
pub struct PcsFileSearchInfo {
    pub category: i32,
    pub fs_id: u64,
    pub is_dir: i32,
    pub local_ctime: i64,
    pub local_mtime: i64,
    pub server_ctime: i64,
    pub server_mtime: i64,
    pub md5: Option<String>,
    pub size: u64,
    pub thumbs: Option<Vec<String>>,
}

/// Answer of the search call.
#[derive(Debug)]
pub struct PcsFileSearchResult {
    pub has_more: i32,
    pub list: Vec<PcsFileSearchInfo>,
}

/// Longest search key the service takes, in characters.
pub const SEARCH_KEY_MAX: usize = 30;

/// Index of the last `c` in `s`, or -1.
pub open spec fn last_index_of(s: Seq<char>, c: char) -> int
    decreases s.len(),
{
    if s.len() == 0 {
        -1
    } else if s.last() == c {
        s.len() - 1
    } else {
        last_index_of(s.drop_last(), c)
    }
}

proof fn lemma_last_index_bounds(s: Seq<char>, c: char)
    ensures
        -1 <= last_index_of(s, c) < s.len(),
        last_index_of(s, c) >= 0 ==> s[last_index_of(s, c)] == c,
    decreases s.len(),
{
    if s.len() > 0 && s.last() != c {
        lemma_last_index_bounds(s.drop_last(), c);
    }
}

proof fn lemma_last_index_skip(s: Seq<char>, i: int, c: char)
    requires
        0 <= i <= s.len(),
        forall|j: int| i <= j < s.len() ==> s[j] != c,
    ensures
        last_index_of(s, c) == last_index_of(s.subrange(0, i), c),
    decreases s.len(),
{
    if i == s.len() {
        assert(s.subrange(0, i) =~= s);
    } else {
        lemma_last_index_skip(s.drop_last(), i, c);
        assert(s.drop_last().subrange(0, i) =~= s.subrange(0, i));
    }
}

fn find_last(s: &str, c: char) -> (r: Option<usize>)
    ensures
        r is Some <==> last_index_of(s@, c) >= 0,
        r is Some ==> r->Some_0 == last_index_of(s@, c),
{
    let n = s.unicode_len();
    let mut i: usize = n;
    while i > 0
        invariant
            n == s@.len(),
            i <= n,
            forall|j: int| i <= j < n ==> s@[j] != c,
        decreases i,
    {
        if s.get_char(i - 1) == c {
            proof {
                lemma_last_index_skip(s@, i as int, c);
                assert(s@.subrange(0, i as int).last() == c);
            }
            return Some(i - 1);
        }
        i = i - 1;
    }
    proof {
        lemma_last_index_skip(s@, 0, c);
    }
    None
}

/// The key a search uses for a name or path: the last path segment,
/// without what follows its last dot, cut to its last 30 characters.
pub open spec fn search_key_spec(s: Seq<char>) -> Seq<char> {
    let seg = s.subrange(last_index_of(s, '/') + 1, s.len() as int);
    let stem = if last_index_of(seg, '.') >= 0 {
        seg.subrange(0, last_index_of(seg, '.'))
    } else {
        seg
    };
    if stem.len() > SEARCH_KEY_MAX {
        stem.subrange(stem.len() - SEARCH_KEY_MAX, stem.len() as int)
    } else {
        stem
    }
}

/// The directory a search looks in: the path itself when it ends with
/// `/`, else what precedes its last `/`; none for a bare name.
pub open spec fn search_dir_spec(s: Seq<char>) -> Option<Seq<char>> {
    if s.len() > 0 && s.last() == '/' {
        Some(s)
    } else if last_index_of(s, '/') >= 0 {
        Some(s.subrange(0, last_index_of(s, '/')))
    } else {
        None
    }
}

/// Query of the search call.
#[derive(Debug)]
pub struct SearchRequest {
    pub key: String,
    pub dir: Option<String>,
    /// Always 1: search sub-directories too.
    pub recursion: i32,
}

/// Builds the query that searches for `name_or_path`.
pub fn search_request(name_or_path: &str) -> (r: SearchRequest)
    ensures
        r.key@ == search_key_spec(name_or_path@),
        match search_dir_spec(name_or_path@) {
            Some(d) => r.dir matches Some(x) && x@ == d,
            None => r.dir is None,
        },
        r.recursion == 1,
{
    let n = name_or_path.unicode_len();
    let slash = find_last(name_or_path, '/');
    proof {
        lemma_last_index_bounds(name_or_path@, '/');
    }
    let start: usize = match slash {
        Some(k) => k + 1,
        None => 0,
    };
    let seg = name_or_path.substring_char(start, n);
    let dot = find_last(seg, '.');
    proof {
        lemma_last_index_bounds(seg@, '.');
    }
    let stem = match dot {
        Some(k) => seg.substring_char(0, k),
        None => seg,
    };
    let m = stem.unicode_len();
    let key = if m > SEARCH_KEY_MAX {
        stem.substring_char(m - SEARCH_KEY_MAX, m)
    } else {
        stem
    };
    let dir = if n > 0 && name_or_path.get_char(n - 1) == '/' {
        Some(name_or_path.to_owned())
    } else {
        match slash {
            Some(k) => Some(name_or_path.substring_char(0, k).to_owned()),
            None => None,
        }
    };
    SearchRequest { key: key.to_owned(), dir, recursion: 1 }
}

/// Form of the delete call.
#[derive(Debug)]
pub struct DeleteRequest {
    /// 0 synchronous, 1 adaptive, 2 asynchronous.
    pub async_mode: u8,
    /// JSON array of the paths.
    pub file_list: String,
}

/// Mode flag of the delete call for the caller's choice.
pub open spec fn async_mode_spec(is_async: Option<bool>) -> u8 {
    match is_async {
        Some(false) => 2,
        Some(true) => 0,
        None => 1,
    }
}

/// Builds the form that deletes `paths`.
pub fn delete_request(paths: &Vec<String>, is_async: Option<bool>) -> (q: DeleteRequest)
    ensures
        q.async_mode == async_mode_spec(is_async),
        q.file_list@ == json_string_array(string_views(paths@)),
{
    let async_mode: u8 = match is_async {
        Some(false) => 2,
        Some(true) => 0,
        None => 1,
    };
    DeleteRequest { async_mode, file_list: strings_to_json(paths) }
}

} // verus!
