use vstd::prelude::*;
use vstd::string::*;

verus! {

/// Position of the last occurrence of `c` in `s`, or -1 when it does not occur.
pub open spec fn last_index_of(s: Seq<char>, c: char) -> int
    decreases s.len(),
{
    if s.len() == 0 {
        -1
    } else if s.last() == c {
        s.len() - 1
    } else {
        last_index_of(s.drop_last(), c)
    }
}

/// The final component of a slash-separated path.
pub open spec fn base_name(p: Seq<char>) -> Seq<char> {
    p.subrange(last_index_of(p, '/') + 1, p.len() as int)
}

/// The extension of a file name: what follows its last dot, unless that dot
/// opens the name or there is none.
pub open spec fn extension_of(n: Seq<char>) -> Option<Seq<char>> {
    let k = last_index_of(n, '.');
    if k <= 0 {
        None
    } else {
        Some(n.subrange(k + 1, n.len() as int))
    }
}

/// The stem of a file name: the name without its extension and the dot before it.
pub open spec fn stem_of(n: Seq<char>) -> Seq<char> {
    let k = last_index_of(n, '.');
    if k <= 0 {
        n
    } else {
        n.subrange(0, k)
    }
}

pub open spec fn opt_view(o: Option<String>) -> Option<Seq<char>> {
    match o {
        Some(s) => Some(s@),
        None => None,
    }
}

proof fn lemma_last_index_bounds(s: Seq<char>, c: char)
    ensures
        -1 <= last_index_of(s, c) < s.len(),
        last_index_of(s, c) >= 0 ==> s[last_index_of(s, c)] == c,
    decreases s.len(),
{
    if s.len() > 0 && s.last() != c {
        lemma_last_index_bounds(s.drop_last(), c);
    }
}

/// Finds the last occurrence of `c` in `s`.
fn find_last(s: &str, c: char) -> (r: Option<usize>)
    ensures
        match r {
            Some(k) => k == last_index_of(s@, c) && k < s@.len(),
            None => last_index_of(s@, c) == -1,
        },
{
    let n = s.unicode_len();
    let mut i: usize = n;
    proof {
        assert(s@.subrange(0, n as int) =~= s@);
    }
    while i > 0
        invariant
            i <= n == s@.len(),
            last_index_of(s@, c) == last_index_of(s@.subrange(0, i as int), c),
        decreases i,
    {
        let ch = s.get_char(i - 1);
        proof {
            assert(s@.subrange(0, i as int).drop_last() =~= s@.subrange(0, i - 1));
        }
        if ch == c {
            return Some(i - 1);
        }
        i = i - 1;
    }
    proof {
        assert(s@.subrange(0, 0).len() == 0);
    }
    None
}

/// What the filesystem reports of one entry, as plain values.
#[derive(Clone, Copy, Debug, PartialEq, Eq)]
pub struct EntryStat {
    pub is_dir: bool,
    pub is_file: bool,
    pub is_symlink: bool,
    pub size: u64,
    pub mode: u32,
    pub owner_uid: u32,
    pub owner_gid: u32,
    pub created: Option<u64>,
    pub modified: Option<u64>,
}

/// An immutable snapshot of one filesystem entry.
#[derive(Clone, Debug)]
pub struct FileMetaData {
    pub path: String,
    pub file_name: String,
    pub extension: Option<String>,
    pub is_dir: bool,
    pub is_file: bool,
    pub is_symlink: bool,
    pub size: u64,
    pub permissions: u32,
    pub owner_uid: u32,
    pub owner_gid: u32,
    pub created: Option<u64>,
    pub modified: Option<u64>,
}

/// The full name of the entry: its stem, then the extension after a dot.
pub open spec fn full_name_of(stem: Seq<char>, ext: Option<Seq<char>>) -> Seq<char> {
    match ext {
        Some(e) => stem + seq!['.'] + e,
        None => stem,
    }
}

impl FileMetaData {
    /// Builds the snapshot of the entry found at `path`. `canonical` is the
    /// entry's resolved absolute path where it could be resolved; the path
    /// as found is kept otherwise. Name and extension come from the last
    /// component of the path as found.
    pub fn from_stat(path: &str, canonical: Option<String>, stat: EntryStat) -> (r: FileMetaData)
        ensures
            r.path@ == (match canonical {
                Some(c) => c@,
                None => path@,
            }),
            r.file_name@ == stem_of(base_name(path@)),
            opt_view(r.extension) == extension_of(base_name(path@)),
            r.is_dir == stat.is_dir,
            r.is_file == stat.is_file,
            r.is_symlink == stat.is_symlink,
            r.size == stat.size,
            r.permissions == stat.mode,
            r.owner_uid == stat.owner_uid,
            r.owner_gid == stat.owner_gid,
            r.created == stat.created,
            r.modified == stat.modified,
    {
        let n = path.unicode_len();
        let start: usize = match find_last(path, '/') {
            Some(k) => k + 1,
            None => 0,
        };
        proof {
            lemma_last_index_bounds(path@, '/');
        }
        let base = path.substring_char(start, n);
        proof {
            assert(base@ =~= base_name(path@));
        }
        let m = base.unicode_len();
        let (file_name, extension) = match find_last(base, '.') {
            Some(k) if k > 0 => {
                proof {
                    lemma_last_index_bounds(base@, '.');
                }
                let stem = base.substring_char(0, k);
                let ext = base.substring_char(k + 1, m);
                (stem.to_owned(), Some(ext.to_owned()))
            },
            _ => (base.to_owned(), None),
        };
        let resolved = match canonical {
            Some(c) => c,
            None => path.to_owned(),
        };
        FileMetaData {
            path: resolved,
            file_name,
            extension,
            is_dir: stat.is_dir,
            is_file: stat.is_file,
            is_symlink: stat.is_symlink,
            size: stat.size,
            permissions: stat.mode,
            owner_uid: stat.owner_uid,
            owner_gid: stat.owner_gid,
            created: stat.created,
            modified: stat.modified,
        }
    }

    /// An exact copy of the snapshot.
    pub fn duplicate(&self) -> (r: FileMetaData)
        ensures
            r == *self,
    {
        let extension = match &self.extension {
            Some(e) => Some(e.clone()),
            None => None,
        };
        FileMetaData {
            path: self.path.clone(),
            file_name: self.file_name.clone(),
            extension,
            is_dir: self.is_dir,
            is_file: self.is_file,
            is_symlink: self.is_symlink,
            size: self.size,
            permissions: self.permissions,
            owner_uid: self.owner_uid,
            owner_gid: self.owner_gid,
            created: self.created,
            modified: self.modified,
        }
    }

    /// Whether any of the execute bits is set.
    pub fn is_executable(&self) -> (r: bool)
        ensures
            r == (self.permissions & 0o111u32 != 0),
    {
        self.permissions & 0o111 != 0
    }

    /// Whether the name begins with a dot.
    pub fn is_hidden(&self) -> (r: bool)
        ensures
            r == (self.file_name@.len() > 0 && self.file_name@[0] == '.'),
    {
        let n = self.file_name.unicode_len();
        if n == 0 {
            false
        } else {
            self.file_name.as_str().get_char(0) == '.'
        }
    }

    /// The entry's name with its extension, as it stands in its directory.
    pub fn full_name(&self) -> (r: String)
        ensures
            r@ == full_name_of(self.file_name@, opt_view(self.extension)),
    {
        match &self.extension {
            Some(e) => {
                proof {
                    reveal_strlit(".");
                }
                let with_dot = self.file_name.clone().concat(".");
                let r = with_dot.concat(e.as_str());
                proof {
                    assert(r@ =~= full_name_of(self.file_name@, opt_view(self.extension)));
                }
                r
            },
            None => self.file_name.clone(),
        }
    }
}


/// Whether `p` occurs in `s` starting at position `j`.
pub open spec fn occurs_at(s: Seq<char>, p: Seq<char>, j: int) -> bool {
    0 <= j && j + p.len() <= s.len() && s.subrange(j, j + p.len()) == p
}

pub open spec fn is_suffix(p: Seq<char>, s: Seq<char>) -> bool {
    p.len() <= s.len() && occurs_at(s, p, s.len() - p.len())
}

pub open spec fn is_substring(p: Seq<char>, s: Seq<char>) -> bool {
    exists|j: int| occurs_at(s, p, j)
}

/// Tells whether `p` occurs in `s` at position `j`.
pub fn occurs_at_exec(s: &str, p: &str, j: usize) -> (r: bool)
    ensures
        r == occurs_at(s@, p@, j as int),
{
    let n = s.unicode_len();
    let m = p.unicode_len();
    if j > n || m > n - j {
        return false;
    }
    let mut i: usize = 0;
    while i < m
        invariant
            n == s@.len(),
            m == p@.len(),
            j + m <= n,
            i <= m,
            forall|k: int| 0 <= k < i ==> s@[j + k] == p@[k],
        decreases m - i,
    {
        if s.get_char(j + i) != p.get_char(i) {
            proof {
                assert(s@.subrange(j as int, j + m)[i as int] != p@[i as int]);
            }
            return false;
        }
        i = i + 1;
    }
    proof {
        assert(s@.subrange(j as int, j + m) =~= p@);
    }
    true
}

/// Tells whether `s` begins with `p`.
pub fn starts_with_str(s: &str, p: &str) -> (r: bool)
    ensures
        r == p@.is_prefix_of(s@),
{
    let r = occurs_at_exec(s, p, 0);
    proof {
        if r {
            assert forall|k: int| 0 <= k < p@.len() implies p@[k] == s@[k] by {
                assert(s@.subrange(0, p@.len() as int)[k] == s@[k]);
            }
        } else if p@.is_prefix_of(s@) {
            assert(s@.subrange(0, p@.len() as int) =~= p@);
        }
    }
    r
}

/// Tells whether `s` ends with `p`.
pub fn ends_with_str(s: &str, p: &str) -> (r: bool)
    ensures
        r == is_suffix(p@, s@),
{
    let n = s.unicode_len();
    let m = p.unicode_len();
    if m > n {
        return false;
    }
    occurs_at_exec(s, p, n - m)
}

/// Tells whether `p` occurs anywhere in `s`.
pub fn contains_str(s: &str, p: &str) -> (r: bool)
    ensures
        r == is_substring(p@, s@),
{
    let n = s.unicode_len();
    let m = p.unicode_len();
    if m > n {
        return false;
    }
    let mut j: usize = 0;
    loop
        invariant
            n == s@.len(),
            m == p@.len(),
            m <= n,
            j <= n - m,
            forall|k: int| 0 <= k < j ==> !occurs_at(s@, p@, k),
        decreases n - m - j,
    {
        if occurs_at_exec(s, p, j) {
            return true;
        }
        if j == n - m {
            return false;
        }
        j = j + 1;
    }
}

/// `s` after each path of `ps` in turn has replaced it wherever that path
/// is a prefix of it.
pub open spec fn shorten(s: Seq<char>, ps: Seq<Seq<char>>) -> Seq<char>
    decreases ps.len(),
{
    if ps.len() == 0 {
        s
    } else {
        let t = shorten(s, ps.drop_last());
        if ps.last().is_prefix_of(t) {
            ps.last()
        } else {
            t
        }
    }
}

pub open spec fn views(v: Seq<String>) -> Seq<Seq<char>> {
    v.map_values(|x: String| x@)
}

pub broadcast proof fn lemma_views_len(v: Seq<String>)
    ensures
        #[trigger] views(v).len() == v.len(),
{
}

pub broadcast proof fn lemma_views_index(v: Seq<String>, i: int)
    requires
        0 <= i < v.len(),
    ensures
        #[trigger] views(v)[i] == v[i]@,
{
}

/// Reduces a list of paths to the shortest representatives: each path is
/// replaced, in list order, by every listed path that is a prefix of what it
/// has become; each result appears once.
pub fn shortest_paths(paths: Vec<String>) -> (r: Vec<String>)
    ensures
        forall|a: int, b: int| 0 <= a < b < r@.len() ==> r@[a]@ != r@[b]@,
        forall|x: Seq<char>|
            views(r@).contains(x) <==> exists|i: int|
                0 <= i < paths@.len() && x == #[trigger] shorten(paths@[i]@, views(paths@)),
{
    let mut out: Vec<String> = Vec::new();
    let ghost all = views(paths@);
    let mut i: usize = 0;
    while i < paths.len()
        invariant
            i <= paths@.len(),
            all == views(paths@),
            forall|a: int, b: int| 0 <= a < b < out@.len() ==> out@[a]@ != out@[b]@,
            forall|x: Seq<char>|
                views(out@).contains(x) <==> exists|k: int|
                    0 <= k < i && x == #[trigger] shorten(paths@[k]@, all),
        decreases paths@.len() - i,
    {
        let mut cur: &String = &paths[i];
        let mut j: usize = 0;
        while j < paths.len()
            invariant
                i < paths@.len(),
                j <= paths@.len(),
                all == views(paths@),
                cur@ == shorten(paths@[i as int]@, all.subrange(0, j as int)),
            decreases paths@.len() - j,
        {
            let other = &paths[j];
            proof {
                assert(all.subrange(0, j + 1).drop_last() =~= all.subrange(0, j as int));
            }
            if starts_with_str(cur.as_str(), other.as_str()) {
                cur = other;
            }
            j = j + 1;
        }
        proof {
            assert(all.subrange(0, paths@.len() as int) =~= all);
        }
        let mut present = false;
        let mut k: usize = 0;
        while k < out.len()
            invariant
                k <= out@.len(),
                present == exists|t: int| 0 <= t < k && out@[t]@ == cur@,
            decreases out@.len() - k,
        {
            if out[k] == *cur {
                present = true;
            }
            k = k + 1;
        }
        let ghost old_out = out@;
        assert(forall|x: Seq<char>|
            #[trigger] views(old_out).contains(x) <==> exists|k2: int|
                0 <= k2 < i && x == #[trigger] shorten(paths@[k2]@, all));
        if !present {
            out.push(cur.clone());
            proof {
                assert(views(out@) =~= views(old_out).push(cur@));
            }
        }
        proof {
            assert forall|x: Seq<char>|
                views(out@).contains(x) <==> exists|k2: int|
                    0 <= k2 < i + 1 && x == #[trigger] shorten(paths@[k2]@, all) by {
                if views(out@).contains(x) {
                    if x != cur@ {
                        let t = choose|t: int| 0 <= t < out@.len() && views(out@)[t] == x;
                        assert(views(old_out)[t] == x);
                        assert(views(old_out).contains(x));
                        let k3 = choose|k3: int| 0 <= k3 < i && x == #[trigger] shorten(paths@[k3]@, all);
                        assert(0 <= k3 < i + 1 && x == shorten(paths@[k3]@, all));
                    }
                    else {
                        assert(x == shorten(paths@[i as int]@, all));
                        assert(0 <= i < i + 1);
                    }
                }
                if exists|k2: int| 0 <= k2 < i + 1 && x == #[trigger] shorten(paths@[k2]@, all) {
                    let k2 = choose|k2: int| 0 <= k2 < i + 1 && x == #[trigger] shorten(paths@[k2]@, all);
                    if k2 < i {
                        assert(views(old_out).contains(x));
                        let t = choose|t: int| 0 <= t < old_out.len() && views(old_out)[t] == x;
                        assert(views(out@)[t] == x);
                    } else if present {
                        let t = choose|t: int| 0 <= t < k && out@[t]@ == cur@;
                        assert(views(out@)[t] == x);
                    } else {
                        assert(views(out@)[old_out.len() as int] == x);
                    }
                }
            }
        }
        i = i + 1;
    }
    out
}

} // verus!
