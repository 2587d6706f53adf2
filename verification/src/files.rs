//! Choosing a worker's executable among the files found under the binary
//! directory.

use vstd::prelude::*;

verus! {

/// `s` ends with the characters of `suffix`.
pub open spec fn ends_with_chars(s: Seq<char>, suffix: Seq<char>) -> bool {
    s.len() >= suffix.len() && s.subrange(s.len() - suffix.len(), s.len() as int) == suffix
}

/// Whether `s` ends with `suffix`.
pub fn ends_with(s: &str, suffix: &str) -> (r: bool)
    ensures
        r == ends_with_chars(s@, suffix@),
{
    let n: usize = s.unicode_len();
    let k: usize = suffix.unicode_len();
    if n < k {
        return false;
    }
    let start: usize = n - k;
    let mut i: usize = 0;
    while i < k
        invariant
            i <= k,
            start + k == n,
            n == s@.len(),
            k == suffix@.len(),
            forall|j: int| 0 <= j < i ==> s@[start + j] == suffix@[j],
        decreases k - i,
    {
        if s.get_char(start + i) != suffix.get_char(i) {
            return false;
        }
        i = i + 1;
    }
    assert(s@.subrange(s@.len() - suffix@.len(), s@.len() as int) =~= suffix@);
    true
}

/// The file name under which the executable `bin_name` is looked for: on
/// Windows the name with `.exe` behind it unless it already ends in `.exe`
/// or `.EXE`, elsewhere the name itself.
pub open spec fn os_bin_name(bin_name: Seq<char>, windows: bool) -> Seq<char> {
    if windows && !ends_with_chars(bin_name, ".exe"@) && !ends_with_chars(bin_name, ".EXE"@) {
        bin_name + ".exe"@
    } else {
        bin_name
    }
}

/// Gives an executable's name the extension that the host expects.
/// `windows` says whether the host is Windows.
pub fn append_os_extention_to_bin(bin_name: &str, windows: bool) -> (r: String)
    ensures
        r@ == os_bin_name(bin_name@, windows),
{
    let mut out = String::from_str(bin_name);
    if windows && !ends_with(bin_name, ".exe") && !ends_with(bin_name, ".EXE") {
        out.append(".exe");
    }
    out
}

/// A modification time: seconds and nanoseconds since the epoch.
pub type Mtime = (i64, u32);

/// `a` is earlier than `b`.
pub open spec fn mtime_before(a: Mtime, b: Mtime) -> bool {
    a.0 < b.0 || (a.0 == b.0 && a.1 < b.1)
}

/// One entry met while walking the binary directory.
pub struct BinCandidate {
    /// The entry's full path.
    pub path: String,
    /// The last component of the path, where it has one.
    pub file_name: Option<String>,
    /// Whether the entry is a regular file.
    pub is_file: bool,
    /// When the entry was last modified, where that could be read.
    pub mtime: Option<Mtime>,
}

impl BinCandidate {
    /// The entry can be chosen as the executable called `name`: a regular
    /// file of that name whose modification time is known.
    pub open spec fn matches(&self, name: Seq<char>) -> bool {
        &&& self.is_file
        &&& self.file_name is Some
        &&& self.file_name->0@ == name
        &&& self.mtime is Some
    }
}

/// Entry `i` can be chosen; an entry that could not be read cannot.
pub open spec fn eligible(entries: Seq<Option<BinCandidate>>, name: Seq<char>, i: int) -> bool {
    0 <= i < entries.len() && entries[i] is Some && entries[i]->0.matches(name)
}

/// Entry `i` is the one to run: it can be chosen, none that can be chosen
/// is newer, and every one before it that can be chosen is older.
pub open spec fn is_newest(entries: Seq<Option<BinCandidate>>, name: Seq<char>, i: int) -> bool {
    &&& eligible(entries, name, i)
    &&& forall|j: int| #[trigger]
        eligible(entries, name, j) ==> !mtime_before(entries[i]->0.mtime->0, entries[j]->0.mtime->0)
    &&& forall|j: int|
        0 <= j < i && #[trigger] eligible(entries, name, j) ==> mtime_before(
            entries[j]->0.mtime->0,
            entries[i]->0.mtime->0,
        )
}

/// No file of the wanted name was found.
pub struct BinaryNotFound {
    /// The file name that was looked for.
    pub bin_name: String,
}

fn mtime_lt(a: Mtime, b: Mtime) -> (r: bool)
    ensures
        r == mtime_before(a, b),
{
    a.0 < b.0 || (a.0 == b.0 && a.1 < b.1)
}

fn candidate_matches(c: &BinCandidate, name: &String) -> (r: bool)
    ensures
        r == c.matches(name@),
{
    if !c.is_file {
        return false;
    }
    match &c.file_name {
        Some(f) => {
            if !(*f == *name) {
                return false;
            }
        },
        None => {
            return false;
        },
    }
    c.mtime.is_some()
}

/// Picks the executable called `bin_name` among `entries`, the entries of a
/// walk through the binary directory in the order of the walk (`None` for
/// one that could not be read): the most recently modified regular file of
/// that name, the first such where several share that time.
pub fn find_newest_mtime_bin_under_folder(
    entries: &Vec<Option<BinCandidate>>,
    bin_name: &str,
    windows: bool,
) -> (r: Result<String, BinaryNotFound>)
    ensures
        match r {
            Ok(path) => exists|i: int|
                is_newest(entries@, os_bin_name(bin_name@, windows), i) && path@
                    == entries@[i]->0.path@,
            Err(e) => e.bin_name@ == os_bin_name(bin_name@, windows) && forall|i: int|
                !eligible(entries@, os_bin_name(bin_name@, windows), i),
        },
{
    let name = append_os_extention_to_bin(bin_name, windows);
    let mut best: Option<usize> = None;
    let mut i: usize = 0;
    while i < entries.len()
        invariant
            i <= entries.len(),
            name@ == os_bin_name(bin_name@, windows),
            match best {
                Some(b) => b < i && is_newest(entries@.take(i as int), name@, b as int),
                None => forall|j: int| !eligible(entries@.take(i as int), name@, j),
            },
        decreases entries.len() - i,
    {
        let ghost before = entries@.take(i as int);
        let ghost after = entries@.take(i + 1);
        proof {
            assert forall|j: int| eligible(before, name@, j) <==> (j < i && eligible(
                after,
                name@,
                j,
            )) by {}
        }
        let mut take_it: bool = false;
        match &entries[i] {
            Some(c) => {
                if candidate_matches(c, &name) {
                    match best {
                        Some(b) => {
                            match (&entries[b], c.mtime) {
                                (Some(cur), Some(t)) => {
                                    match cur.mtime {
                                        Some(bt) => {
                                            take_it = mtime_lt(bt, t);
                                        },
                                        None => {},
                                    }
                                },
                                _ => {},
                            }
                        },
                        None => {
                            take_it = true;
                        },
                    }
                }
            },
            None => {},
        }
        if take_it {
            best = Some(i);
        }
        i = i + 1;
    }
    assert(entries@.take(i as int) =~= entries@);
    match best {
        Some(b) => {
            match &entries[b] {
                Some(c) => Ok(c.path.clone()),
                None => Err(BinaryNotFound { bin_name: name }),
            }
        },
        None => Err(BinaryNotFound { bin_name: name }),
    }
}

} // verus!
