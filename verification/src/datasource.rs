//! The data source: a folder whose files the host watches and reads into
//! memory. The host walks the folder and reads; what it found is collected
//! here, one content per path.

use vstd::prelude::*;

verus! {

/// How often, in seconds, the host looks at the watched folder for changes.
pub const WATCH_POLL_INTERVAL_SECS: u64 = 2;

/// The folder, under the working directory, that holds the host's drivers.
pub const DRIVEN_FOLDER_NAME: &'static str = "driven";

#[derive(Debug)]
pub struct DataSourceImpl {
    path: String,
}

impl DataSourceImpl {
    /// The folder that is watched and read.
    pub closed spec fn root(&self) -> Seq<char> {
        self.path@
    }

    pub fn new(path: String) -> (source: Self)
        ensures
            source.root() == path@,
    {
        DataSourceImpl { path }
    }

    /// The folder that is watched and read.
    pub fn path(&self) -> (path: &str)
        ensures
            path@ == self.root(),
    {
        self.path.as_str()
    }
}

/// The drivers' folder under the working directory `current_dir`.
pub fn driven_dir(current_dir: String) -> (dir: String)
    ensures
        dir@ == current_dir@ + "/"@ + DRIVEN_FOLDER_NAME@,
{
    let mut dir = current_dir;
    dir.append("/");
    dir.append(DRIVEN_FOLDER_NAME);
    dir
}

/// A file that was read: where it lies and what it holds.
#[derive(Clone, Debug, PartialEq, Eq)]
pub struct FileEntry {
    pub path: String,
    pub content: Vec<u8>,
}

/// Whether no path occurs twice.
pub open spec fn distinct_paths(entries: Seq<FileEntry>) -> bool {
    forall|i: int, j: int|
        0 <= i < j < entries.len() ==> (#[trigger] entries[i]).path@ != (#[trigger] entries[j]).path@
}

/// Whether some entry lies at `path`.
pub open spec fn has_path(entries: Seq<FileEntry>, path: Seq<char>) -> bool {
    exists|i: int| 0 <= i < entries.len() && (#[trigger] entries[i]).path@ == path
}

/// An entry that lies at `path`, where there is one.
pub open spec fn entry_at(entries: Seq<FileEntry>, path: Seq<char>) -> int {
    choose|i: int| 0 <= i < entries.len() && (#[trigger] entries[i]).path@ == path
}

/// The contents by path.
pub open spec fn files_of(entries: Seq<FileEntry>) -> Map<Seq<char>, Seq<u8>> {
    Map::new(
        |path: Seq<char>| has_path(entries, path),
        |path: Seq<char>| entries[entry_at(entries, path)].content@,
    )
}

/// With distinct paths, the entry at a path is the only one there.
proof fn lemma_entry_at(entries: Seq<FileEntry>, i: int)
    requires
        distinct_paths(entries),
        0 <= i < entries.len(),
    ensures
        has_path(entries, entries[i].path@),
        entry_at(entries, entries[i].path@) == i,
        files_of(entries)[entries[i].path@] == entries[i].content@,
{
    let path = entries[i].path@;
    let k = entry_at(entries, path);
    assert(0 <= k < entries.len() && entries[k].path@ == path);
    if k < i {
        assert(entries[k].path@ != entries[i].path@);
    } else if i < k {
        assert(entries[i].path@ != entries[k].path@);
    }
}

/// Adding an entry at a new path adds it to the contents by path.
proof fn lemma_push(entries: Seq<FileEntry>, entry: FileEntry)
    requires
        distinct_paths(entries),
        !has_path(entries, entry.path@),
    ensures
        distinct_paths(entries.push(entry)),
        files_of(entries.push(entry)) == files_of(entries).insert(entry.path@, entry.content@),
{
    let after = entries.push(entry);
    assert forall|i: int, j: int| 0 <= i < j < after.len() implies (#[trigger] after[i]).path@ != (
    #[trigger] after[j]).path@ by {
        if j == entries.len() {
            assert(entries[i].path@ != entry.path@);
        } else {
            assert(entries[i].path@ != entries[j].path@);
        }
    }
    let want = files_of(entries).insert(entry.path@, entry.content@);
    assert forall|path: Seq<char>| files_of(after).contains_key(path) == want.contains_key(
        path,
    ) by {
        if has_path(after, path) {
            let k = entry_at(after, path);
            if k < entries.len() {
                assert(entries[k].path@ == path);
            }
        }
        if has_path(entries, path) {
            let k = entry_at(entries, path);
            assert(after[k].path@ == path);
        }
        if path == entry.path@ {
            assert(after[entries.len() as int].path@ == path);
        }
    }
    assert forall|path: Seq<char>| files_of(after).contains_key(path) implies files_of(after)[path]
        == want[path] by {
        let k = entry_at(after, path);
        lemma_entry_at(after, k);
        if k < entries.len() {
            lemma_entry_at(entries, k);
        }
    }
    assert(files_of(after) =~= want);
}

/// Replacing the content at a path replaces it in the contents by path.
proof fn lemma_replace(entries: Seq<FileEntry>, i: int, entry: FileEntry)
    requires
        distinct_paths(entries),
        0 <= i < entries.len(),
        entries[i].path@ == entry.path@,
    ensures
        distinct_paths(entries.update(i, entry)),
        files_of(entries.update(i, entry)) == files_of(entries).insert(
            entry.path@,
            entry.content@,
        ),
{
    let after = entries.update(i, entry);
    assert forall|a: int, b: int| 0 <= a < b < after.len() implies (#[trigger] after[a]).path@ != (
    #[trigger] after[b]).path@ by {
        assert(entries[a].path@ != entries[b].path@);
    }
    let want = files_of(entries).insert(entry.path@, entry.content@);
    assert forall|path: Seq<char>| files_of(after).contains_key(path) == want.contains_key(
        path,
    ) by {
        if has_path(after, path) {
            let k = entry_at(after, path);
            assert(entries[k].path@ == path);
        }
        if has_path(entries, path) {
            let k = entry_at(entries, path);
            assert(after[k].path@ == path);
        }
        if path == entry.path@ {
            assert(after[i].path@ == path);
        }
    }
    assert forall|path: Seq<char>| files_of(after).contains_key(path) implies files_of(after)[path]
        == want[path] by {
        let k = entry_at(after, path);
        lemma_entry_at(after, k);
        lemma_entry_at(entries, k);
    }
    assert(files_of(after) =~= want);
}

/// With distinct paths there are as many files as entries.
proof fn lemma_files_len(entries: Seq<FileEntry>)
    requires
        distinct_paths(entries),
    ensures
        files_of(entries).dom().finite(),
        files_of(entries).len() == entries.len(),
    decreases entries.len(),
{
    if entries.len() == 0 {
        assert(files_of(entries).dom() =~= Set::<Seq<char>>::empty());
    } else {
        let init = entries.drop_last();
        let last = entries.last();
        assert forall|i: int, j: int| 0 <= i < j < init.len() implies (#[trigger] init[i]).path@ != (
        #[trigger] init[j]).path@ by {
            assert(entries[i].path@ != entries[j].path@);
        }
        if has_path(init, last.path@) {
            let i = entry_at(init, last.path@);
            assert(entries[i].path@ != entries[entries.len() - 1].path@);
        }
        lemma_files_len(init);
        lemma_push(init, last);
        assert(init.push(last) =~= entries);
        assert(files_of(entries).dom() =~= files_of(init).dom().insert(last.path@));
    }
}

/// Files by path: what a walk through a folder has read so far.
#[derive(Debug)]
pub struct FileSnapshot {
    entries: Vec<FileEntry>,
}

impl View for FileSnapshot {
    type V = Map<Seq<char>, Seq<u8>>;

    /// The content of each file, by its path.
    closed spec fn view(&self) -> Map<Seq<char>, Seq<u8>> {
        files_of(self.entries@)
    }
}

impl FileSnapshot {
    /// What every snapshot holds: no path twice.
    pub closed spec fn well_formed(&self) -> bool {
        distinct_paths(self.entries@)
    }

    pub fn new() -> (snapshot: Self)
        ensures
            snapshot.well_formed(),
            snapshot@ == Map::<Seq<char>, Seq<u8>>::empty(),
    {
        let snapshot = FileSnapshot { entries: Vec::new() };
        assert(snapshot@ =~= Map::<Seq<char>, Seq<u8>>::empty());
        snapshot
    }

    fn position(&self, path: &String) -> (found: Option<usize>)
        ensures
            match found {
                Some(i) => i < self.entries@.len() && self.entries@[i as int].path@ == path@,
                None => !has_path(self.entries@, path@),
            },
    {
        let mut i: usize = 0;
        while i < self.entries.len()
            invariant
                i <= self.entries@.len(),
                forall|k: int| 0 <= k < i ==> (#[trigger] self.entries@[k]).path@ != path@,
            decreases self.entries@.len() - i,
        {
            if self.entries[i].path == *path {
                return Some(i);
            }
            i += 1;
        }
        None
    }

    /// Records that the file at `path` holds `content`. What was recorded
    /// for that path before is replaced.
    pub fn insert(&mut self, path: String, content: Vec<u8>)
        requires
            old(self).well_formed(),
        ensures
            final(self).well_formed(),
            final(self)@ == old(self)@.insert(path@, content@),
    {
        let found = self.position(&path);
        let entry = FileEntry { path, content };
        match found {
            Some(i) => {
                proof {
                    lemma_replace(self.entries@, i as int, entry);
                }
                self.entries.set(i, entry);
            },
            None => {
                proof {
                    lemma_push(self.entries@, entry);
                }
                self.entries.push(entry);
            },
        }
    }

    /// Records every file of `other`. Where both hold a path, the content
    /// of `other` stays.
    pub fn extend(&mut self, other: FileSnapshot)
        requires
            old(self).well_formed(),
            other.well_formed(),
        ensures
            final(self).well_formed(),
            final(self)@ == old(self)@.union_prefer_right(other@),
    {
        let mut rest = other.entries;
        let ghost all = rest@;
        assert(self@ =~= old(self)@.union_prefer_right(files_of(all.subrange(all.len() as int, all.len() as int))));
        while rest.len() > 0
            invariant
                self.well_formed(),
                distinct_paths(all),
                rest@ == all.subrange(0, rest@.len() as int),
                rest@.len() <= all.len(),
                self@ == old(self)@.union_prefer_right(
                    files_of(all.subrange(rest@.len() as int, all.len() as int)),
                ),
            decreases rest@.len(),
        {
            let ghost n = rest@.len() as int;
            let ghost done = all.subrange(n, all.len() as int);
            let entry = rest.pop().unwrap();
            let ghost now = all.subrange(n - 1, all.len() as int);
            proof {
                assert(entry == all[n - 1]);
                assert(rest@ =~= all.subrange(0, n - 1));
                lemma_tail_grows(all, n - 1);
                assert(files_of(now) == files_of(done).insert(entry.path@, entry.content@));
                assert(old(self)@.union_prefer_right(files_of(now)) =~= old(self)@.union_prefer_right(
                    files_of(done),
                ).insert(entry.path@, entry.content@));
            }
            self.insert(entry.path, entry.content);
        }
        assert(all.subrange(0, all.len() as int) =~= all);
    }

    /// What was recorded for `path`.
    pub fn get(&self, path: &str) -> (content: Option<&Vec<u8>>)
        requires
            self.well_formed(),
        ensures
            match content {
                Some(bytes) => self@.contains_key(path@) && self@[path@] == bytes@,
                None => !self@.contains_key(path@),
            },
    {
        let wanted = String::from_str(path);
        match self.position(&wanted) {
            Some(i) => {
                proof {
                    lemma_entry_at(self.entries@, i as int);
                }
                Some(&self.entries[i].content)
            },
            None => None,
        }
    }

    /// How many files are recorded.
    pub fn len(&self) -> (n: usize)
        requires
            self.well_formed(),
        ensures
            self@.dom().finite(),
            n == self@.len(),
    {
        proof {
            lemma_files_len(self.entries@);
        }
        self.entries.len()
    }

    /// Whether no file is recorded.
    pub fn is_empty(&self) -> (empty: bool)
        requires
            self.well_formed(),
        ensures
            empty == (self@ == Map::<Seq<char>, Seq<u8>>::empty()),
    {
        proof {
            lemma_files_len(self.entries@);
            if self.entries@.len() == 0 {
                assert(self@ =~= Map::<Seq<char>, Seq<u8>>::empty());
            }
        }
        self.entries.len() == 0
    }

    /// The recorded files, each path once.
    pub fn into_entries(self) -> (entries: Vec<FileEntry>)
        requires
            self.well_formed(),
        ensures
            distinct_paths(entries@),
            files_of(entries@) == self@,
            entries@.len() == self@.len(),
    {
        proof {
            lemma_files_len(self.entries@);
        }
        self.entries
    }
}

/// The entries from `k` on are those from `k + 1` on and the one at `k`.
proof fn lemma_tail_grows(all: Seq<FileEntry>, k: int)
    requires
        distinct_paths(all),
        0 <= k < all.len(),
    ensures
        files_of(all.subrange(k, all.len() as int)) == files_of(
            all.subrange(k + 1, all.len() as int),
        ).insert(all[k].path@, all[k].content@),
{
    let tail = all.subrange(k + 1, all.len() as int);
    let with_k = all.subrange(k, all.len() as int);
    let rotated = tail.push(all[k]);
    assert forall|i: int, j: int| 0 <= i < j < tail.len() implies (#[trigger] tail[i]).path@ != (
    #[trigger] tail[j]).path@ by {
        assert(all[k + 1 + i].path@ != all[k + 1 + j].path@);
    }
    assert forall|i: int, j: int| 0 <= i < j < with_k.len() implies (#[trigger] with_k[i]).path@
        != (#[trigger] with_k[j]).path@ by {
        assert(all[k + i].path@ != all[k + j].path@);
    }
    if has_path(tail, all[k].path@) {
        let i = entry_at(tail, all[k].path@);
        assert(all[k].path@ != all[k + 1 + i].path@);
    }
    lemma_push(tail, all[k]);
    assert forall|path: Seq<char>| files_of(with_k).contains_key(path) == files_of(
        rotated,
    ).contains_key(path) by {
        if has_path(with_k, path) {
            let i = entry_at(with_k, path);
            if i == 0 {
                assert(rotated[tail.len() as int].path@ == path);
            } else {
                assert(rotated[i - 1].path@ == path);
            }
        }
        if has_path(rotated, path) {
            let i = entry_at(rotated, path);
            if i == tail.len() {
                assert(with_k[0].path@ == path);
            } else {
                assert(with_k[i + 1].path@ == path);
            }
        }
    }
    assert forall|path: Seq<char>| files_of(with_k).contains_key(path) implies files_of(
        with_k,
    )[path] == files_of(rotated)[path] by {
        let i = entry_at(with_k, path);
        lemma_entry_at(with_k, i);
        if i == 0 {
            lemma_entry_at(rotated, tail.len() as int);
        } else {
            lemma_entry_at(rotated, i - 1);
        }
    }
    assert(files_of(with_k) =~= files_of(rotated));
}

} // verus!
