//! What is known of the file system: the status of single paths, and a table
//! of such facts that stands for the file system while a command is handled.

use crate::text::same_text;
use vstd::prelude::*;

verus! {

/// What a path names.
#[derive(Debug, Clone, Copy, PartialEq, Eq, Structural)]
pub enum FileStatus {
    /// Nothing, or nothing that could be examined.
    Missing,
    /// A directory.
    Directory,
    /// A file with the given permission bits.
    File { mode: u32 },
}

/// Whether one of the three execute bits (owner, group, other) is set.
pub open spec fn has_execute_bit(mode: u32) -> bool {
    mode & 0o111 != 0
}

/// The execute bits one by one: the owner's, the group's and everyone
/// else's. A mode has an execute bit exactly if one of the three is set.
pub proof fn lemma_execute_bits(mode: u32)
    ensures
        has_execute_bit(mode) <==> (mode & 0o100 != 0 || mode & 0o010 != 0 || mode & 0o001 != 0),
{
    assert((mode & 0o111 != 0) <==> (mode & 0o100 != 0 || mode & 0o010 != 0 || mode & 0o001 != 0))
        by (bit_vector);
}

/// Whether permission bits allow execution by anyone.
pub fn is_executable(mode: u32) -> (executable: bool)
    ensures
        executable == has_execute_bit(mode),
{
    mode & 0o111 != 0
}

impl FileStatus {
    /// A path can be run if it names a file, not a directory, and the file has
    /// an execute bit.
    pub open spec fn runnable(self) -> bool {
        match self {
            FileStatus::File { mode } => has_execute_bit(mode),
            _ => false,
        }
    }

    /// Whether this is the status of a file that can be run.
    pub fn is_runnable(&self) -> (runnable: bool)
        ensures
            runnable == self.runnable(),
    {
        match self {
            FileStatus::File { mode } => is_executable(*mode),
            _ => false,
        }
    }

    /// Whether this is the status of a directory.
    pub fn is_directory(&self) -> (directory: bool)
        ensures
            directory == (*self is Directory),
    {
        match self {
            FileStatus::Directory => true,
            _ => false,
        }
    }
}

/// The status that a table of facts gives a path: what was recorded for it,
/// and `Missing` if nothing was.
pub open spec fn status_in(files: Map<Seq<char>, FileStatus>, path: Seq<char>) -> FileStatus {
    if files.contains_key(path) {
        files[path]
    } else {
        FileStatus::Missing
    }
}

/// One recorded fact.
#[derive(Debug)]
struct FileEntry {
    path: String,
    status: FileStatus,
}

/// The map that a list of facts amounts to, a later fact replacing an earlier
/// one for the same path.
spec fn facts(entries: Seq<FileEntry>) -> Map<Seq<char>, FileStatus>
    decreases entries.len(),
{
    if entries.len() == 0 {
        Map::empty()
    } else {
        facts(entries.drop_last()).insert(entries.last().path@, entries.last().status)
    }
}

/// Facts about paths, gathered by whoever can look at the file system.
#[derive(Debug)]
pub struct FileTable {
    entries: Vec<FileEntry>,
}

impl View for FileTable {
    type V = Map<Seq<char>, FileStatus>;

    closed spec fn view(&self) -> Map<Seq<char>, FileStatus> {
        facts(self.entries@)
    }
}

impl FileTable {
    /// The table without any fact.
    pub fn new() -> (table: Self)
        ensures
            table@ == Map::<Seq<char>, FileStatus>::empty(),
    {
        FileTable { entries: Vec::new() }
    }

    /// Records the status of `path`, in place of what was recorded for it
    /// before.
    pub fn record(&mut self, path: String, status: FileStatus)
        ensures
            final(self)@ == old(self)@.insert(path@, status),
    {
        let ghost before = self.entries@;
        self.entries.push(FileEntry { path, status });
        proof {
            assert(self.entries@.drop_last() == before);
        }
    }

    /// The status recorded for `path`.
    pub fn status_of(&self, path: &str) -> (status: FileStatus)
        ensures
            status == status_in(self@, path@),
    {
        let mut remaining: usize = self.entries.len();
        proof {
            assert(self.entries@.take(remaining as int) == self.entries@);
        }
        while remaining > 0
            invariant
                remaining <= self.entries.len(),
                status_in(facts(self.entries@), path@) == status_in(
                    facts(self.entries@.take(remaining as int)),
                    path@,
                ),
            decreases remaining,
        {
            proof {
                let upto = self.entries@.take(remaining as int);
                assert(upto.drop_last() == self.entries@.take(remaining - 1));
                assert(upto.last() == self.entries@[remaining - 1]);
            }
            remaining = remaining - 1;
            if same_text(self.entries[remaining].path.as_str(), path) {
                return self.entries[remaining].status;
            }
        }
        FileStatus::Missing
    }
}

} // verus!
