//! The filesystem capability consumed by the resolver: a single operation,
//! "read an entire file's content as text", together with an in-memory
//! implementation used to exercise the library without touching a disk.
//!
//! The capability keeps a log of every path it was asked to read, so that
//! contracts can state not only what a resolution returns but also whether it
//! touched the filesystem at all.
use vstd::prelude::*;

verus! {

/// Why a filesystem read failed: the path does not exist, it is unreadable,
/// or its content is not valid text.
#[derive(Clone, Copy, PartialEq, Eq, Structural, Debug)]
pub enum ReadErrorKind {
    /// The path does not exist.
    NotFound,
    /// The path exists but may not be read.
    PermissionDenied,
    /// The content is not valid text.
    InvalidData,
}

/// The mathematical value of a read's outcome: the text as a sequence of
/// characters, or the kind of failure.
pub open spec fn read_view(r: Result<String, ReadErrorKind>) -> Result<Seq<char>, ReadErrorKind> {
    match r {
        Ok(text) => Ok(text@),
        Err(kind) => Err(kind),
    }
}

/// A capability that reads whole files as text.
///
/// `content` is the text (or failure) that reading a path yields; it is stable
/// across reads. `log` is the ordered sequence of paths that have been read
/// through this capability, so callers can state that an operation performed
/// a read, or that it performed none.
pub trait FileSystem: Sized {
    /// What reading the given path yields.
    spec fn content(&self, path: Seq<char>) -> Result<Seq<char>, ReadErrorKind>;

    /// The paths read through this capability so far, in order.
    spec fn log(&self) -> Seq<Seq<char>>;

    /// Read the entire content of `path` as text. Exactly one read is
    /// recorded, the outcome is the capability's content for that path, and
    /// the content of every path is left unchanged.
    fn read_to_string(&mut self, path: &String) -> (r: Result<String, ReadErrorKind>)
        ensures
            final(self).log() == old(self).log().push(path@),
            forall|p: Seq<char>| final(self).content(p) == old(self).content(p),
            read_view(r) == old(self).content(path@),
    ;
}

/// An in-memory filesystem: a table from path to read outcome, plus the read
/// log. Reading a path that the table does not hold fails with
/// [`ReadErrorKind::NotFound`].
pub struct MemFileSystem {
    entries: Vec<(String, Result<String, ReadErrorKind>)>,
    reads: Vec<String>,
}

/// The outcome that scanning `entries` front to back yields for `path`:
/// the first matching entry decides, a miss is `NotFound`.
pub open spec fn entries_content(
    entries: Seq<(String, Result<String, ReadErrorKind>)>,
    path: Seq<char>,
) -> Result<Seq<char>, ReadErrorKind>
    decreases entries.len(),
{
    if entries.len() == 0 {
        Err(ReadErrorKind::NotFound)
    } else if entries[0].0@ == path {
        read_view(entries[0].1)
    } else {
        entries_content(entries.drop_first(), path)
    }
}

impl MemFileSystem {
    /// An empty filesystem: every read fails with `NotFound` and nothing has
    /// been read yet.
    pub fn new() -> (fs: MemFileSystem)
        ensures
            forall|p: Seq<char>|
                fs.content(p) == Err::<Seq<char>, ReadErrorKind>(ReadErrorKind::NotFound),
            fs.log() == Seq::<Seq<char>>::empty(),
    {
        let fs = MemFileSystem { entries: Vec::new(), reads: Vec::new() };
        proof {
            assert(fs.log() =~= Seq::<Seq<char>>::empty());
        }
        fs
    }

    /// Make reading `path` yield `text`, leaving every other path and the
    /// read log unchanged.
    pub fn insert_text(&mut self, path: String, text: String)
        ensures
            forall|p: Seq<char>|
                final(self).content(p) == (if p == path@ {
                    Ok::<Seq<char>, ReadErrorKind>(text@)
                } else {
                    old(self).content(p)
                }),
            final(self).log() == old(self).log(),
    {
        let ghost old_entries = self.entries@;
        self.entries.insert(0, (path, Ok(text)));
        proof {
            assert(self.entries@.drop_first() =~= old_entries);
        }
    }

    /// Make reading `path` fail with `kind`, leaving every other path and the
    /// read log unchanged.
    pub fn insert_error(&mut self, path: String, kind: ReadErrorKind)
        ensures
            forall|p: Seq<char>|
                final(self).content(p) == (if p == path@ {
                    Err::<Seq<char>, ReadErrorKind>(kind)
                } else {
                    old(self).content(p)
                }),
            final(self).log() == old(self).log(),
    {
        let ghost old_entries = self.entries@;
        self.entries.insert(0, (path, Err(kind)));
        proof {
            assert(self.entries@.drop_first() =~= old_entries);
        }
    }

    /// How many reads have gone through this filesystem.
    pub fn read_count(&self) -> (n: usize)
        ensures
            n == self.log().len(),
    {
        self.reads.len()
    }
}

impl FileSystem for MemFileSystem {
    closed spec fn content(&self, path: Seq<char>) -> Result<Seq<char>, ReadErrorKind> {
        entries_content(self.entries@, path)
    }

    closed spec fn log(&self) -> Seq<Seq<char>> {
        self.reads@.map_values(|s: String| s@)
    }

    #[verifier::loop_isolation(false)]
    fn read_to_string(&mut self, path: &String) -> (r: Result<String, ReadErrorKind>)
        ensures
            final(self).log() == old(self).log().push(path@),
            forall|p: Seq<char>| final(self).content(p) == old(self).content(p),
            read_view(r) == old(self).content(path@),
    {
        let ghost old_reads = self.reads@;
        self.reads.push(path.clone());
        proof {
            assert(self.reads@.map_values(|s: String| s@) =~= old_reads.map_values(
                |s: String| s@,
            ).push(path@));
            assert(self.entries@.skip(0) =~= self.entries@);
        }
        let mut i: usize = 0;
        while i < self.entries.len()
            invariant
                0 <= i <= self.entries.len(),
                forall|j: int| 0 <= j < i ==> self.entries@[j].0@ != path@,
                entries_content(self.entries@, path@) == entries_content(
                    self.entries@.skip(i as int),
                    path@,
                ),
            decreases self.entries.len() - i,
        {
            let hit = self.entries[i].0 == *path;
            proof {
                assert(self.entries@.skip(i as int).drop_first() =~= self.entries@.skip(
                    i as int + 1,
                ));
                assert(self.entries@.skip(i as int)[0] == self.entries@[i as int]);
            }
            if hit {
                let r = match &self.entries[i].1 {
                    Ok(text) => Ok(text.clone()),
                    Err(kind) => Err(*kind),
                };
                return r;
            }
            i = i + 1;
        }
        proof {
            assert(self.entries@.skip(i as int) =~= Seq::<
                (String, Result<String, ReadErrorKind>),
            >::empty());
        }
        Err(ReadErrorKind::NotFound)
    }
}

} // verus!
