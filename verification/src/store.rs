//! The durable-write discipline of the backing store.
//!
//! The registry lives in one serialized file with a single-generation rolling
//! backup beside it. Before the primary file is overwritten, its previous
//! contents are copied to the backup path; a crash mid-write therefore leaves
//! either the previous complete snapshot or its backup — never total loss of
//! the last-known-good state. `StoreFiles` models the pair of files as plain
//! byte contents, and `dump` is that two-step routine as a value transformer.

use vstd::prelude::*;

verus! {

/// Mathematical value of the file pair: the contents of the primary store
/// file and of its backup, each absent until first written.
pub ghost struct StoreFilesView {
    pub primary: Option<Seq<u8>>,
    pub backup: Option<Seq<u8>>,
}

/// What one durable write leaves on disk: the primary is replaced whole, and
/// the previous primary — where one existed — becomes the backup. The backup
/// is overwritten on every save: a single generation, not a log.
pub open spec fn dumped(f: StoreFilesView, contents: Seq<u8>) -> StoreFilesView {
    StoreFilesView {
        primary: Some(contents),
        backup: if f.primary is Some {
            f.primary
        } else {
            f.backup
        },
    }
}

/// The pair of backing files, as contents.
pub struct StoreFiles {
    primary: Option<Vec<u8>>,
    backup: Option<Vec<u8>>,
}

impl View for StoreFiles {
    type V = StoreFilesView;

    closed spec fn view(&self) -> StoreFilesView {
        StoreFilesView {
            primary: match self.primary {
                Some(ref v) => Some(v@),
                None => None,
            },
            backup: match self.backup {
                Some(ref v) => Some(v@),
                None => None,
            },
        }
    }
}

impl StoreFiles {
    /// On a first run neither file exists.
    pub fn new() -> (r: StoreFiles)
        ensures
            r@.primary is None,
            r@.backup is None,
    {
        StoreFiles { primary: None, backup: None }
    }

    /// The files as found on disk.
    pub fn from_contents(primary: Option<Vec<u8>>, backup: Option<Vec<u8>>) -> (r: StoreFiles)
        ensures
            r@.primary == (match primary {
                Some(v) => Some(v@),
                None => None::<Seq<u8>>,
            }),
            r@.backup == (match backup {
                Some(v) => Some(v@),
                None => None::<Seq<u8>>,
            }),
    {
        StoreFiles { primary, backup }
    }

    /// One durable write: copy the existing primary to the backup, then
    /// replace the primary whole.
    pub fn dump(&mut self, contents: Vec<u8>)
        ensures
            final(self)@ == dumped(old(self)@, contents@),
    {
        if self.primary.is_some() {
            self.backup = self.primary.take();
        }
        self.primary = Some(contents);
    }

    /// The current primary contents, to be written to the store path.
    pub fn primary(&self) -> (r: &Option<Vec<u8>>)
        ensures
            self@.primary == (match *r {
                Some(ref v) => Some(v@),
                None => None::<Seq<u8>>,
            }),
    {
        &self.primary
    }

    /// The current backup contents, to be written to the backup path.
    pub fn backup(&self) -> (r: &Option<Vec<u8>>)
        ensures
            self@.backup == (match *r {
                Some(ref v) => Some(v@),
                None => None::<Seq<u8>>,
            }),
    {
        &self.backup
    }
}

/// Law: after a save, the previous snapshot survives. A second dump leaves
/// as backup exactly the bytes the first dump wrote as primary — so two
/// saves of the same serialized registry leave a backup equal to the
/// pre-second-save primary.
pub proof fn lemma_second_dump_backs_up_first(f: StoreFilesView, c1: Seq<u8>, c2: Seq<u8>)
    ensures
        dumped(dumped(f, c1), c2).primary == Some(c2),
        dumped(dumped(f, c1), c2).backup == Some(c1),
{
}

} // verus!
