use crate::candidate::{classify, json_paths, Candidate};
use std::path::{Path, PathBuf};
use vstd::prelude::*;

verus! {

/// A borrowed path, handed to the traversal as its root.
#[verifier::external_type_specification]
#[verifier::external_body]
pub struct ExPath(std::path::Path);

/// The traversal cursor of walkdir, advanced only through `pull`.
#[verifier::external_type_specification]
#[verifier::external_body]
pub struct ExIntoIter(walkdir::IntoIter);

/// One entry produced by walkdir.
#[verifier::external_type_specification]
#[verifier::external_body]
pub struct ExDirEntry(walkdir::DirEntry);

/// An error produced by walkdir for one entry.
#[verifier::external_type_specification]
#[verifier::external_body]
pub struct ExWalkError(walkdir::Error);

/// Whether walkdir's cursor has nothing left: the root has been taken and no
/// directory remains open, so its `next` returns `None`.
pub uninterp spec fn walk_exhausted(entries: walkdir::IntoIter) -> bool;

/// Relies on `walkdir::WalkDir::new` and its `into_iter`: a depth-first
/// traversal of `root`, the root itself first and every directory before its
/// children. Nothing is read from disk until the first pull, and the root is
/// still to come.
#[verifier::external_body]
fn open_walk(root: &Path) -> (r: walkdir::IntoIter)
    ensures
        !walk_exhausted(r),
{
    walkdir::WalkDir::new(root).into_iter()
}

/// Relies on `Iterator::next` of `walkdir::IntoIter`: the next result of the
/// traversal, which depends on the disk. It returns `None` exactly when the
/// cursor has nothing left, and stays so.
#[verifier::external_body]
fn pull(entries: &mut walkdir::IntoIter) -> (r: Option<Result<walkdir::DirEntry, walkdir::Error>>)
    ensures
        walk_exhausted(*old(entries)) ==> r is None,
        r is None ==> walk_exhausted(*final(entries)),
{
    entries.next()
}

/// Relies on `walkdir::DirEntry::file_name`: the final component of the
/// entry's path (the whole path where it has none), as raw bytes.
#[verifier::external_body]
fn entry_file_name(e: &walkdir::DirEntry) -> Vec<u8> {
    e.file_name().as_encoded_bytes().to_vec()
}

/// Relies on `std::path::Path::is_file` of `walkdir::DirEntry::path`: whether
/// the path, symbolic links followed, names a regular file, as the disk says.
#[verifier::external_body]
fn entry_is_file(e: &walkdir::DirEntry) -> bool {
    e.path().is_file()
}

/// Relies on `walkdir::DirEntry::into_path`: the entry's full path.
#[verifier::external_body]
fn entry_into_path(e: walkdir::DirEntry) -> PathBuf {
    e.into_path()
}

/// Reduces one result of walkdir to what the filter reads.
fn candidate_of(r: Result<walkdir::DirEntry, walkdir::Error>) -> (c: Candidate)
    ensures
        r is Err ==> c is Unreadable,
        r is Ok ==> c is Node,
{
    match r {
        Ok(e) => {
            let is_file = entry_is_file(&e);
            let file_name = entry_file_name(&e);
            let path = entry_into_path(e);
            Candidate::Node { path, is_file, file_name }
        },
        Err(_) => Candidate::Unreadable,
    }
}

/// A lazy sequence of the paths of the `json` files below a root directory.
pub struct WalkJsonFiles {
    entries: walkdir::IntoIter,
    /// How many results have been drawn from the traversal.
    drawn: u64,
    /// Set once no more items will be produced.
    finished: bool,
    /// Every result drawn from the traversal, in order.
    pulled: Ghost<Seq<Candidate>>,
}

impl WalkJsonFiles {
    /// The results drawn from the underlying traversal so far, in order.
    pub closed spec fn pulled(&self) -> Seq<Candidate> {
        self.pulled@
    }

    /// Whether every further pull reports that no items are left.
    pub closed spec fn is_finished(&self) -> bool {
        self.finished
    }

    /// Whether the underlying traversal has nothing left.
    pub closed spec fn traversal_ended(&self) -> bool {
        walk_exhausted(self.entries)
    }

    /// The paths produced so far, in order.
    pub open spec fn yielded(&self) -> Seq<PathBuf> {
        json_paths(self.pulled())
    }

    /// One ghost record per result drawn; finished only once the traversal
    /// ended or the limit on draws was reached.
    pub closed spec fn wf(&self) -> bool {
        &&& self.pulled@.len() == self.drawn
        &&& self.finished ==> walk_exhausted(self.entries) || self.drawn == u64::MAX
    }

    /// Produces the next `json` file path, skipping errors, directories and
    /// other files. The traversal is drawn from only until that path is met.
    /// A traversal longer than `u64::MAX` results is cut there.
    pub fn next(&mut self) -> (r: Option<PathBuf>)
        requires
            old(self).wf(),
        ensures
            final(self).wf(),
            old(self).pulled().is_prefix_of(final(self).pulled()),
            final(self).yielded() == match r {
                Some(p) => old(self).yielded().push(p),
                None => old(self).yielded(),
            },
            r is Some ==> final(self).pulled().last().is_json_file() && !final(self).is_finished(),
            r is None ==> final(self).is_finished(),
            r is None ==> final(self).traversal_ended() || final(self).pulled().len() == u64::MAX,
            old(self).is_finished() ==> r is None && final(self).pulled() == old(self).pulled(),
            old(self).traversal_ended() ==> r is None && final(self).pulled() == old(self).pulled()
                && final(self).traversal_ended(),
    {
        if self.finished {
            return None;
        }
        let ghost start = self.pulled@;
        // A traversal is finite; the limit on draws gives the loop its measure.
        while self.drawn < u64::MAX
            invariant_except_break
                !self.finished,
                old(self).traversal_ended() ==> self.pulled@ == start && walk_exhausted(
                    self.entries,
                ),
            invariant
                start == old(self).pulled@,
                !old(self).finished,
                self.wf(),
                start.is_prefix_of(self.pulled@),
                json_paths(self.pulled@) == json_paths(start),
            ensures
                self.wf(),
                start.is_prefix_of(self.pulled@),
                json_paths(self.pulled@) == json_paths(start),
                walk_exhausted(self.entries) || self.drawn == u64::MAX,
                old(self).traversal_ended() ==> self.pulled@ == start && walk_exhausted(
                    self.entries,
                ),
            decreases u64::MAX - self.drawn,
        {
            match pull(&mut self.entries) {
                None => {
                    self.finished = true;
                    break;
                },
                Some(result) => {
                    let c = candidate_of(result);
                    let ghost before = self.pulled@;
                    proof {
                        self.pulled@ = self.pulled@.push(c);
                        assert(self.pulled@.drop_last() =~= before);
                        assert(self.pulled@.subrange(0, start.len() as int) =~= before.subrange(
                            0,
                            start.len() as int,
                        ));
                    }
                    self.drawn = self.drawn + 1;
                    match classify(c) {
                        Some(p) => {
                            proof {
                                assert(json_paths(self.pulled@) == json_paths(before).push(p));
                                assert(start.is_prefix_of(self.pulled@));
                            }
                            return Some(p);
                        },
                        None => {},
                    }
                },
            }
        }
        self.finished = true;
        None
    }
}

/// Two walks that met the same traversal results have produced the same
/// paths in the same order: the output depends on nothing else.
pub proof fn lemma_same_traversal_same_output(a: &WalkJsonFiles, b: &WalkJsonFiles)
    requires
        a.pulled() == b.pulled(),
    ensures
        a.yielded() == b.yielded(),
{
}

/// Starts a walk of the tree below `root`. A missing or unreadable root is
/// not checked here: the traversal reports it as an error, which is skipped.
pub fn walk_json_files(root: &Path) -> (w: WalkJsonFiles)
    ensures
        w.wf(),
        w.pulled() == Seq::<Candidate>::empty(),
        !w.is_finished(),
        !w.traversal_ended(),
{
    WalkJsonFiles {
        entries: open_walk(root),
        drawn: 0,
        finished: false,
        pulled: Ghost(Seq::empty()),
    }
}

} // verus!
