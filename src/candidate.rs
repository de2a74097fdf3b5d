use std::path::PathBuf;
use vstd::prelude::*;

verus! {

/// Paths are carried through the walk without being inspected.
#[verifier::external_type_specification]
#[verifier::external_body]
pub struct ExPathBuf(std::path::PathBuf);

/// One result of the underlying directory traversal, reduced to what the
/// filter reads.
pub enum Candidate {
    /// The traversal reported an error for this entry.
    Unreadable,
    /// An entry that was resolved: its full path, whether that path is a
    /// regular file, and the bytes of its final path component.
    Node { path: PathBuf, is_file: bool, file_name: Vec<u8> },
}

/// The bytes of `.json`.
pub open spec fn dot_json() -> Seq<u8> {
    seq![46u8, 106u8, 115u8, 111u8, 110u8]
}

/// A file name whose extension is exactly `json`: it ends in `.json`, and that
/// dot is not the leading dot of a hidden name (`.json` has no extension).
pub open spec fn has_json_extension(name: Seq<u8>) -> bool {
    name.len() > 5 && name.subrange(name.len() - 5, name.len() as int) == dot_json()
}

impl Candidate {
    /// The entries that the walk yields: regular files with a `json` extension.
    pub open spec fn is_json_file(self) -> bool {
        self matches Candidate::Node { is_file, file_name, .. } && is_file && has_json_extension(
            file_name@,
        )
    }

    /// What the walk yields for this entry, if anything.
    pub open spec fn selected(self) -> Option<PathBuf> {
        match self {
            Candidate::Node { path, .. } => if self.is_json_file() {
                Some(path)
            } else {
                None
            },
            Candidate::Unreadable => None,
        }
    }
}

/// The paths yielded for a sequence of traversal results, in traversal order.
pub open spec fn json_paths(s: Seq<Candidate>) -> Seq<PathBuf>
    decreases s.len(),
{
    if s.len() == 0 {
        seq![]
    } else {
        let rest = json_paths(s.drop_last());
        match s.last().selected() {
            Some(p) => rest.push(p),
            None => rest,
        }
    }
}

/// Tells whether a file name has the extension `json` (case-sensitive).
pub fn is_json_name(name: &Vec<u8>) -> (r: bool)
    ensures
        r == has_json_extension(name@),
{
    let n = name.len();
    if n <= 5 {
        return false;
    }
    let r = name[n - 5] == 46u8 && name[n - 4] == 106u8 && name[n - 3] == 115u8 && name[n - 2]
        == 111u8 && name[n - 1] == 110u8;
    proof {
        let tail = name@.subrange(n - 5, n as int);
        if r {
            assert(tail =~= dot_json());
        } else {
            assert(tail != dot_json()) by {
                if tail == dot_json() {
                    assert(tail[0] == 46u8 && tail[1] == 106u8 && tail[2] == 115u8);
                    assert(tail[3] == 111u8 && tail[4] == 110u8);
                }
            }
        }
    }
    r
}

/// Tells whether a traversal result is a regular file with a `json` extension.
pub fn is_json_file(c: &Candidate) -> (r: bool)
    ensures
        r == c.is_json_file(),
{
    match c {
        Candidate::Node { is_file, file_name, .. } => *is_file && is_json_name(file_name),
        Candidate::Unreadable => false,
    }
}

/// Classifies one traversal result: its path when it is a regular `json`
/// file, nothing when it is an error, a directory or any other entry.
pub fn classify(c: Candidate) -> (r: Option<PathBuf>)
    ensures
        r == c.selected(),
{
    let keep = is_json_file(&c);
    match c {
        Candidate::Node { path, .. } => if keep {
            Some(path)
        } else {
            None
        },
        Candidate::Unreadable => None,
    }
}

/// A file named `json`, with no dot, has no extension and is never yielded.
pub proof fn lemma_bare_json_name_excluded(c: Candidate)
    requires
        c matches Candidate::Node { file_name, .. } && file_name@ == seq![106u8, 115u8, 111u8, 110u8],
    ensures
        !c.is_json_file(),
        c.selected() is None,
{
}

/// An entry that is not a regular file (a directory above all) is never
/// yielded, whatever its name, and leaves the output unchanged.
pub proof fn lemma_non_file_never_yielded(s: Seq<Candidate>, c: Candidate)
    requires
        c matches Candidate::Node { is_file, .. } && !is_file,
    ensures
        c.selected() is None,
        json_paths(s.push(c)) == json_paths(s),
{
    assert(s.push(c).drop_last() =~= s);
}

/// An error reported by the traversal is skipped and ends nothing: the
/// output is what it would be without it.
pub proof fn lemma_unreadable_skipped(s: Seq<Candidate>, t: Seq<Candidate>)
    ensures
        json_paths(s.push(Candidate::Unreadable) + t) == json_paths(s + t),
    decreases t.len(),
{
    if t.len() == 0 {
        assert(s.push(Candidate::Unreadable) + t =~= s.push(Candidate::Unreadable));
        assert(s.push(Candidate::Unreadable).drop_last() =~= s);
        assert(s + t =~= s);
    } else {
        lemma_unreadable_skipped(s, t.drop_last());
        assert((s.push(Candidate::Unreadable) + t).drop_last() =~= s.push(Candidate::Unreadable)
            + t.drop_last());
        assert((s + t).drop_last() =~= s + t.drop_last());
    }
}

/// The output of a traversal that met no `json` file is empty; in particular
/// that of an empty directory, where only the root itself is met.
pub proof fn lemma_no_json_file_nothing_yielded(s: Seq<Candidate>)
    requires
        forall|i: int| 0 <= i < s.len() ==> !(#[trigger] s[i]).is_json_file(),
    ensures
        json_paths(s) == Seq::<PathBuf>::empty(),
    decreases s.len(),
{
    if s.len() > 0 {
        lemma_no_json_file_nothing_yielded(s.drop_last());
    }
}

/// The output holds exactly the paths of the `json` files met, in the order
/// in which the traversal met them, and nothing else.
pub proof fn lemma_exactly_json_files(s: Seq<Candidate>)
    ensures
        json_paths(s) == s.filter(|c: Candidate| c.is_json_file()).map_values(
            |c: Candidate| c->path,
        ),
    decreases s.len(),
{
    reveal(Seq::filter);
    if s.len() > 0 {
        lemma_exactly_json_files(s.drop_last());
        let f = s.filter(|c: Candidate| c.is_json_file());
        let g = s.drop_last().filter(|c: Candidate| c.is_json_file());
        if s.last().is_json_file() {
            assert(f == g.push(s.last()));
            assert(f.map_values(|c: Candidate| c->path) =~= g.map_values(|c: Candidate| c->path).push(
                s.last()->path,
            ));
        } else {
            assert(f == g);
        }
    }
}

} // verus!
