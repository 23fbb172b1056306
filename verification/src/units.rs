//! Unit-of-work enumeration: discovering the documents to process from a
//! snapshot of a directory tree, and mapping each unit to its output path.
//!
//! The filesystem walk itself is an external collaborator: the caller takes
//! a snapshot of the tree as a [`DirTree`] value. Enumeration over the
//! snapshot is a pure function, so running it twice over an unchanged tree
//! yields the same sequence of unit identities — the order is fixed by the
//! traversal (depth-first, children in order).
//!
//! Filtering is by file extension, compared ASCII-case-insensitively on
//! the name's UTF-8 bytes.

use vstd::prelude::*;
use vstd::string::StringExecFns;
use vstd::string::StringSliceAdditionalSpecFns;

verus! {

/// A snapshot of a directory tree.
#[derive(Debug)]
pub enum DirTree {
    /// A file with its name (the last path component)
    File {
        /// The file's name
        name: String,
    },
    /// A directory with its name and entries, in traversal order
    Dir {
        /// The directory's name
        name: String,
        /// The directory's entries
        children: Vec<DirTree>,
    },
}

/// ASCII lowering of one byte.
pub open spec fn lower_byte(b: u8) -> u8 {
    if 65 <= b <= 90 {
        (b + 32) as u8
    } else {
        b
    }
}

/// ASCII lowering of a byte string.
pub open spec fn lower_bytes(s: Seq<u8>) -> Seq<u8> {
    s.map_values(|b: u8| lower_byte(b))
}

/// Whether `name` ends in a dot followed by `ext`, comparing the extension
/// ASCII-case-insensitively. Both are UTF-8 bytes; `ext` carries no dot.
pub open spec fn ext_matches(name: Seq<u8>, ext: Seq<u8>) -> bool {
    &&& name.len() > ext.len()
    &&& name[name.len() - ext.len() - 1] == 46u8
    &&& lower_bytes(name.skip(name.len() - ext.len())) == lower_bytes(ext)
}

/// `prefix/name`, or just `name` under an empty prefix.
pub open spec fn joined(prefix: Seq<char>, name: Seq<char>) -> Seq<char> {
    if prefix.len() == 0 {
        name
    } else {
        prefix + "/"@ + name
    }
}

/// The unit identities found under `t` reached through `prefix`: the paths
/// of the files whose extension matches, in traversal order.
pub open spec fn tree_units(t: DirTree, prefix: Seq<char>, ext: Seq<u8>) -> Seq<Seq<char>>
    decreases t,
{
    match t {
        DirTree::File { name } => if ext_matches(vstd::utf8::encode_utf8(name@), ext) {
            seq![joined(prefix, name@)]
        } else {
            seq![]
        },
        DirTree::Dir { name, children } => forest_units(children@, joined(prefix, name@), ext),
    }
}

/// The unit identities found under a sequence of sibling trees.
pub open spec fn forest_units(ts: Seq<DirTree>, prefix: Seq<char>, ext: Seq<u8>) -> Seq<Seq<char>>
    decreases ts,
{
    if ts.len() == 0 {
        seq![]
    } else {
        tree_units(ts[0], prefix, ext) + forest_units(ts.drop_first(), prefix, ext)
    }
}

/// ASCII lowering of one byte.
fn lower_byte_exec(b: u8) -> (r: u8)
    ensures
        r == lower_byte(b),
{
    if 65 <= b && b <= 90 {
        b + 32
    } else {
        b
    }
}

/// Whether `name` ends in a dot followed by `ext`, comparing the extension
/// ASCII-case-insensitively.
#[verifier::loop_isolation(false)]
pub fn has_extension_ci(name: &str, ext: &str) -> (r: bool)
    ensures
        r == ext_matches(name.spec_bytes(), ext.spec_bytes()),
{
    let nb: &[u8] = name.as_bytes();
    let eb: &[u8] = ext.as_bytes();
    let n: usize = nb.len();
    let e: usize = eb.len();
    if n <= e {
        return false;
    }
    if nb[n - e - 1] != 46 {
        return false;
    }
    let mut j: usize = 0;
    while j < e
        invariant
            0 <= j <= e,
            n == nb@.len(),
            e == eb@.len(),
            n > e,
            forall|k: int| 0 <= k < j ==> lower_byte(nb@[n - e + k]) == lower_byte(eb@[k]),
        decreases e - j,
    {
        if lower_byte_exec(nb[n - e + j]) != lower_byte_exec(eb[j]) {
            proof {
                assert(nb@.skip(n - e)[j as int] == nb@[n - e + j]);
                assert(lower_bytes(nb@.skip(n - e))[j as int] != lower_bytes(eb@)[j as int]);
                assert(lower_bytes(nb@.skip(n - e)) != lower_bytes(eb@));
            }
            return false;
        }
        j = j + 1;
    }
    proof {
        assert(lower_bytes(nb@.skip(n - e)) =~= lower_bytes(eb@));
    }
    true
}

/// Joins a path prefix and a name with a separator; an empty prefix yields
/// the bare name.
pub fn path_join(prefix: &str, name: &str) -> (r: String)
    ensures
        r@ == joined(prefix@, name@),
{
    if prefix.is_empty() {
        name.to_owned()
    } else {
        let mut s = prefix.to_owned();
        s.append("/");
        s.append(name);
        s
    }
}

/// Recursively discovers the units of work under `t`: the files whose
/// extension matches `ext` (ASCII-case-insensitively), as their paths under
/// `prefix`, in traversal order. A pure function of the snapshot: two runs
/// over an unchanged tree yield the same sequence.
#[verifier::loop_isolation(false)]
pub fn enumerate_units(t: &DirTree, prefix: &str, ext: &str) -> (r: Vec<String>)
    ensures
        r@.map_values(|s: String| s@) == tree_units(*t, prefix@, ext.spec_bytes()),
    decreases *t,
{
    let ghost ge = ext.spec_bytes();
    match t {
        DirTree::File { name } => {
            let mut out: Vec<String> = Vec::new();
            if has_extension_ci(name.as_str(), ext) {
                out.push(path_join(prefix, name.as_str()));
            }
            proof {
                assert(out@.map_values(|s: String| s@) =~= tree_units(*t, prefix@, ge));
            }
            out
        },
        DirTree::Dir { name, children } => {
            let dir_prefix = path_join(prefix, name.as_str());
            let mut out: Vec<String> = Vec::new();
            let n: usize = children.len();
            let mut i: usize = 0;
            proof {
                assert(children@.skip(0) =~= children@);
                assert(out@.map_values(|s: String| s@) =~= Seq::<Seq<char>>::empty());
            }
            while i < n
                invariant
                    0 <= i <= n,
                    n == children@.len(),
                    dir_prefix@ == joined(prefix@, name@),
                    ge == ext.spec_bytes(),
                    out@.map_values(|s: String| s@) + forest_units(
                        children@.skip(i as int),
                        dir_prefix@,
                        ge,
                    ) == forest_units(children@, dir_prefix@, ge),
                decreases n - i,
            {
                let ghost prev_out = out@;
                proof {
                    assert(decreases_to!(*t => t->Dir_children));
                    assert(decreases_to!(t->Dir_children => t->Dir_children@));
                    assert(decreases_to!(t->Dir_children@ => t->Dir_children@[i as int]));
                    assert(decreases_to!(*t => children@[i as int]));
                }
                let mut sub = enumerate_units(&children[i], dir_prefix.as_str(), ext);
                out.append(&mut sub);
                proof {
                    assert(children@.skip(i as int).drop_first() =~= children@.skip(i + 1));
                    assert(children@.skip(i as int)[0] == children@[i as int]);
                    assert(out@.map_values(|s: String| s@) =~= prev_out.map_values(|s: String| s@)
                        + tree_units(children@[i as int], dir_prefix@, ge));
                    assert(out@.map_values(|s: String| s@) + forest_units(
                        children@.skip(i + 1),
                        dir_prefix@,
                        ge,
                    ) =~= forest_units(children@, dir_prefix@, ge));
                }
                i = i + 1;
            }
            proof {
                assert(children@.skip(n as int) =~= Seq::<DirTree>::empty());
                assert(out@.map_values(|s: String| s@) =~= tree_units(*t, prefix@, ge));
            }
            out
        },
    }
}

/// Where the stem of `path` ends, scanning leftward from position `i`: the
/// position of the last dot of the final path component, or the path's
/// length when that component has no dot.
pub open spec fn stem_end(path: Seq<char>, i: int) -> int
    decreases i,
{
    if i <= 0 {
        path.len() as int
    } else if path[i - 1] == '.' {
        i - 1
    } else if path[i - 1] == '/' {
        path.len() as int
    } else {
        stem_end(path, i - 1)
    }
}

/// `path` with its extension replaced by `new_ext`: everything up to the
/// last dot of the final component (all of `path` when it has none), then
/// a dot and `new_ext`.
pub open spec fn replaced_ext(path: Seq<char>, new_ext: Seq<char>) -> Seq<char> {
    path.take(stem_end(path, path.len() as int)) + seq!['.'] + new_ext
}

/// The output path for a unit: its relative path mirrored under the output
/// root, with the extension remapped to the result format.
pub open spec fn output_path(root: Seq<char>, rel: Seq<char>, new_ext: Seq<char>) -> Seq<char> {
    joined(root, replaced_ext(rel, new_ext))
}

/// Finds where the stem of `rel` ends: the position of the last dot of the
/// final path component, or the length when there is none.
#[verifier::loop_isolation(false)]
fn stem_end_exec(rel: &str) -> (e: usize)
    ensures
        e == stem_end(rel@, rel@.len() as int),
        e <= rel@.len(),
{
    let n: usize = rel.unicode_len();
    let mut i: usize = n;
    while i > 0
        invariant
            0 <= i <= n,
            n == rel@.len(),
            stem_end(rel@, n as int) == stem_end(rel@, i as int),
        decreases i,
    {
        let c = rel.get_char(i - 1);
        if c == '.' {
            return i - 1;
        }
        if c == '/' {
            return n;
        }
        i = i - 1;
    }
    n
}

/// Computes a unit's output path: the relative path mirrored under the
/// output root, with its extension replaced by `new_ext` (a dot and
/// `new_ext` are appended when the final component has no dot).
pub fn output_path_for(output_root: &str, rel_path: &str, new_ext: &str) -> (r: String)
    ensures
        r@ == output_path(output_root@, rel_path@, new_ext@),
{
    let e = stem_end_exec(rel_path);
    let stem = rel_path.substring_char(0, e);
    let mut name = stem.to_owned();
    name.append(".");
    name.append(new_ext);
    proof {
        reveal_strlit(".");
        assert(name@ =~= replaced_ext(rel_path@, new_ext@));
    }
    path_join(output_root, name.as_str())
}

/// Law: enumeration is idempotent — it is a pure function of the snapshot,
/// so two runs over an unchanged tree yield the same unit identities, in
/// the same (traversal-determined) order, and in particular the same set.
pub proof fn lemma_enumeration_idempotent(
    t: DirTree,
    prefix: Seq<char>,
    ext: Seq<u8>,
    first: Seq<Seq<char>>,
    second: Seq<Seq<char>>,
)
    requires
        first == tree_units(t, prefix, ext),
        second == tree_units(t, prefix, ext),
    ensures
        first == second,
        first.to_set() == second.to_set(),
{
}

} // verus!
