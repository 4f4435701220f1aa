//! A byte-string path model.
//!
//! Paths are byte strings. The operations mirror the usual path conventions
//! on canonical absolute paths: a single `/` separates components, the root
//! is `/`, and a file name's extension follows its last dot (a name whose
//! only dot is its first byte has no extension).

use vstd::prelude::*;
use crate::bytes::push_all;
use crate::names::spec_pdb_suffix;
use crate::names::pdb_suffix;

verus! {

/// The path separator byte.
pub open spec fn sep() -> u8 {
    '/' as u8
}

/// The extension separator byte.
pub open spec fn dot() -> u8 {
    '.' as u8
}

/// Index of the last occurrence of `c` in `p`, if any.
pub open spec fn spec_rfind(p: Seq<u8>, c: u8) -> Option<int>
    decreases p.len(),
{
    if p.len() == 0 {
        None
    } else if p.last() == c {
        Some(p.len() - 1)
    } else {
        spec_rfind(p.drop_last(), c)
    }
}

/// `spec_rfind` names the last occurrence: the index it returns holds `c`
/// and nothing after it does; `None` means `c` does not occur at all.
pub proof fn lemma_rfind(p: Seq<u8>, c: u8)
    ensures
        match spec_rfind(p, c) {
            Some(k) => 0 <= k < p.len() && p[k] == c && (forall|j: int|
                k < j < p.len() ==> p[j] != c),
            None => forall|j: int| 0 <= j < p.len() ==> p[j] != c,
        },
    decreases p.len(),
{
    if p.len() == 0 {
    } else if p.last() == c {
    } else {
        let q = p.drop_last();
        lemma_rfind(q, c);
        match spec_rfind(q, c) {
            Some(k) => {
                assert(p[k] == q[k]);
                assert forall|j: int| k < j < p.len() implies p[j] != c by {
                    if j < p.len() - 1 {
                        assert(p[j] == q[j]);
                    }
                }
            },
            None => {
                assert forall|j: int| 0 <= j < p.len() implies p[j] != c by {
                    if j < p.len() - 1 {
                        assert(p[j] == q[j]);
                    }
                }
            },
        }
    }
}

/// Executable twin of `spec_rfind`.
pub fn rfind(p: &[u8], c: u8) -> (r: Option<usize>)
    ensures
        match r {
            Some(k) => spec_rfind(p@, c) == Some(k as int),
            None => spec_rfind(p@, c) is None,
        },
{
    proof {
        assert(p@.take(p@.len() as int) =~= p@);
    }
    let mut i: usize = p.len();
    while i > 0
        invariant
            i <= p@.len(),
            spec_rfind(p@, c) == spec_rfind(p@.take(i as int), c),
        decreases i,
    {
        if p[i - 1] == c {
            proof {
                assert(p@.take(i as int).last() == p@[i - 1]);
            }
            return Some(i - 1);
        }
        proof {
            assert(p@.take(i as int).drop_last() =~= p@.take(i - 1));
        }
        i = i - 1;
    }
    None
}

/// The directory holding `p`: everything before the last separator, the
/// root `/` for a top-level entry, and nothing for the root itself or for
/// a bare name.
pub open spec fn spec_parent(p: Seq<u8>) -> Option<Seq<u8>> {
    match spec_rfind(p, sep()) {
        None => None,
        Some(k) => if k == 0 {
            if p.len() == 1 {
                None
            } else {
                Some(seq![sep()])
            }
        } else {
            Some(p.subrange(0, k))
        },
    }
}

/// Executable twin of `spec_parent`.
pub fn parent_of(p: &[u8]) -> (r: Option<Vec<u8>>)
    ensures
        match r {
            Some(q) => spec_parent(p@) == Some(q@),
            None => spec_parent(p@) is None,
        },
{
    proof {
        lemma_rfind(p@, sep());
    }
    match rfind(p, '/' as u8) {
        None => None,
        Some(k) => {
            if k == 0 {
                if p.len() == 1 {
                    None
                } else {
                    let r: Vec<u8> = vec!['/' as u8];
                    proof {
                        assert(r@ =~= seq![sep()]);
                    }
                    Some(r)
                }
            } else {
                let mut r: Vec<u8> = Vec::new();
                push_all(&mut r, vstd::slice::slice_subrange(p, 0, k));
                proof {
                    assert(r@ =~= p@.subrange(0, k as int));
                }
                Some(r)
            }
        },
    }
}

/// A parent directory is strictly shorter than the path it holds.
pub proof fn lemma_parent_shorter(p: Seq<u8>)
    ensures
        spec_parent(p) matches Some(q) ==> q.len() < p.len(),
{
    lemma_rfind(p, sep());
}

/// The last component of `p`: everything after the last separator (all of
/// `p` when it has none), and nothing when that would be empty.
pub open spec fn spec_file_name(p: Seq<u8>) -> Option<Seq<u8>> {
    match spec_rfind(p, sep()) {
        None => if p.len() == 0 {
            None
        } else {
            Some(p)
        },
        Some(k) => if k == p.len() - 1 {
            None
        } else {
            Some(p.subrange(k + 1, p.len() as int))
        },
    }
}

/// Executable twin of `spec_file_name`.
pub fn file_name_of(p: &[u8]) -> (r: Option<Vec<u8>>)
    ensures
        match r {
            Some(q) => spec_file_name(p@) == Some(q@),
            None => spec_file_name(p@) is None,
        },
{
    proof {
        lemma_rfind(p@, sep());
    }
    match rfind(p, '/' as u8) {
        None => {
            if p.len() == 0 {
                None
            } else {
                let mut r: Vec<u8> = Vec::new();
                push_all(&mut r, p);
                Some(r)
            }
        },
        Some(k) => {
            if k == p.len() - 1 {
                None
            } else {
                let mut r: Vec<u8> = Vec::new();
                push_all(&mut r, vstd::slice::slice_subrange(p, k + 1, p.len()));
                proof {
                    assert(r@ =~= p@.subrange(k + 1, p@.len() as int));
                }
                Some(r)
            }
        },
    }
}

/// The extension of a file name: everything after its last dot, provided
/// that dot is not the name's first byte.
pub open spec fn spec_extension(name: Seq<u8>) -> Option<Seq<u8>> {
    match spec_rfind(name, dot()) {
        None => None,
        Some(k) => if k == 0 {
            None
        } else {
            Some(name.subrange(k + 1, name.len() as int))
        },
    }
}

/// Executable twin of `spec_extension`.
pub fn extension_of(name: &[u8]) -> (r: Option<Vec<u8>>)
    ensures
        match r {
            Some(q) => spec_extension(name@) == Some(q@),
            None => spec_extension(name@) is None,
        },
{
    proof {
        lemma_rfind(name@, dot());
    }
    match rfind(name, '.' as u8) {
        None => None,
        Some(k) => {
            if k == 0 {
                None
            } else {
                let n = name.len();
                let mut r: Vec<u8> = Vec::new();
                push_all(&mut r, vstd::slice::slice_subrange(name, k + 1, n));
                proof {
                    assert(r@ =~= name@.subrange(k + 1, name@.len() as int));
                }
                Some(r)
            }
        },
    }
}

/// The stem of a file name: everything before its last dot, or the whole
/// name when it has no extension.
pub open spec fn spec_stem(name: Seq<u8>) -> Seq<u8> {
    match spec_rfind(name, dot()) {
        None => name,
        Some(k) => if k == 0 {
            name
        } else {
            name.subrange(0, k)
        },
    }
}

/// A file name with its extension replaced by `pdb` (appended when the
/// name has no extension).
pub open spec fn spec_with_pdb_ext(name: Seq<u8>) -> Seq<u8> {
    spec_stem(name) + spec_pdb_suffix()
}

/// Executable twin of `spec_with_pdb_ext`.
pub fn with_pdb_ext(name: &[u8]) -> (r: Vec<u8>)
    ensures
        r@ == spec_with_pdb_ext(name@),
{
    let mut r: Vec<u8> = Vec::new();
    proof {
        lemma_rfind(name@, dot());
    }
    match rfind(name, '.' as u8) {
        None => {
            push_all(&mut r, name);
        },
        Some(k) => {
            if k == 0 {
                push_all(&mut r, name);
            } else {
                push_all(&mut r, vstd::slice::slice_subrange(name, 0, k));
            }
        },
    }
    proof {
        assert(r@ =~= spec_stem(name@));
    }
    let suffix = pdb_suffix();
    push_all(&mut r, suffix.as_slice());
    r
}

/// `p` with one leading separator removed.
pub open spec fn spec_strip_root(p: Seq<u8>) -> Seq<u8> {
    if p.len() > 0 && p[0] == sep() {
        p.drop_first()
    } else {
        p
    }
}

/// Executable twin of `spec_strip_root`.
pub fn strip_root(p: &[u8]) -> (r: Vec<u8>)
    ensures
        r@ == spec_strip_root(p@),
{
    let mut r: Vec<u8> = Vec::new();
    if p.len() > 0 && p[0] == '/' as u8 {
        push_all(&mut r, vstd::slice::slice_subrange(p, 1, p.len()));
        proof {
            assert(r@ =~= p@.drop_first());
        }
    } else {
        push_all(&mut r, p);
    }
    r
}

/// Joining `b` onto the directory `a`: a single separator is placed between
/// them, an absolute `b` replaces `a`, an empty side yields the other.
pub open spec fn spec_join(a: Seq<u8>, b: Seq<u8>) -> Seq<u8> {
    if a.len() == 0 {
        b
    } else if b.len() == 0 {
        a
    } else if b[0] == sep() {
        b
    } else if a[a.len() - 1] == sep() {
        a + b
    } else {
        a + seq![sep()] + b
    }
}

/// Executable twin of `spec_join`.
pub fn join(a: &[u8], b: &[u8]) -> (r: Vec<u8>)
    ensures
        r@ == spec_join(a@, b@),
{
    let mut r: Vec<u8> = Vec::new();
    if a.len() == 0 {
        push_all(&mut r, b);
    } else if b.len() == 0 {
        push_all(&mut r, a);
    } else if b[0] == '/' as u8 {
        push_all(&mut r, b);
    } else if a[a.len() - 1] == '/' as u8 {
        push_all(&mut r, a);
        push_all(&mut r, b);
    } else {
        push_all(&mut r, a);
        r.push('/' as u8);
        push_all(&mut r, b);
        proof {
            assert(r@ =~= a@ + seq![sep()] + b@);
        }
    }
    r
}

} // verus!
