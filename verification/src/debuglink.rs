//! The GNU debug-link locator's deterministic part: the ordered candidate
//! paths tried for a debug-link filename.

use vstd::prelude::*;
use crate::bytes::bytes_eq;
use crate::descriptor::LocateError;
use crate::names::{debug_suffix, spec_debug_suffix, spec_usr_lib_debug, usr_lib_debug};
use crate::paths::{
    join, parent_of, spec_join, spec_parent, spec_strip_root, strip_root,
};

verus! {

/// The ordered debug-link candidates for a binary whose canonical path is
/// `canonical`, with parent directory `parent`:
/// `<parent>/<filename>` (omitted when it is path-equal to the binary
/// itself, even if such a file exists), then `<parent>/.debug/<filename>`,
/// then `/usr/lib/debug/<parent without its leading separator>/<filename>`.
/// The first existing candidate wins; existence alone is the check.
pub open spec fn spec_debuglink_candidates(
    canonical: Seq<u8>,
    parent: Seq<u8>,
    filename: Seq<u8>,
) -> Seq<Seq<u8>> {
    let direct = spec_join(parent, filename);
    let hidden = spec_join(spec_join(parent, spec_debug_suffix()), filename);
    let global = spec_join(
        spec_join(spec_usr_lib_debug(), spec_strip_root(parent)),
        filename,
    );
    if direct == canonical {
        seq![hidden, global]
    } else {
        seq![direct, hidden, global]
    }
}

/// Law: the direct sibling candidate is skipped whenever it names the
/// canonicalized binary itself; only the `.debug`-directory candidate and
/// the global `/usr/lib/debug` candidate remain, in that order.
pub proof fn lemma_debuglink_skips_self(canonical: Seq<u8>, parent: Seq<u8>, filename: Seq<u8>)
    requires
        spec_join(parent, filename) == canonical,
    ensures
        spec_debuglink_candidates(canonical, parent, filename) == seq![
            spec_join(spec_join(parent, spec_debug_suffix()), filename),
            spec_join(spec_join(spec_usr_lib_debug(), spec_strip_root(parent)), filename),
        ],
{
}

/// Computes the ordered debug-link candidates from the canonical binary
/// path, or fails with `BadPath` when that path has no parent directory.
pub fn debuglink_candidates(canonical: &[u8], filename: &[u8]) -> (r: Result<
    Vec<Vec<u8>>,
    LocateError,
>)
    ensures
        match r {
            Ok(v) => spec_parent(canonical@) matches Some(par) && v.deep_view()
                == spec_debuglink_candidates(canonical@, par, filename@) && v@.len() >= 2,
            Err(e) => spec_parent(canonical@) is None && e == LocateError::BadPath,
        },
{
    let parent = match parent_of(canonical) {
        Some(p) => p,
        None => {
            return Err(LocateError::BadPath);
        },
    };
    let direct = join(parent.as_slice(), filename);
    let dot_debug = debug_suffix();
    let hidden_dir = join(parent.as_slice(), dot_debug.as_slice());
    let hidden = join(hidden_dir.as_slice(), filename);
    let global_root = usr_lib_debug();
    let stripped = strip_root(parent.as_slice());
    let global_dir = join(global_root.as_slice(), stripped.as_slice());
    let global = join(global_dir.as_slice(), filename);
    let mut v: Vec<Vec<u8>> = Vec::new();
    if !bytes_eq(direct.as_slice(), canonical) {
        v.push(direct);
    }
    v.push(hidden);
    v.push(global);
    proof {
        assert(v.deep_view() =~~= spec_debuglink_candidates(
            canonical@,
            parent@,
            filename@,
        ));
    }
    Ok(v)
}

} // verus!
