//! The build-id locator's deterministic part: path construction.
//!
//! Build-id paths are content-addressed by construction, so existence at
//! the canonical path is the sole check; the engine probes the constructed
//! path and performs no content validation for this strategy.

use vstd::prelude::*;
use crate::bytes::push_all;
use crate::descriptor::LocateError;
use crate::hex::{hex_digit, push_hex, spec_hex, spec_hex_byte};
use crate::names::{build_id_prefix, debug_suffix, spec_build_id_prefix, spec_debug_suffix};
use crate::paths::sep;

verus! {

/// The canonical debug-file path for a build-id: the first byte names a
/// directory under `/usr/lib/debug/.build-id/`, the remaining bytes (in
/// lower-case two-digit hex) name the `.debug` file inside it.
pub open spec fn spec_build_id_path(id: Seq<u8>) -> Seq<u8>
    recommends
        id.len() >= 2,
{
    spec_build_id_prefix() + spec_hex_byte(id[0]) + seq![sep()] + spec_hex(id.drop_first())
        + spec_debug_suffix()
}

/// Constructs the canonical debug-file path for build-id `id`, or fails
/// with `TooShort` when `id` has fewer than two bytes. Construction alone:
/// whether the file exists is for the engine's probe to establish, and no
/// filesystem is touched here.
pub fn locate_debug_build_id(id: &[u8]) -> (r: Result<Vec<u8>, LocateError>)
    ensures
        id@.len() >= 2 ==> (r matches Ok(p) && p@ == spec_build_id_path(id@)),
        id@.len() < 2 ==> (r matches Err(e) && e == LocateError::TooShort),
{
    let n = id.len();
    if n < 2 {
        return Err(LocateError::TooShort);
    }
    let mut p = build_id_prefix();
    p.push(hex_digit(id[0] / 16));
    p.push(hex_digit(id[0] % 16));
    p.push('/' as u8);
    push_hex(&mut p, vstd::slice::slice_subrange(id, 1, n));
    let suffix = debug_suffix();
    push_all(&mut p, suffix.as_slice());
    proof {
        assert(id@.subrange(1, n as int) =~= id@.drop_first());
        assert(p@ =~= spec_build_id_path(id@));
    }
    Ok(p)
}

} // verus!
