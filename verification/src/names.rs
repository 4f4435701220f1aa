//! The literal path segments, prefixes and environment-variable names that
//! the search conventions are built from, as byte strings, each with its
//! specification-level value.

use vstd::prelude::*;

verus! {

/// `"/usr/lib/debug/.build-id/"` as a byte sequence.
pub open spec fn spec_build_id_prefix() -> Seq<u8> {
    seq!['/' as u8, 'u' as u8, 's' as u8, 'r' as u8, '/' as u8, 'l' as u8, 'i' as u8, 'b' as u8, '/' as u8, 'd' as u8, 'e' as u8, 'b' as u8, 'u' as u8, 'g' as u8, '/' as u8, '.' as u8, 'b' as u8, 'u' as u8, 'i' as u8, 'l' as u8, 'd' as u8, '-' as u8, 'i' as u8, 'd' as u8, '/' as u8]
}

/// Executable twin of `spec_build_id_prefix`.
pub fn build_id_prefix() -> (r: Vec<u8>)
    ensures
        r@ == spec_build_id_prefix(),
{
    let r: Vec<u8> = vec!['/' as u8, 'u' as u8, 's' as u8, 'r' as u8, '/' as u8, 'l' as u8, 'i' as u8, 'b' as u8, '/' as u8, 'd' as u8, 'e' as u8, 'b' as u8, 'u' as u8, 'g' as u8, '/' as u8, '.' as u8, 'b' as u8, 'u' as u8, 'i' as u8, 'l' as u8, 'd' as u8, '-' as u8, 'i' as u8, 'd' as u8, '/' as u8];
    proof {
        assert(r@ =~= spec_build_id_prefix());
    }
    r
}

/// `".debug"` as a byte sequence.
pub open spec fn spec_debug_suffix() -> Seq<u8> {
    seq!['.' as u8, 'd' as u8, 'e' as u8, 'b' as u8, 'u' as u8, 'g' as u8]
}

/// Executable twin of `spec_debug_suffix`.
pub fn debug_suffix() -> (r: Vec<u8>)
    ensures
        r@ == spec_debug_suffix(),
{
    let r: Vec<u8> = vec!['.' as u8, 'd' as u8, 'e' as u8, 'b' as u8, 'u' as u8, 'g' as u8];
    proof {
        assert(r@ =~= spec_debug_suffix());
    }
    r
}

/// `"/usr/lib/debug"` as a byte sequence.
pub open spec fn spec_usr_lib_debug() -> Seq<u8> {
    seq!['/' as u8, 'u' as u8, 's' as u8, 'r' as u8, '/' as u8, 'l' as u8, 'i' as u8, 'b' as u8, '/' as u8, 'd' as u8, 'e' as u8, 'b' as u8, 'u' as u8, 'g' as u8]
}

/// Executable twin of `spec_usr_lib_debug`.
pub fn usr_lib_debug() -> (r: Vec<u8>)
    ensures
        r@ == spec_usr_lib_debug(),
{
    let r: Vec<u8> = vec!['/' as u8, 'u' as u8, 's' as u8, 'r' as u8, '/' as u8, 'l' as u8, 'i' as u8, 'b' as u8, '/' as u8, 'd' as u8, 'e' as u8, 'b' as u8, 'u' as u8, 'g' as u8];
    proof {
        assert(r@ =~= spec_usr_lib_debug());
    }
    r
}

/// `".dSYM"` as a byte sequence.
pub open spec fn spec_dsym_suffix() -> Seq<u8> {
    seq!['.' as u8, 'd' as u8, 'S' as u8, 'Y' as u8, 'M' as u8]
}

/// Executable twin of `spec_dsym_suffix`.
pub fn dsym_suffix() -> (r: Vec<u8>)
    ensures
        r@ == spec_dsym_suffix(),
{
    let r: Vec<u8> = vec!['.' as u8, 'd' as u8, 'S' as u8, 'Y' as u8, 'M' as u8];
    proof {
        assert(r@ =~= spec_dsym_suffix());
    }
    r
}

/// `"dSYM"` as a byte sequence.
pub open spec fn spec_dsym_ext() -> Seq<u8> {
    seq!['d' as u8, 'S' as u8, 'Y' as u8, 'M' as u8]
}

/// Executable twin of `spec_dsym_ext`.
pub fn dsym_ext() -> (r: Vec<u8>)
    ensures
        r@ == spec_dsym_ext(),
{
    let r: Vec<u8> = vec!['d' as u8, 'S' as u8, 'Y' as u8, 'M' as u8];
    proof {
        assert(r@ =~= spec_dsym_ext());
    }
    r
}

/// `"Contents/Resources/DWARF"` as a byte sequence.
pub open spec fn spec_dwarf_subdir() -> Seq<u8> {
    seq!['C' as u8, 'o' as u8, 'n' as u8, 't' as u8, 'e' as u8, 'n' as u8, 't' as u8, 's' as u8, '/' as u8, 'R' as u8, 'e' as u8, 's' as u8, 'o' as u8, 'u' as u8, 'r' as u8, 'c' as u8, 'e' as u8, 's' as u8, '/' as u8, 'D' as u8, 'W' as u8, 'A' as u8, 'R' as u8, 'F' as u8]
}

/// Executable twin of `spec_dwarf_subdir`.
pub fn dwarf_subdir() -> (r: Vec<u8>)
    ensures
        r@ == spec_dwarf_subdir(),
{
    let r: Vec<u8> = vec!['C' as u8, 'o' as u8, 'n' as u8, 't' as u8, 'e' as u8, 'n' as u8, 't' as u8, 's' as u8, '/' as u8, 'R' as u8, 'e' as u8, 's' as u8, 'o' as u8, 'u' as u8, 'r' as u8, 'c' as u8, 'e' as u8, 's' as u8, '/' as u8, 'D' as u8, 'W' as u8, 'A' as u8, 'R' as u8, 'F' as u8];
    proof {
        assert(r@ =~= spec_dwarf_subdir());
    }
    r
}

/// `"target"` as a byte sequence.
pub open spec fn spec_target_dir_name() -> Seq<u8> {
    seq!['t' as u8, 'a' as u8, 'r' as u8, 'g' as u8, 'e' as u8, 't' as u8]
}

/// Executable twin of `spec_target_dir_name`.
pub fn target_dir_name() -> (r: Vec<u8>)
    ensures
        r@ == spec_target_dir_name(),
{
    let r: Vec<u8> = vec!['t' as u8, 'a' as u8, 'r' as u8, 'g' as u8, 'e' as u8, 't' as u8];
    proof {
        assert(r@ =~= spec_target_dir_name());
    }
    r
}

/// `"deps"` as a byte sequence.
pub open spec fn spec_deps_dir_name() -> Seq<u8> {
    seq!['d' as u8, 'e' as u8, 'p' as u8, 's' as u8]
}

/// Executable twin of `spec_deps_dir_name`.
pub fn deps_dir_name() -> (r: Vec<u8>)
    ensures
        r@ == spec_deps_dir_name(),
{
    let r: Vec<u8> = vec!['d' as u8, 'e' as u8, 'p' as u8, 's' as u8];
    proof {
        assert(r@ =~= spec_deps_dir_name());
    }
    r
}

/// `"examples"` as a byte sequence.
pub open spec fn spec_examples_dir_name() -> Seq<u8> {
    seq!['e' as u8, 'x' as u8, 'a' as u8, 'm' as u8, 'p' as u8, 'l' as u8, 'e' as u8, 's' as u8]
}

/// Executable twin of `spec_examples_dir_name`.
pub fn examples_dir_name() -> (r: Vec<u8>)
    ensures
        r@ == spec_examples_dir_name(),
{
    let r: Vec<u8> = vec!['e' as u8, 'x' as u8, 'a' as u8, 'm' as u8, 'p' as u8, 'l' as u8, 'e' as u8, 's' as u8];
    proof {
        assert(r@ =~= spec_examples_dir_name());
    }
    r
}

/// `"srv*"` as a byte sequence.
pub open spec fn spec_srv_prefix() -> Seq<u8> {
    seq!['s' as u8, 'r' as u8, 'v' as u8, '*' as u8]
}

/// Executable twin of `spec_srv_prefix`.
pub fn srv_prefix() -> (r: Vec<u8>)
    ensures
        r@ == spec_srv_prefix(),
{
    let r: Vec<u8> = vec!['s' as u8, 'r' as u8, 'v' as u8, '*' as u8];
    proof {
        assert(r@ =~= spec_srv_prefix());
    }
    r
}

/// `"cache*"` as a byte sequence.
pub open spec fn spec_cache_prefix() -> Seq<u8> {
    seq!['c' as u8, 'a' as u8, 'c' as u8, 'h' as u8, 'e' as u8, '*' as u8]
}

/// Executable twin of `spec_cache_prefix`.
pub fn cache_prefix() -> (r: Vec<u8>)
    ensures
        r@ == spec_cache_prefix(),
{
    let r: Vec<u8> = vec!['c' as u8, 'a' as u8, 'c' as u8, 'h' as u8, 'e' as u8, '*' as u8];
    proof {
        assert(r@ =~= spec_cache_prefix());
    }
    r
}

/// `"_NT_SYMBOL_PATH"` as a byte sequence.
pub open spec fn spec_env_symbol_path() -> Seq<u8> {
    seq!['_' as u8, 'N' as u8, 'T' as u8, '_' as u8, 'S' as u8, 'Y' as u8, 'M' as u8, 'B' as u8, 'O' as u8, 'L' as u8, '_' as u8, 'P' as u8, 'A' as u8, 'T' as u8, 'H' as u8]
}

/// Executable twin of `spec_env_symbol_path`.
pub fn env_symbol_path() -> (r: Vec<u8>)
    ensures
        r@ == spec_env_symbol_path(),
{
    let r: Vec<u8> = vec!['_' as u8, 'N' as u8, 'T' as u8, '_' as u8, 'S' as u8, 'Y' as u8, 'M' as u8, 'B' as u8, 'O' as u8, 'L' as u8, '_' as u8, 'P' as u8, 'A' as u8, 'T' as u8, 'H' as u8];
    proof {
        assert(r@ =~= spec_env_symbol_path());
    }
    r
}

/// `"_NT_ALT_SYMBOL_PATH"` as a byte sequence.
pub open spec fn spec_env_alt_symbol_path() -> Seq<u8> {
    seq!['_' as u8, 'N' as u8, 'T' as u8, '_' as u8, 'A' as u8, 'L' as u8, 'T' as u8, '_' as u8, 'S' as u8, 'Y' as u8, 'M' as u8, 'B' as u8, 'O' as u8, 'L' as u8, '_' as u8, 'P' as u8, 'A' as u8, 'T' as u8, 'H' as u8]
}

/// Executable twin of `spec_env_alt_symbol_path`.
pub fn env_alt_symbol_path() -> (r: Vec<u8>)
    ensures
        r@ == spec_env_alt_symbol_path(),
{
    let r: Vec<u8> = vec!['_' as u8, 'N' as u8, 'T' as u8, '_' as u8, 'A' as u8, 'L' as u8, 'T' as u8, '_' as u8, 'S' as u8, 'Y' as u8, 'M' as u8, 'B' as u8, 'O' as u8, 'L' as u8, '_' as u8, 'P' as u8, 'A' as u8, 'T' as u8, 'H' as u8];
    proof {
        assert(r@ =~= spec_env_alt_symbol_path());
    }
    r
}

/// `".pdb"` as a byte sequence.
pub open spec fn spec_pdb_suffix() -> Seq<u8> {
    seq!['.' as u8, 'p' as u8, 'd' as u8, 'b' as u8]
}

/// Executable twin of `spec_pdb_suffix`.
pub fn pdb_suffix() -> (r: Vec<u8>)
    ensures
        r@ == spec_pdb_suffix(),
{
    let r: Vec<u8> = vec!['.' as u8, 'p' as u8, 'd' as u8, 'b' as u8];
    proof {
        assert(r@ =~= spec_pdb_suffix());
    }
    r
}

/// `"symbols"` as a byte sequence.
pub open spec fn spec_symbols_dir_name() -> Seq<u8> {
    seq!['s' as u8, 'y' as u8, 'm' as u8, 'b' as u8, 'o' as u8, 'l' as u8, 's' as u8]
}

/// Executable twin of `spec_symbols_dir_name`.
pub fn symbols_dir_name() -> (r: Vec<u8>)
    ensures
        r@ == spec_symbols_dir_name(),
{
    let r: Vec<u8> = vec!['s' as u8, 'y' as u8, 'm' as u8, 'b' as u8, 'o' as u8, 'l' as u8, 's' as u8];
    proof {
        assert(r@ =~= spec_symbols_dir_name());
    }
    r
}

} // verus!
