//! The Mach-O dSYM locator's deterministic parts: the sibling-bundle
//! convention, the walk up to a build-output directory, the filter for
//! `.dSYM` entries, and candidate validation against the target UUID.

use vstd::prelude::*;
use crate::bytes::bytes_eq;
use crate::names::{
    dsym_ext, dsym_suffix, dwarf_subdir, spec_dsym_ext, spec_dsym_suffix, spec_dwarf_subdir,
    spec_target_dir_name, target_dir_name,
};
use crate::bytes::push_all;
use crate::paths::{
    extension_of, file_name_of, join, lemma_parent_shorter, parent_of, spec_extension,
    spec_file_name, spec_join, spec_parent,
};

verus! {

/// The directory holding the single debug file inside a dSYM bundle.
pub open spec fn spec_dwarf_dir(dsym_dir: Seq<u8>) -> Seq<u8> {
    spec_join(dsym_dir, spec_dwarf_subdir())
}

/// Executable twin of `spec_dwarf_dir`.
pub fn dwarf_dir_of(dsym_dir: &[u8]) -> (r: Vec<u8>)
    ensures
        r@ == spec_dwarf_dir(dsym_dir@),
{
    let sub = dwarf_subdir();
    join(dsym_dir, sub.as_slice())
}

/// The sibling dSYM bundle for a binary: its file name with `.dSYM`
/// appended, beside it; nothing when the path has no file name.
pub open spec fn spec_sibling_dsym(canonical: Seq<u8>) -> Option<Seq<u8>> {
    match spec_file_name(canonical) {
        None => None,
        Some(name) => {
            let parent = match spec_parent(canonical) {
                Some(p) => p,
                None => Seq::empty(),
            };
            Some(spec_join(parent, name + spec_dsym_suffix()))
        },
    }
}

/// Executable twin of `spec_sibling_dsym`.
pub fn sibling_dsym_of(canonical: &[u8]) -> (r: Option<Vec<u8>>)
    ensures
        match r {
            Some(d) => spec_sibling_dsym(canonical@) == Some(d@),
            None => spec_sibling_dsym(canonical@) is None,
        },
{
    let name = match file_name_of(canonical) {
        Some(n) => n,
        None => {
            return None;
        },
    };
    let mut bundle_name = name;
    let suffix = dsym_suffix();
    push_all(&mut bundle_name, suffix.as_slice());
    let r = match parent_of(canonical) {
        Some(p) => join(p.as_slice(), bundle_name.as_slice()),
        None => {
            let empty: Vec<u8> = Vec::new();
            join(empty.as_slice(), bundle_name.as_slice())
        },
    };
    Some(r)
}

/// The nearest ancestor directory that sits directly inside one named
/// `target`: the conventional root of build output. The walk starts at the
/// path's parent and climbs; nothing when no such ancestor exists.
pub open spec fn spec_target_channel(p: Seq<u8>) -> Option<Seq<u8>>
    decreases p.len(),
    via spec_target_channel_dec
{
    match spec_parent(p) {
        None => None,
        Some(par) => if spec_parent(par) matches Some(gp) && spec_file_name(gp) == Some(
            spec_target_dir_name(),
        ) {
            Some(par)
        } else {
            spec_target_channel(par)
        },
    }
}

#[via_fn]
proof fn spec_target_channel_dec(p: Seq<u8>) {
    lemma_parent_shorter(p);
}

/// Executable twin of `spec_target_channel`.
pub fn find_target_channel(canonical: &[u8]) -> (r: Option<Vec<u8>>)
    ensures
        match r {
            Some(c) => spec_target_channel(canonical@) == Some(c@),
            None => spec_target_channel(canonical@) is None,
        },
{
    let mut cur: Vec<u8> = Vec::new();
    push_all(&mut cur, canonical);
    loop
        invariant
            spec_target_channel(canonical@) == spec_target_channel(cur@),
        decreases cur@.len(),
    {
        proof {
            lemma_parent_shorter(cur@);
        }
        let par = match parent_of(cur.as_slice()) {
            None => {
                return None;
            },
            Some(p) => p,
        };
        let is_hit = match parent_of(par.as_slice()) {
            None => false,
            Some(gp) => match file_name_of(gp.as_slice()) {
                None => false,
                Some(nm) => {
                    let t = target_dir_name();
                    bytes_eq(nm.as_slice(), t.as_slice())
                },
            },
        };
        if is_hit {
            return Some(par);
        }
        cur = par;
    }
}

/// The dSYM bundles among a directory's entries: each entry name with the
/// `dSYM` extension, joined onto the directory, in the listed order.
pub open spec fn spec_dsym_dirs(dir: Seq<u8>, names: Seq<Seq<u8>>) -> Seq<Seq<u8>>
    decreases names.len(),
{
    if names.len() == 0 {
        Seq::empty()
    } else {
        let rest = spec_dsym_dirs(dir, names.drop_last());
        if spec_extension(names.last()) == Some(spec_dsym_ext()) {
            rest.push(spec_join(dir, names.last()))
        } else {
            rest
        }
    }
}

/// Executable twin of `spec_dsym_dirs`.
pub fn dsym_dirs_in(dir: &[u8], entries: &Vec<Vec<u8>>) -> (r: Vec<Vec<u8>>)
    ensures
        r.deep_view() == spec_dsym_dirs(dir@, entries.deep_view()),
{
    let mut r: Vec<Vec<u8>> = Vec::new();
    let mut i: usize = 0;
    while i < entries.len()
        invariant
            i <= entries@.len(),
            r.deep_view() == spec_dsym_dirs(dir@, entries.deep_view().take(i as int)),
        decreases entries@.len() - i,
    {
        let ghost pre = r.deep_view();
        let name = &entries[i];
        let ext_ok = match extension_of(name.as_slice()) {
            Some(e) => {
                let d = dsym_ext();
                bytes_eq(e.as_slice(), d.as_slice())
            },
            None => false,
        };
        if ext_ok {
            r.push(join(dir, name.as_slice()));
        }
        proof {
            let dv = entries.deep_view();
            assert(dv.take(i + 1).drop_last() =~= dv.take(i as int));
            assert(dv.take(i + 1).last() == dv[i as int]);
            assert(dv[i as int] == entries@[i as int]@);
            if ext_ok {
                assert(r.deep_view() =~~= pre.push(spec_join(dir@, dv[i as int])));
            }
            assert(r.deep_view() =~~= spec_dsym_dirs(dir@, dv.take(i + 1)));
        }
        i = i + 1;
    }
    proof {
        assert(entries.deep_view().take(entries@.len() as int) =~= entries.deep_view());
    }
    r
}

/// The build UUID recorded in a Mach-O file, as a function of the file
/// bytes alone; nothing when the bytes do not parse as a Mach-O file with
/// a build UUID.
pub uninterp spec fn mach_uuid_of(data: Seq<u8>) -> Option<Seq<u8>>;

/// Relies on `object::File::parse` and `Object::mach_uuid`: the build
/// UUID of a Mach-O file is a function of the file bytes alone, and any
/// parse failure yields nothing.
#[verifier::external_body]
fn parse_mach_uuid(data: &[u8]) -> (r: Option<Vec<u8>>)
    ensures
        match r {
            Some(u) => mach_uuid_of(data@) == Some(u@),
            None => mach_uuid_of(data@) is None,
        },
{
    let file = match object::File::parse(data) {
        Ok(f) => f,
        Err(_) => return None,
    };
    match object::Object::mach_uuid(&file) {
        Ok(Some(u)) => Some(u.to_vec()),
        _ => None,
    }
}

/// Whether a candidate file's bytes identify the wanted debug file: the
/// bytes were readable, they parse as a Mach-O file, and its recorded
/// build UUID equals the target UUID. An unreadable or unparsable
/// candidate is never a match and never an error.
pub open spec fn spec_mach_file_matches(uuid: Seq<u8>, data: Option<Seq<u8>>) -> bool {
    &&& data matches Some(d)
    &&& mach_uuid_of(d) == Some(uuid)
}

/// Executable twin of `spec_mach_file_matches`, validating one candidate's
/// bytes (`None` stands for a candidate that could not be read).
pub fn mach_file_matches(uuid: &[u8], data: &Option<Vec<u8>>) -> (r: bool)
    ensures
        r == spec_mach_file_matches(uuid@, data.deep_view()),
{
    match data {
        None => false,
        Some(d) => {
            proof {
                assert(d.deep_view() =~= d@);
            }
            match parse_mach_uuid(d.as_slice()) {
                None => false,
                Some(u) => bytes_eq(u.as_slice(), uuid),
            }
        },
    }
}

} // verus!
