//! The PDB locator's deterministic parts: splitting a symbol search path,
//! recognizing unsupported (symbol-server) entries, the per-directory
//! filename conventions, and candidate validation against the target
//! GUID and age.

use vstd::prelude::*;
use crate::bytes::{bytes_eq, spec_starts_with, starts_with};
use crate::names::{
    cache_prefix, spec_cache_prefix, spec_srv_prefix, spec_symbols_dir_name, srv_prefix,
    symbols_dir_name,
};
use crate::paths::{
    file_name_of, join, spec_extension, spec_file_name, spec_join, spec_with_pdb_ext,
    with_pdb_ext, extension_of,
};

verus! {

/// Splitting a byte string at every occurrence of `c`, keeping empty
/// segments: the result always holds one more segment than `p` holds
/// separators, in order.
pub open spec fn spec_split(p: Seq<u8>, c: u8) -> Seq<Seq<u8>>
    decreases p.len(),
{
    if p.len() == 0 {
        seq![Seq::empty()]
    } else {
        let rest = spec_split(p.drop_last(), c);
        if p.last() == c {
            rest.push(Seq::empty())
        } else {
            rest.update(rest.len() - 1, rest.last().push(p.last()))
        }
    }
}

/// Executable twin of `spec_split`.
pub fn split_on(p: &[u8], c: u8) -> (r: Vec<Vec<u8>>)
    ensures
        r.deep_view() == spec_split(p@, c),
{
    let mut done: Vec<Vec<u8>> = Vec::new();
    let mut cur: Vec<u8> = Vec::new();
    let mut i: usize = 0;
    while i < p.len()
        invariant
            i <= p@.len(),
            done.deep_view().push(cur@) == spec_split(p@.take(i as int), c),
        decreases p@.len() - i,
    {
        let ghost pre_done = done.deep_view();
        let ghost pre_cur = cur@;
        if p[i] == c {
            done.push(cur);
            cur = Vec::new();
            proof {
                assert(done.deep_view() =~~= pre_done.push(pre_cur));
            }
        } else {
            cur.push(p[i]);
        }
        proof {
            let t = p@.take(i + 1);
            assert(t.drop_last() =~= p@.take(i as int));
            assert(t.last() == p@[i as int]);
            if p@[i as int] == c {
                assert(done.deep_view().push(cur@) =~~= spec_split(p@.take(i as int), c).push(
                    Seq::empty(),
                ));
            } else {
                let prev = spec_split(p@.take(i as int), c);
                assert(prev == pre_done.push(pre_cur));
                assert(prev.len() - 1 == pre_done.len());
                assert(prev.last() == pre_cur);
                assert(done.deep_view().push(cur@) =~~= prev.update(
                    prev.len() - 1,
                    prev.last().push(p@[i as int]),
                ));
            }
        }
        i = i + 1;
    }
    proof {
        assert(p@.take(p@.len() as int) =~= p@);
    }
    done.push(cur);
    proof {
        assert(done.deep_view() =~~= spec_split(p@, c));
    }
    done
}

/// Whether a search-path entry is supported: entries beginning with
/// `srv*` or `cache*` denote symbol-server syntax and are skipped without
/// any filesystem access, leaving the remaining entries unaffected.
pub open spec fn spec_supported_entry(e: Seq<u8>) -> bool {
    !spec_starts_with(e, spec_srv_prefix()) && !spec_starts_with(e, spec_cache_prefix())
}

/// Executable twin of `spec_supported_entry`.
pub fn supported_entry(e: &[u8]) -> (r: bool)
    ensures
        r == spec_supported_entry(e@),
{
    let srv = srv_prefix();
    let cache = cache_prefix();
    !starts_with(e, srv.as_slice()) && !starts_with(e, cache.as_slice())
}

/// The three filename conventions tried inside one search directory, in
/// order: `<dir>/<stem>.pdb`, `<dir>/<extension>/<stem>.pdb`, and
/// `<dir>/symbols/<extension>/<stem>.pdb`, where the stem and extension
/// come from `name_src` (the binary's path). A binary whose filename has
/// no extension yields no candidates for the directory.
pub open spec fn spec_search_dir_files(dir: Seq<u8>, name_src: Seq<u8>) -> Seq<Seq<u8>> {
    match spec_file_name(name_src) {
        None => Seq::empty(),
        Some(name) => match spec_extension(name) {
            None => Seq::empty(),
            Some(ext) => {
                let pdb_name = spec_with_pdb_ext(name);
                seq![
                    spec_join(dir, pdb_name),
                    spec_join(spec_join(dir, ext), pdb_name),
                    spec_join(
                        spec_join(spec_join(dir, spec_symbols_dir_name()), ext),
                        pdb_name,
                    ),
                ]
            },
        },
    }
}

/// Executable twin of `spec_search_dir_files`.
pub fn search_dir_files(dir: &[u8], name_src: &[u8]) -> (r: Vec<Vec<u8>>)
    ensures
        r.deep_view() == spec_search_dir_files(dir@, name_src@),
{
    let mut r: Vec<Vec<u8>> = Vec::new();
    let name = match file_name_of(name_src) {
        Some(n) => n,
        None => {
            proof {
                assert(r.deep_view() =~= spec_search_dir_files(dir@, name_src@));
            }
            return r;
        },
    };
    let ext = match extension_of(name.as_slice()) {
        Some(e) => e,
        None => {
            proof {
                assert(r.deep_view() =~= spec_search_dir_files(dir@, name_src@));
            }
            return r;
        },
    };
    let pdb_name = with_pdb_ext(name.as_slice());
    let first = join(dir, pdb_name.as_slice());
    let ext_dir = join(dir, ext.as_slice());
    let second = join(ext_dir.as_slice(), pdb_name.as_slice());
    let symbols = symbols_dir_name();
    let symbols_dir = join(dir, symbols.as_slice());
    let symbols_ext_dir = join(symbols_dir.as_slice(), ext.as_slice());
    let third = join(symbols_ext_dir.as_slice(), pdb_name.as_slice());
    r.push(first);
    r.push(second);
    r.push(third);
    proof {
        assert(r.deep_view() =~~= spec_search_dir_files(dir@, name_src@));
    }
    r
}

/// The big-endian bytes of a 32-bit value.
pub open spec fn spec_be32(d: u32) -> Seq<u8> {
    seq![
        ((d >> 24) & 0xff) as u8,
        ((d >> 16) & 0xff) as u8,
        ((d >> 8) & 0xff) as u8,
        (d & 0xff) as u8,
    ]
}

/// The big-endian bytes of a 16-bit value.
pub open spec fn spec_be16(d: u16) -> Seq<u8> {
    seq![((d >> 8) & 0xff) as u8, (d & 0xff) as u8]
}

/// The UUID byte representation of the 16 raw codeview GUID bytes: the
/// first three fields (four, two and two bytes) are little-endian in the
/// codeview record and big-endian in a UUID, so each is reversed; the
/// final eight bytes carry over unchanged.
pub open spec fn spec_guid_uuid_bytes(g: Seq<u8>) -> Seq<u8>
    recommends
        g.len() == 16,
{
    seq![g[3], g[2], g[1], g[0], g[5], g[4], g[7], g[6]] + g.subrange(8, 16)
}

/// Relies on `uuid::Uuid::from_fields` and `Uuid::as_bytes`: the UUID's
/// byte representation stores the three leading fields big-endian,
/// followed by the eight remaining bytes verbatim.
#[verifier::external_body]
fn uuid_bytes_from_fields(d1: u32, d2: u16, d3: u16, d4: &[u8]) -> (r: Vec<u8>)
    requires
        d4@.len() == 8,
    ensures
        r@ == spec_be32(d1) + spec_be16(d2) + spec_be16(d3) + d4@,
{
    let mut rest = [0u8; 8];
    rest.copy_from_slice(d4);
    uuid::Uuid::from_fields(d1, d2, d3, &rest).as_bytes().to_vec()
}

proof fn lemma_be32_of_le(b0: u8, b1: u8, b2: u8, b3: u8)
    ensures
        spec_be32(
            (b0 as u32) | ((b1 as u32) << 8) | ((b2 as u32) << 16) | ((b3 as u32) << 24),
        ) == seq![b3, b2, b1, b0],
{
    let x0 = b0 as u32;
    let x1 = b1 as u32;
    let x2 = b2 as u32;
    let x3 = b3 as u32;
    let d: u32 = x0 | (x1 << 8) | (x2 << 16) | (x3 << 24);
    assert((d >> 24) & 0xff == x3 && (d >> 16) & 0xff == x2 && (d >> 8) & 0xff == x1 && d & 0xff
        == x0) by (bit_vector)
        requires
            d == x0 | (x1 << 8) | (x2 << 16) | (x3 << 24),
            x0 < 256,
            x1 < 256,
            x2 < 256,
            x3 < 256,
    ;
    assert(spec_be32(d) =~= seq![b3, b2, b1, b0]);
}

proof fn lemma_be16_of_le(b0: u8, b1: u8)
    ensures
        spec_be16((b0 as u16) | ((b1 as u16) << 8)) == seq![b1, b0],
{
    let x0 = b0 as u16;
    let x1 = b1 as u16;
    let d: u16 = x0 | (x1 << 8);
    assert((d >> 8) & 0xff == x1 && d & 0xff == x0) by (bit_vector)
        requires
            d == x0 | (x1 << 8),
            x0 < 256,
            x1 < 256,
    ;
    assert(spec_be16(d) =~= seq![b1, b0]);
}

/// The target UUID bytes for the raw codeview GUID bytes, computed through
/// the `uuid` crate exactly as the validator compares them.
pub fn pdb_target_uuid_bytes(guid: &[u8]) -> (r: Vec<u8>)
    requires
        guid@.len() == 16,
    ensures
        r@ == spec_guid_uuid_bytes(guid@),
{
    let d1 = (guid[0] as u32) | ((guid[1] as u32) << 8) | ((guid[2] as u32) << 16) | ((guid[3]
        as u32) << 24);
    let d2 = (guid[4] as u16) | ((guid[5] as u16) << 8);
    let d3 = (guid[6] as u16) | ((guid[7] as u16) << 8);
    let r = uuid_bytes_from_fields(d1, d2, d3, vstd::slice::slice_subrange(guid, 8, 16));
    proof {
        lemma_be32_of_le(guid@[0], guid@[1], guid@[2], guid@[3]);
        lemma_be16_of_le(guid@[4], guid@[5]);
        lemma_be16_of_le(guid@[6], guid@[7]);
        assert(r@ =~= spec_guid_uuid_bytes(guid@));
    }
    r
}

/// The GUID bytes and age recorded in a PDB container's info stream, as a
/// function of the file bytes alone; nothing when the bytes do not parse
/// as a PDB container.
pub uninterp spec fn pdb_id_of(data: Seq<u8>) -> Option<(Seq<u8>, u32)>;

/// Relies on `pdb::PDB::open` and `PDB::pdb_information`: the recorded
/// GUID and age of a PDB container are a function of the file bytes
/// alone, and any open or parse failure yields nothing.
#[verifier::external_body]
fn parse_pdb_id(data: &[u8]) -> (r: Option<(Vec<u8>, u32)>)
    ensures
        match r {
            Some(p) => pdb_id_of(data@) == Some((p.0@, p.1)),
            None => pdb_id_of(data@) is None,
        },
{
    let mut container = match pdb::PDB::open(std::io::Cursor::new(data)) {
        Ok(c) => c,
        Err(_) => return None,
    };
    let info = match container.pdb_information() {
        Ok(i) => i,
        Err(_) => return None,
    };
    Some((info.guid.as_bytes().to_vec(), info.age))
}

/// Whether a candidate file's bytes identify the wanted PDB: the bytes
/// were readable, they parse as a PDB container, the recorded age equals
/// the target age, and the recorded GUID equals the target GUID
/// reconstructed from the codeview bytes. An unreadable or unparsable
/// candidate is never a match and never an error.
pub open spec fn spec_pdb_file_matches(guid: Seq<u8>, age: u32, data: Option<Seq<u8>>) -> bool {
    &&& data matches Some(d)
    &&& pdb_id_of(d) matches Some(p)
    &&& p.1 == age
    &&& p.0 == spec_guid_uuid_bytes(guid)
}

/// Executable twin of `spec_pdb_file_matches`, validating one candidate's
/// bytes (`None` stands for a candidate that could not be read).
pub fn pdb_file_matches(guid: &[u8], age: u32, data: &Option<Vec<u8>>) -> (r: bool)
    requires
        guid@.len() == 16,
    ensures
        r == spec_pdb_file_matches(guid@, age, data.deep_view()),
{
    match data {
        None => false,
        Some(d) => {
            proof {
                assert(d.deep_view() =~= d@);
            }
            match parse_pdb_id(d.as_slice()) {
            None => false,
            Some(p) => {
                let (found_guid, found_age) = p;
                if found_age != age {
                    false
                } else {
                    let target = pdb_target_uuid_bytes(guid);
                    bytes_eq(found_guid.as_slice(), target.as_slice())
                }
            },
        }
        },
    }
}

} // verus!
