//! End-to-end scenarios driving the resolution engine with scripted
//! answers, including candidate validation against hand-built Mach-O and
//! PDB images parsed by the real `object` and `pdb` crates.

use locate_dwarf::descriptor::{
    DebugDescriptors, DebugLink, LocateError, PdbId, Resolution,
};
use locate_dwarf::dsym::mach_file_matches;
use locate_dwarf::engine::{Action, Event, Resolver, Step};
use locate_dwarf::pdb_search::pdb_file_matches;

fn no_descs() -> DebugDescriptors {
    DebugDescriptors { mach_uuid: None, pdb: None, build_id: None, debuglink: None }
}

fn mach_descs(uuid: [u8; 16]) -> DebugDescriptors {
    DebugDescriptors { mach_uuid: Some(uuid.to_vec()), ..no_descs() }
}

/// A minimal 64-bit little-endian Mach-O executable holding one LC_UUID
/// load command with the given build UUID.
fn macho_with_uuid(uuid: [u8; 16]) -> Vec<u8> {
    let mut v: Vec<u8> = Vec::new();
    v.extend_from_slice(&0xfeedfacfu32.to_le_bytes()); // MH_MAGIC_64
    v.extend_from_slice(&0x0100_0007u32.to_le_bytes()); // CPU_TYPE_X86_64
    v.extend_from_slice(&3u32.to_le_bytes()); // cpusubtype
    v.extend_from_slice(&2u32.to_le_bytes()); // MH_EXECUTE
    v.extend_from_slice(&1u32.to_le_bytes()); // ncmds
    v.extend_from_slice(&24u32.to_le_bytes()); // sizeofcmds
    v.extend_from_slice(&0u32.to_le_bytes()); // flags
    v.extend_from_slice(&0u32.to_le_bytes()); // reserved
    v.extend_from_slice(&0x1bu32.to_le_bytes()); // LC_UUID
    v.extend_from_slice(&24u32.to_le_bytes()); // cmdsize
    v.extend_from_slice(&uuid);
    v
}

fn put_u32(v: &mut [u8], at: usize, x: u32) {
    v[at..at + 4].copy_from_slice(&x.to_le_bytes());
}

/// A minimal MSF 7.00 container whose PDB info stream records the given
/// GUID bytes (in codeview field order) and age.
fn pdb_with_id(guid: [u8; 16], age: u32) -> Vec<u8> {
    let page = 4096usize;
    let mut v = vec![0u8; 4 * page];
    let magic = b"Microsoft C/C++ MSF 7.00\r\n\x1a\x44\x53\x00\x00\x00";
    v[..32].copy_from_slice(magic);
    put_u32(&mut v, 32, 4096); // page_size
    put_u32(&mut v, 36, 2); // free page map
    put_u32(&mut v, 40, 4); // pages used
    put_u32(&mut v, 44, 16); // stream directory size in bytes
    put_u32(&mut v, 48, 0); // reserved
    put_u32(&mut v, 52, 1); // page holding the directory's page list
    put_u32(&mut v, page, 2); // the directory lives on page 2
    // directory: two streams; stream 0 empty, stream 1 (PDB info) 32 bytes
    // on page 3
    put_u32(&mut v, 2 * page, 2);
    put_u32(&mut v, 2 * page + 4, 0);
    put_u32(&mut v, 2 * page + 8, 32);
    put_u32(&mut v, 2 * page + 12, 3);
    // PDB info stream: version, signature, age, guid fields, name map size
    let o = 3 * page;
    put_u32(&mut v, o, 20000404);
    put_u32(&mut v, o + 4, 0);
    put_u32(&mut v, o + 8, age);
    v[o + 12..o + 28].copy_from_slice(&guid);
    put_u32(&mut v, o + 28, 0);
    v
}

const UUID: [u8; 16] = [
    0x11, 0x22, 0x33, 0x44, 0x55, 0x66, 0x77, 0x88, 0x99, 0xaa, 0xbb, 0xcc, 0xdd, 0xee,
    0x0f, 0x10,
];

#[test]
fn mach_validation_accepts_matching_uuid() {
    let image = macho_with_uuid(UUID);
    assert!(mach_file_matches(&UUID, &Some(image)));
}

#[test]
fn mach_validation_rejects_other_uuid_and_garbage() {
    let image = macho_with_uuid(UUID);
    let other = [0u8; 16];
    assert!(!mach_file_matches(&other, &Some(image)));
    assert!(!mach_file_matches(&UUID, &Some(b"not a mach-o".to_vec())));
    assert!(!mach_file_matches(&UUID, &None));
}

#[test]
fn pdb_validation_accepts_matching_id() {
    let guid: [u8; 16] = *b"0123456789abcdef";
    let image = pdb_with_id(guid, 7);
    assert!(pdb_file_matches(&guid, 7, &Some(image)));
}

#[test]
fn pdb_validation_rejects_wrong_age_guid_and_garbage() {
    let guid: [u8; 16] = *b"0123456789abcdef";
    let image = pdb_with_id(guid, 7);
    assert!(!pdb_file_matches(&guid, 8, &Some(image.clone())));
    let mut other = guid;
    other[0] ^= 0xff;
    assert!(!pdb_file_matches(&other, 7, &Some(image)));
    assert!(!pdb_file_matches(&guid, 7, &Some(b"garbage".to_vec())));
    assert!(!pdb_file_matches(&guid, 7, &None));
}

#[test]
fn scenario_dsym_not_found_without_candidates() {
    // Binary with a Mach-O UUID, no dSYM sibling, no build-output
    // ancestor, and a content index that knows nothing: "not found".
    let (mut r, step) = Resolver::start(mach_descs(UUID), b"/tmp/app".to_vec());
    assert_eq!(step, Step::Ask(Action::Canonicalize(b"/tmp/app".to_vec())));
    let step = r.step(Event::Canonical(Some(b"/tmp/app".to_vec())));
    assert_eq!(
        step,
        Step::Ask(Action::ListDir(b"/tmp/app.dSYM/Contents/Resources/DWARF".to_vec()))
    );
    let step = r.step(Event::Entries(None));
    assert_eq!(step, Step::Ask(Action::QueryIndex(UUID.to_vec())));
    let step = r.step(Event::IndexResult(None));
    assert_eq!(step, Step::Done(Resolution::NotFound));
}

#[test]
fn scenario_dsym_sibling_fastpath() {
    // Sibling bundle with a single DWARF entry whose UUID matches: found
    // on the fastpath, the content index never queried.
    let (mut r, step) = Resolver::start(mach_descs(UUID), b"/tmp/app".to_vec());
    assert_eq!(step, Step::Ask(Action::Canonicalize(b"/tmp/app".to_vec())));
    let step = r.step(Event::Canonical(Some(b"/tmp/app".to_vec())));
    assert_eq!(
        step,
        Step::Ask(Action::ListDir(b"/tmp/app.dSYM/Contents/Resources/DWARF".to_vec()))
    );
    let step = r.step(Event::Entries(Some(vec![b"app".to_vec()])));
    assert_eq!(
        step,
        Step::Ask(Action::ReadFile(b"/tmp/app.dSYM/Contents/Resources/DWARF/app".to_vec()))
    );
    let step = r.step(Event::FileContents(Some(macho_with_uuid(UUID))));
    assert_eq!(
        step,
        Step::Done(Resolution::Found(
            b"/tmp/app.dSYM/Contents/Resources/DWARF/app".to_vec()
        ))
    );
}

#[test]
fn scenario_dsym_multiple_dwarf_entries_are_no_match() {
    // A DWARF directory with two entries is treated as a non-match.
    let (mut r, step) = Resolver::start(mach_descs(UUID), b"/tmp/app".to_vec());
    assert_eq!(step, Step::Ask(Action::Canonicalize(b"/tmp/app".to_vec())));
    let step = r.step(Event::Canonical(Some(b"/tmp/app".to_vec())));
    assert_eq!(
        step,
        Step::Ask(Action::ListDir(b"/tmp/app.dSYM/Contents/Resources/DWARF".to_vec()))
    );
    let step = r.step(Event::Entries(Some(vec![b"a".to_vec(), b"b".to_vec()])));
    assert_eq!(step, Step::Ask(Action::QueryIndex(UUID.to_vec())));
}

#[test]
fn scenario_dsym_build_output_scan() {
    // No sibling bundle, but an ancestor directly inside `target`: its
    // `deps` and `examples` entries with a `.dSYM` extension are scanned
    // in order.
    let (mut r, step) = Resolver::start(mach_descs(UUID), b"/w/target/debug/app".to_vec());
    assert_eq!(step, Step::Ask(Action::Canonicalize(b"/w/target/debug/app".to_vec())));
    let step = r.step(Event::Canonical(Some(b"/w/target/debug/app".to_vec())));
    assert_eq!(
        step,
        Step::Ask(Action::ListDir(
            b"/w/target/debug/app.dSYM/Contents/Resources/DWARF".to_vec()
        ))
    );
    let step = r.step(Event::Entries(None));
    assert_eq!(step, Step::Ask(Action::ListDir(b"/w/target/debug/deps".to_vec())));
    let step = r.step(Event::Entries(Some(vec![
        b"notes.txt".to_vec(),
        b"app-1234.dSYM".to_vec(),
    ])));
    assert_eq!(step, Step::Ask(Action::ListDir(b"/w/target/debug/examples".to_vec())));
    let step = r.step(Event::Entries(None));
    assert_eq!(
        step,
        Step::Ask(Action::ListDir(
            b"/w/target/debug/deps/app-1234.dSYM/Contents/Resources/DWARF".to_vec()
        ))
    );
    let step = r.step(Event::Entries(Some(vec![b"app".to_vec()])));
    assert_eq!(
        step,
        Step::Ask(Action::ReadFile(
            b"/w/target/debug/deps/app-1234.dSYM/Contents/Resources/DWARF/app".to_vec()
        ))
    );
    let step = r.step(Event::FileContents(Some(macho_with_uuid(UUID))));
    assert_eq!(
        step,
        Step::Done(Resolution::Found(
            b"/w/target/debug/deps/app-1234.dSYM/Contents/Resources/DWARF/app".to_vec()
        ))
    );
}

#[test]
fn scenario_dsym_index_fallback_finds() {
    let (mut r, step) = Resolver::start(mach_descs(UUID), b"/tmp/app".to_vec());
    assert_eq!(step, Step::Ask(Action::Canonicalize(b"/tmp/app".to_vec())));
    let step = r.step(Event::Canonical(None));
    assert_eq!(step, Step::Ask(Action::QueryIndex(UUID.to_vec())));
    let step = r.step(Event::IndexResult(Some(b"/idx/app.dSYM/Contents/Resources/DWARF/app"
        .to_vec())));
    assert_eq!(
        step,
        Step::Done(Resolution::Found(
            b"/idx/app.dSYM/Contents/Resources/DWARF/app".to_vec()
        ))
    );
}

#[test]
fn scenario_pdb_module_directory_first_convention() {
    // Embedded path missing, both environment lists unset, module
    // directory holding a matching app.pdb: found via the first filename
    // convention, before the extension and symbols subdirectories.
    let guid: [u8; 16] = *b"0123456789abcdef";
    let descs = DebugDescriptors {
        pdb: Some(PdbId { path: b"/nonexistent/app.pdb".to_vec(), guid: guid.to_vec(), age: 7 }),
        ..no_descs()
    };
    let (mut r, step) = Resolver::start(descs, b"/tmp/dir/app.exe".to_vec());
    assert_eq!(step, Step::Ask(Action::ReadFile(b"/nonexistent/app.pdb".to_vec())));
    let step = r.step(Event::FileContents(None));
    assert_eq!(step, Step::Ask(Action::ReadEnv(b"_NT_SYMBOL_PATH".to_vec())));
    let step = r.step(Event::EnvValue(None));
    assert_eq!(step, Step::Ask(Action::ReadEnv(b"_NT_ALT_SYMBOL_PATH".to_vec())));
    let step = r.step(Event::EnvValue(None));
    assert_eq!(step, Step::Ask(Action::Canonicalize(b"/tmp/dir/app.exe".to_vec())));
    let step = r.step(Event::Canonical(Some(b"/tmp/dir/app.exe".to_vec())));
    assert_eq!(step, Step::Ask(Action::CheckExists(b"/tmp/dir".to_vec())));
    let step = r.step(Event::Exists(true));
    assert_eq!(step, Step::Ask(Action::ReadFile(b"/tmp/dir/app.pdb".to_vec())));
    let step = r.step(Event::FileContents(Some(pdb_with_id(guid, 7))));
    assert_eq!(step, Step::Done(Resolution::Found(b"/tmp/dir/app.pdb".to_vec())));
}

#[test]
fn scenario_pdb_env_entries_skip_symbol_servers() {
    // srv* and cache* entries provoke no request at all; the next
    // supported entry is probed as if they were absent.
    let guid: [u8; 16] = *b"0123456789abcdef";
    let descs = DebugDescriptors {
        pdb: Some(PdbId { path: b"/missing.pdb".to_vec(), guid: guid.to_vec(), age: 1 }),
        ..no_descs()
    };
    let (mut r, step) = Resolver::start(descs, b"/tmp/app.exe".to_vec());
    assert_eq!(step, Step::Ask(Action::ReadFile(b"/missing.pdb".to_vec())));
    let step = r.step(Event::FileContents(None));
    assert_eq!(step, Step::Ask(Action::ReadEnv(b"_NT_SYMBOL_PATH".to_vec())));
    let step = r.step(Event::EnvValue(Some(
        b"srv*https://msdl.example/download/symbols;cache*/var/cache;/sym".to_vec(),
    )));
    assert_eq!(step, Step::Ask(Action::CheckExists(b"/sym".to_vec())));
    let step = r.step(Event::Exists(true));
    assert_eq!(step, Step::Ask(Action::ReadFile(b"/sym/app.pdb".to_vec())));
    let step = r.step(Event::FileContents(None));
    assert_eq!(step, Step::Ask(Action::ReadFile(b"/sym/exe/app.pdb".to_vec())));
    let step = r.step(Event::FileContents(None));
    assert_eq!(step, Step::Ask(Action::ReadFile(b"/sym/symbols/exe/app.pdb".to_vec())));
    let step = r.step(Event::FileContents(None));
    assert_eq!(step, Step::Ask(Action::ReadEnv(b"_NT_ALT_SYMBOL_PATH".to_vec())));
}

#[test]
fn scenario_pdb_canonicalize_failure_is_fatal() {
    let guid: [u8; 16] = *b"0123456789abcdef";
    let descs = DebugDescriptors {
        pdb: Some(PdbId { path: b"/missing.pdb".to_vec(), guid: guid.to_vec(), age: 1 }),
        ..no_descs()
    };
    let (mut r, step) = Resolver::start(descs, b"/tmp/app.exe".to_vec());
    assert_eq!(step, Step::Ask(Action::ReadFile(b"/missing.pdb".to_vec())));
    let step = r.step(Event::FileContents(None));
    assert_eq!(step, Step::Ask(Action::ReadEnv(b"_NT_SYMBOL_PATH".to_vec())));
    let step = r.step(Event::EnvValue(None));
    assert_eq!(step, Step::Ask(Action::ReadEnv(b"_NT_ALT_SYMBOL_PATH".to_vec())));
    let step = r.step(Event::EnvValue(None));
    assert_eq!(step, Step::Ask(Action::Canonicalize(b"/tmp/app.exe".to_vec())));
    let step = r.step(Event::Canonical(None));
    assert_eq!(step, Step::Done(Resolution::Failed(LocateError::Canonicalize)));
}

#[test]
fn scenario_build_id_falls_through_to_debuglink() {
    // Build-id probe misses; the orchestrator falls through to the
    // debug-link strategy and returns its `.debug` directory candidate.
    let descs = DebugDescriptors {
        build_id: Some(vec![0xab, 0xcd, 0xef]),
        debuglink: Some(DebugLink { filename: b"app.debug".to_vec(), crc: 0xdeadbeef }),
        ..no_descs()
    };
    let (mut r, step) = Resolver::start(descs, b"/tmp/app".to_vec());
    assert_eq!(
        step,
        Step::Ask(Action::CheckExists(
            b"/usr/lib/debug/.build-id/ab/cdef.debug".to_vec()
        ))
    );
    let step = r.step(Event::Exists(false));
    assert_eq!(step, Step::Ask(Action::Canonicalize(b"/tmp/app".to_vec())));
    let step = r.step(Event::Canonical(Some(b"/tmp/app".to_vec())));
    assert_eq!(step, Step::Ask(Action::CheckExists(b"/tmp/app.debug".to_vec())));
    let step = r.step(Event::Exists(false));
    assert_eq!(step, Step::Ask(Action::CheckExists(b"/tmp/.debug/app.debug".to_vec())));
    let step = r.step(Event::Exists(true));
    assert_eq!(step, Step::Done(Resolution::Found(b"/tmp/.debug/app.debug".to_vec())));
}

#[test]
fn scenario_build_id_found_at_canonical_path() {
    let descs = DebugDescriptors { build_id: Some(vec![0x12, 0x34]), ..no_descs() };
    let (mut r, step) = Resolver::start(descs, b"/tmp/app".to_vec());
    assert_eq!(
        step,
        Step::Ask(Action::CheckExists(b"/usr/lib/debug/.build-id/12/34.debug".to_vec()))
    );
    let step = r.step(Event::Exists(true));
    assert_eq!(
        step,
        Step::Done(Resolution::Found(b"/usr/lib/debug/.build-id/12/34.debug".to_vec()))
    );
}

#[test]
fn scenario_short_build_id_without_debuglink_is_not_found() {
    let descs = DebugDescriptors { build_id: Some(vec![0xab]), ..no_descs() };
    let (_r, step) = Resolver::start(descs, b"/tmp/app".to_vec());
    assert_eq!(step, Step::Done(Resolution::NotFound));
}

#[test]
fn scenario_debuglink_skips_self_named_candidate() {
    // The direct sibling candidate equals the binary itself and is
    // skipped: the first probe goes to the `.debug` directory.
    let descs = DebugDescriptors {
        debuglink: Some(DebugLink { filename: b"app".to_vec(), crc: 0 }),
        ..no_descs()
    };
    let (mut r, step) = Resolver::start(descs, b"/tmp/app".to_vec());
    assert_eq!(step, Step::Ask(Action::Canonicalize(b"/tmp/app".to_vec())));
    let step = r.step(Event::Canonical(Some(b"/tmp/app".to_vec())));
    assert_eq!(step, Step::Ask(Action::CheckExists(b"/tmp/.debug/app".to_vec())));
    let step = r.step(Event::Exists(false));
    assert_eq!(step, Step::Ask(Action::CheckExists(b"/usr/lib/debug/tmp/app".to_vec())));
    let step = r.step(Event::Exists(false));
    assert_eq!(step, Step::Done(Resolution::NotFound));
}

#[test]
fn scenario_debuglink_bad_path_is_fatal() {
    let descs = DebugDescriptors {
        debuglink: Some(DebugLink { filename: b"app.debug".to_vec(), crc: 0 }),
        ..no_descs()
    };
    let (mut r, step) = Resolver::start(descs, b"app".to_vec());
    assert_eq!(step, Step::Ask(Action::Canonicalize(b"app".to_vec())));
    let step = r.step(Event::Canonical(Some(b"app".to_vec())));
    assert_eq!(step, Step::Done(Resolution::Failed(LocateError::BadPath)));
}

#[test]
fn scenario_debuglink_canonicalize_failure_is_fatal() {
    let descs = DebugDescriptors {
        debuglink: Some(DebugLink { filename: b"app.debug".to_vec(), crc: 0 }),
        ..no_descs()
    };
    let (mut r, step) = Resolver::start(descs, b"/gone/app".to_vec());
    assert_eq!(step, Step::Ask(Action::Canonicalize(b"/gone/app".to_vec())));
    let step = r.step(Event::Canonical(None));
    assert_eq!(step, Step::Done(Resolution::Failed(LocateError::Canonicalize)));
}

#[test]
fn scenario_no_descriptors_is_not_found() {
    let (_r, step) = Resolver::start(no_descs(), b"/tmp/app".to_vec());
    assert_eq!(step, Step::Done(Resolution::NotFound));
}

#[test]
fn second_candidate_wins_regardless_of_prior_misses() {
    // Of two debug-link candidates only the second exists: the result is
    // the second, however the first was probed first.
    let descs = DebugDescriptors {
        debuglink: Some(DebugLink { filename: b"app.debug".to_vec(), crc: 0 }),
        ..no_descs()
    };
    let (mut r, step) = Resolver::start(descs, b"/tmp/app".to_vec());
    assert_eq!(step, Step::Ask(Action::Canonicalize(b"/tmp/app".to_vec())));
    let step = r.step(Event::Canonical(Some(b"/tmp/app".to_vec())));
    assert_eq!(step, Step::Ask(Action::CheckExists(b"/tmp/app.debug".to_vec())));
    let step = r.step(Event::Exists(false));
    assert_eq!(step, Step::Ask(Action::CheckExists(b"/tmp/.debug/app.debug".to_vec())));
    let step = r.step(Event::Exists(true));
    assert_eq!(step, Step::Done(Resolution::Found(b"/tmp/.debug/app.debug".to_vec())));
}

#[test]
fn second_pdb_candidate_wins_after_failed_validation() {
    // The first candidate exists but holds a mismatching PDB; the second
    // validates: the result is the second candidate.
    let guid: [u8; 16] = *b"0123456789abcdef";
    let descs = DebugDescriptors {
        pdb: Some(PdbId { path: b"/stale/app.pdb".to_vec(), guid: guid.to_vec(), age: 7 }),
        ..no_descs()
    };
    let (mut r, step) = Resolver::start(descs, b"/tmp/dir/app.exe".to_vec());
    assert_eq!(step, Step::Ask(Action::ReadFile(b"/stale/app.pdb".to_vec())));
    // A stale file with the right GUID but a different age is not a match.
    let step = r.step(Event::FileContents(Some(pdb_with_id(guid, 3))));
    assert_eq!(step, Step::Ask(Action::ReadEnv(b"_NT_SYMBOL_PATH".to_vec())));
    let step = r.step(Event::EnvValue(Some(b"/sym".to_vec())));
    assert_eq!(step, Step::Ask(Action::CheckExists(b"/sym".to_vec())));
    let step = r.step(Event::Exists(true));
    assert_eq!(step, Step::Ask(Action::ReadFile(b"/sym/app.pdb".to_vec())));
    let step = r.step(Event::FileContents(Some(pdb_with_id(guid, 7))));
    assert_eq!(step, Step::Done(Resolution::Found(b"/sym/app.pdb".to_vec())));
}

#[test]
fn scenario_pdb_alt_list_used_when_first_unset() {
    let guid: [u8; 16] = *b"0123456789abcdef";
    let descs = DebugDescriptors {
        pdb: Some(PdbId { path: b"/missing.pdb".to_vec(), guid: guid.to_vec(), age: 2 }),
        ..no_descs()
    };
    let (mut r, step) = Resolver::start(descs, b"/tmp/app.exe".to_vec());
    assert_eq!(step, Step::Ask(Action::ReadFile(b"/missing.pdb".to_vec())));
    let step = r.step(Event::FileContents(None));
    assert_eq!(step, Step::Ask(Action::ReadEnv(b"_NT_SYMBOL_PATH".to_vec())));
    let step = r.step(Event::EnvValue(None));
    assert_eq!(step, Step::Ask(Action::ReadEnv(b"_NT_ALT_SYMBOL_PATH".to_vec())));
    let step = r.step(Event::EnvValue(Some(b"/alt".to_vec())));
    assert_eq!(step, Step::Ask(Action::CheckExists(b"/alt".to_vec())));
    let step = r.step(Event::Exists(true));
    assert_eq!(step, Step::Ask(Action::ReadFile(b"/alt/app.pdb".to_vec())));
    let step = r.step(Event::FileContents(Some(pdb_with_id(guid, 2))));
    assert_eq!(step, Step::Done(Resolution::Found(b"/alt/app.pdb".to_vec())));
}

#[test]
fn scenario_pdb_binary_without_extension_skips_directories() {
    // The binary's filename has no extension: an existing search
    // directory contributes no candidates and the search moves on.
    let guid: [u8; 16] = *b"0123456789abcdef";
    let descs = DebugDescriptors {
        pdb: Some(PdbId { path: b"/missing.pdb".to_vec(), guid: guid.to_vec(), age: 1 }),
        ..no_descs()
    };
    let (mut r, step) = Resolver::start(descs, b"/tmp/app".to_vec());
    assert_eq!(step, Step::Ask(Action::ReadFile(b"/missing.pdb".to_vec())));
    let step = r.step(Event::FileContents(None));
    assert_eq!(step, Step::Ask(Action::ReadEnv(b"_NT_SYMBOL_PATH".to_vec())));
    let step = r.step(Event::EnvValue(Some(b"/sym".to_vec())));
    assert_eq!(step, Step::Ask(Action::CheckExists(b"/sym".to_vec())));
    let step = r.step(Event::Exists(true));
    assert_eq!(step, Step::Ask(Action::ReadEnv(b"_NT_ALT_SYMBOL_PATH".to_vec())));
}

#[test]
fn scenario_dsym_root_binary_goes_straight_to_index() {
    // The canonical path is the root: it has no file name, so the
    // fastpath yields nothing and the content index is asked directly.
    let (mut r, step) = Resolver::start(mach_descs(UUID), b"/".to_vec());
    assert_eq!(step, Step::Ask(Action::Canonicalize(b"/".to_vec())));
    let step = r.step(Event::Canonical(Some(b"/".to_vec())));
    assert_eq!(step, Step::Ask(Action::QueryIndex(UUID.to_vec())));
    let step = r.step(Event::IndexResult(None));
    assert_eq!(step, Step::Done(Resolution::NotFound));
}

#[test]
fn scenario_mach_uuid_takes_priority_over_other_descriptors() {
    // With every descriptor present, the dSYM strategy runs, and its
    // "not found" is final: no fallthrough from higher strategies.
    let descs = DebugDescriptors {
        mach_uuid: Some(UUID.to_vec()),
        pdb: Some(PdbId { path: b"/p.pdb".to_vec(), guid: vec![0; 16], age: 1 }),
        build_id: Some(vec![0xab, 0xcd]),
        debuglink: Some(DebugLink { filename: b"app.debug".to_vec(), crc: 0 }),
    };
    let (mut r, step) = Resolver::start(descs, b"/tmp/app".to_vec());
    assert_eq!(step, Step::Ask(Action::Canonicalize(b"/tmp/app".to_vec())));
    let step = r.step(Event::Canonical(None));
    assert_eq!(step, Step::Ask(Action::QueryIndex(UUID.to_vec())));
    let step = r.step(Event::IndexResult(None));
    assert_eq!(step, Step::Done(Resolution::NotFound));
}
