//! Unit tests for the deterministic locator parts: build-id paths, path
//! operations, search-path handling and candidate construction.

use locate_dwarf::build_id::locate_debug_build_id;
use locate_dwarf::debuglink::debuglink_candidates;
use locate_dwarf::descriptor::LocateError;
use locate_dwarf::paths::{
    extension_of, file_name_of, join, parent_of, strip_root, with_pdb_ext,
};
use locate_dwarf::pdb_search::{
    pdb_target_uuid_bytes, search_dir_files, split_on, supported_entry,
};

#[test]
fn build_id_path_is_exact() {
    let r = locate_debug_build_id(&[0xab, 0xcd, 0xef]).unwrap();
    assert_eq!(r, b"/usr/lib/debug/.build-id/ab/cdef.debug".to_vec());
}

#[test]
fn build_id_path_two_bytes() {
    let r = locate_debug_build_id(&[0x12, 0x34]).unwrap();
    assert_eq!(r, b"/usr/lib/debug/.build-id/12/34.debug".to_vec());
}

#[test]
fn build_id_hex_is_lower_case_two_digit() {
    let r = locate_debug_build_id(&[0x0a, 0x00, 0xff, 0x5b]).unwrap();
    assert_eq!(r, b"/usr/lib/debug/.build-id/0a/00ff5b.debug".to_vec());
}

#[test]
fn build_id_too_short() {
    assert_eq!(locate_debug_build_id(&[]), Err(LocateError::TooShort));
    assert_eq!(locate_debug_build_id(&[0xab]), Err(LocateError::TooShort));
}

#[test]
fn parent_of_paths() {
    assert_eq!(parent_of(b"/tmp/app"), Some(b"/tmp".to_vec()));
    assert_eq!(parent_of(b"/app"), Some(b"/".to_vec()));
    assert_eq!(parent_of(b"/"), None);
    assert_eq!(parent_of(b"app"), None);
    assert_eq!(parent_of(b"/a/b/c"), Some(b"/a/b".to_vec()));
}

#[test]
fn file_name_of_paths() {
    assert_eq!(file_name_of(b"/tmp/app"), Some(b"app".to_vec()));
    assert_eq!(file_name_of(b"/"), None);
    assert_eq!(file_name_of(b"app"), Some(b"app".to_vec()));
    assert_eq!(file_name_of(b""), None);
}

#[test]
fn extension_of_names() {
    assert_eq!(extension_of(b"app.exe"), Some(b"exe".to_vec()));
    assert_eq!(extension_of(b"app.tar.gz"), Some(b"gz".to_vec()));
    assert_eq!(extension_of(b".bashrc"), None);
    assert_eq!(extension_of(b"app"), None);
    assert_eq!(extension_of(b"app."), Some(b"".to_vec()));
}

#[test]
fn with_pdb_ext_names() {
    assert_eq!(with_pdb_ext(b"app.exe"), b"app.pdb".to_vec());
    assert_eq!(with_pdb_ext(b"app.tar.gz"), b"app.tar.pdb".to_vec());
    assert_eq!(with_pdb_ext(b"app"), b"app.pdb".to_vec());
}

#[test]
fn join_paths() {
    assert_eq!(join(b"/tmp", b"app"), b"/tmp/app".to_vec());
    assert_eq!(join(b"/tmp/", b"app"), b"/tmp/app".to_vec());
    assert_eq!(join(b"/tmp", b"/abs"), b"/abs".to_vec());
    assert_eq!(join(b"", b"app"), b"app".to_vec());
    assert_eq!(join(b"/tmp", b""), b"/tmp".to_vec());
}

#[test]
fn strip_root_paths() {
    assert_eq!(strip_root(b"/tmp/x"), b"tmp/x".to_vec());
    assert_eq!(strip_root(b"rel"), b"rel".to_vec());
    assert_eq!(strip_root(b""), b"".to_vec());
}

#[test]
fn split_on_semicolons() {
    let r = split_on(b"a;b;;c", b';');
    assert_eq!(
        r,
        vec![b"a".to_vec(), b"b".to_vec(), b"".to_vec(), b"c".to_vec()]
    );
    assert_eq!(split_on(b"", b';'), vec![b"".to_vec()]);
    assert_eq!(split_on(b"abc", b';'), vec![b"abc".to_vec()]);
}

#[test]
fn srv_and_cache_entries_are_unsupported() {
    assert!(!supported_entry(b"srv*https://example/sym"));
    assert!(!supported_entry(b"cache*C:\\sym"));
    assert!(supported_entry(b"/usr/share/symbols"));
    assert!(supported_entry(b"srx*odd"));
    assert!(supported_entry(b""));
}

#[test]
fn search_dir_files_conventions() {
    let r = search_dir_files(b"/sym", b"/tmp/app.exe");
    assert_eq!(
        r,
        vec![
            b"/sym/app.pdb".to_vec(),
            b"/sym/exe/app.pdb".to_vec(),
            b"/sym/symbols/exe/app.pdb".to_vec(),
        ]
    );
}

#[test]
fn search_dir_files_need_extension() {
    assert_eq!(search_dir_files(b"/sym", b"/tmp/app"), Vec::<Vec<u8>>::new());
    assert_eq!(search_dir_files(b"/sym", b"/"), Vec::<Vec<u8>>::new());
}

#[test]
fn debuglink_candidates_in_order() {
    let r = debuglink_candidates(b"/tmp/app", b"app.debug").unwrap();
    assert_eq!(
        r,
        vec![
            b"/tmp/app.debug".to_vec(),
            b"/tmp/.debug/app.debug".to_vec(),
            b"/usr/lib/debug/tmp/app.debug".to_vec(),
        ]
    );
}

#[test]
fn debuglink_skips_candidate_equal_to_binary() {
    let r = debuglink_candidates(b"/tmp/app", b"app").unwrap();
    assert_eq!(
        r,
        vec![b"/tmp/.debug/app".to_vec(), b"/usr/lib/debug/tmp/app".to_vec()]
    );
}

#[test]
fn debuglink_bad_path() {
    assert_eq!(
        debuglink_candidates(b"app", b"x.debug"),
        Err(LocateError::BadPath)
    );
}

#[test]
fn guid_uuid_bytes_swap_leading_fields() {
    let guid: Vec<u8> = (0u8..16u8).collect();
    let r = pdb_target_uuid_bytes(&guid);
    assert_eq!(
        r,
        vec![3u8, 2, 1, 0, 5, 4, 7, 6, 8, 9, 10, 11, 12, 13, 14, 15]
    );
    assert_ne!(r, guid);
}
