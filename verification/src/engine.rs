//! The resolution engine: a step machine that dispatches on the debug
//! descriptors, runs the per-strategy search orders, and validates every
//! candidate, without itself touching the filesystem, the environment, or
//! any content index.
//!
//! The machine emits an [`Action`] (a request to a driver) and consumes an
//! [`Event`] (the driver's answer) until it is done. Its whole behaviour
//! is specified by the transition function [`spec_step`] (and
//! [`spec_start`]) over ghost images of its state, events and steps.

use vstd::prelude::*;
use crate::build_id::{locate_debug_build_id, spec_build_id_path};
use crate::bytes::copy_bytes;
use crate::debuglink::{debuglink_candidates, spec_debuglink_candidates};
use crate::descriptor::{
    DebugDescriptor, DebugDescriptors, DebugLink, LocateError, PdbId, Resolution,
};
use crate::dsym::{
    dsym_dirs_in, dwarf_dir_of, find_target_channel, mach_file_matches, sibling_dsym_of,
    spec_dsym_dirs, spec_dwarf_dir, spec_mach_file_matches, spec_sibling_dsym,
    spec_target_channel,
};
use crate::names::{
    deps_dir_name, env_alt_symbol_path, env_symbol_path, examples_dir_name,
    spec_deps_dir_name, spec_env_alt_symbol_path, spec_env_symbol_path,
    spec_examples_dir_name,
};
use crate::paths::{join, parent_of, spec_join, spec_parent};
use crate::pdb_search::{
    pdb_file_matches, search_dir_files, spec_pdb_file_matches, spec_search_dir_files,
    spec_split, spec_supported_entry, split_on, supported_entry,
};

verus! {

/// A request the engine hands to its driver.
#[derive(Debug, PartialEq, Eq)]
pub enum Action {
    /// Resolve this path to absolute canonical form.
    Canonicalize(Vec<u8>),
    /// Does a file or directory exist at this path?
    CheckExists(Vec<u8>),
    /// The names of this directory's entries, in any order.
    ListDir(Vec<u8>),
    /// The bytes of the file at this path.
    ReadFile(Vec<u8>),
    /// The value of this environment variable.
    ReadEnv(Vec<u8>),
    /// Ask the platform content index for the debug file recorded for this
    /// build UUID.
    QueryIndex(Vec<u8>),
}

/// A driver's answer to the matching [`Action`]; `None` stands for a
/// request the driver could not satisfy, which the engine absorbs.
pub enum Event {
    /// Answer to `Canonicalize`.
    Canonical(Option<Vec<u8>>),
    /// Answer to `CheckExists`.
    Exists(bool),
    /// Answer to `ListDir`.
    Entries(Option<Vec<Vec<u8>>>),
    /// Answer to `ReadFile`.
    FileContents(Option<Vec<u8>>),
    /// Answer to `ReadEnv`.
    EnvValue(Option<Vec<u8>>),
    /// Answer to `QueryIndex`.
    IndexResult(Option<Vec<u8>>),
}

/// What the engine does next: ask the driver something, or finish.
#[derive(Debug, PartialEq, Eq)]
pub enum Step {
    /// Perform this request and feed the answer back in.
    Ask(Action),
    /// The resolution is complete.
    Done(Resolution),
}

/// Which environment phase of the PDB search is running: the two
/// environment-variable lists, then the binary's own directory.
#[derive(Clone, Copy)]
pub enum EnvPhase {
    /// Entries of `_NT_SYMBOL_PATH`.
    Sym,
    /// Entries of `_NT_ALT_SYMBOL_PATH`.
    Alt,
    /// The canonicalized binary's parent directory.
    Module,
}

/// Where the dSYM scan continues once its current directory list is
/// exhausted.
pub enum DsymAfter {
    /// Walk up from this canonical path looking for a build-output
    /// directory, then scan its `deps` and `examples` entries.
    WalkTarget(Vec<u8>),
    /// Fall back to the content index.
    Index,
}

/// Where the PDB file scan continues once its current candidates are
/// exhausted.
pub enum PdbCont {
    /// The embedded codeview path was being probed: read the first
    /// environment list next.
    Embedded,
    /// A search directory's candidates were being probed: continue with
    /// the next search-path entry.
    Entries { entries: Vec<Vec<u8>>, eidx: usize, name_src: Vec<u8>, which: EnvPhase },
}

/// The engine's state between steps.
pub enum State {
    /// Awaiting the canonical binary path for the dSYM fastpath.
    DsymCanon,
    /// Scanning dSYM bundle candidates: for `dirs[idx]`, either awaiting
    /// its DWARF directory listing (`reading` empty) or awaiting the bytes
    /// of the single file found there.
    DsymScan { dirs: Vec<Vec<u8>>, idx: usize, reading: Option<Vec<u8>>, after: DsymAfter },
    /// Awaiting the entries of the build-output `deps` directory.
    DsymDeps { channel: Vec<u8> },
    /// Awaiting the entries of the build-output `examples` directory.
    DsymExamples { channel: Vec<u8>, found: Vec<Vec<u8>> },
    /// Awaiting the content index's answer.
    DsymIndex,
    /// Scanning PDB file candidates: awaiting the bytes of `files[fidx]`.
    PdbScan { files: Vec<Vec<u8>>, fidx: usize, cont: PdbCont },
    /// Awaiting the value of one of the two environment lists.
    PdbEnv { which: EnvPhase },
    /// Awaiting the existence answer for search directory `entries[eidx]`.
    PdbEntries { entries: Vec<Vec<u8>>, eidx: usize, name_src: Vec<u8>, which: EnvPhase },
    /// Awaiting the canonical binary path for the module-directory phase.
    PdbCanon,
    /// Awaiting the existence answer for the build-id candidate path.
    BuildIdProbe { candidate: Vec<u8> },
    /// Awaiting the canonical binary path for the debug-link search.
    DlCanon,
    /// Scanning debug-link candidates: awaiting the existence answer for
    /// `cands[idx]`.
    DlScan { cands: Vec<Vec<u8>>, idx: usize },
    /// The resolution is complete.
    Finished,
}

/// One resolution in progress: the descriptors, the binary's path as
/// given, and the engine state.
pub struct Resolver {
    /// The descriptors the binary exposes.
    pub descs: DebugDescriptors,
    /// The binary's path as handed in (not canonicalized).
    pub path: Vec<u8>,
    /// The engine state.
    pub state: State,
}

// ---------------------------------------------------------------------
// Ghost images: the machine's state, actions, events and steps over
// mathematical sequences, which the transition function is written over.
// ---------------------------------------------------------------------

/// Ghost image of [`DsymAfter`].
pub enum GAfter {
    Walk(Seq<u8>),
    Index,
}

/// Ghost image of [`PdbCont`].
pub enum GCont {
    Embedded,
    Entries { entries: Seq<Seq<u8>>, eidx: int, name_src: Seq<u8>, which: EnvPhase },
}

/// Ghost image of [`State`].
pub enum GState {
    DsymCanon,
    DsymScan { dirs: Seq<Seq<u8>>, idx: int, reading: Option<Seq<u8>>, after: GAfter },
    DsymDeps { channel: Seq<u8> },
    DsymExamples { channel: Seq<u8>, found: Seq<Seq<u8>> },
    DsymIndex,
    PdbScan { files: Seq<Seq<u8>>, fidx: int, cont: GCont },
    PdbEnv { which: EnvPhase },
    PdbEntries { entries: Seq<Seq<u8>>, eidx: int, name_src: Seq<u8>, which: EnvPhase },
    PdbCanon,
    BuildIdProbe { candidate: Seq<u8> },
    DlCanon,
    DlScan { cands: Seq<Seq<u8>>, idx: int },
    Finished,
}

/// Ghost image of [`Action`].
pub enum GAction {
    Canonicalize(Seq<u8>),
    CheckExists(Seq<u8>),
    ListDir(Seq<u8>),
    ReadFile(Seq<u8>),
    ReadEnv(Seq<u8>),
    QueryIndex(Seq<u8>),
}

/// Ghost image of [`Event`].
pub enum GEvent {
    Canonical(Option<Seq<u8>>),
    Exists(bool),
    Entries(Option<Seq<Seq<u8>>>),
    FileContents(Option<Seq<u8>>),
    EnvValue(Option<Seq<u8>>),
    IndexResult(Option<Seq<u8>>),
}

/// Ghost image of [`Resolution`].
pub enum GResolution {
    Found(Seq<u8>),
    NotFound,
    Failed(LocateError),
}

/// Ghost image of [`Step`].
pub enum GStep {
    Ask(GAction),
    Done(GResolution),
}

/// Ghost image of [`PdbId`].
pub struct GPdb {
    pub path: Seq<u8>,
    pub guid: Seq<u8>,
    pub age: u32,
}

/// Ghost image of [`DebugLink`].
pub struct GLink {
    pub filename: Seq<u8>,
    pub crc: u32,
}

/// Ghost image of [`DebugDescriptors`].
pub struct GDescs {
    pub mach_uuid: Option<Seq<u8>>,
    pub pdb: Option<GPdb>,
    pub build_id: Option<Seq<u8>>,
    pub debuglink: Option<GLink>,
}

/// View of an optional byte string.
pub open spec fn g_opt_bytes(o: Option<Vec<u8>>) -> Option<Seq<u8>> {
    match o {
        Some(v) => Some(v@),
        None => None,
    }
}

/// View of an optional list of byte strings.
pub open spec fn g_opt_list(o: Option<Vec<Vec<u8>>>) -> Option<Seq<Seq<u8>>> {
    match o {
        Some(v) => Some(v.deep_view()),
        None => None,
    }
}

/// Ghost image of the descriptors.
pub open spec fn g_descs(d: DebugDescriptors) -> GDescs {
    GDescs {
        mach_uuid: g_opt_bytes(d.mach_uuid),
        pdb: match d.pdb {
            Some(p) => Some(GPdb { path: p.path@, guid: p.guid@, age: p.age }),
            None => None,
        },
        build_id: g_opt_bytes(d.build_id),
        debuglink: match d.debuglink {
            Some(l) => Some(GLink { filename: l.filename@, crc: l.crc }),
            None => None,
        },
    }
}

/// Ghost image of a continuation.
pub open spec fn g_after(a: DsymAfter) -> GAfter {
    match a {
        DsymAfter::WalkTarget(c) => GAfter::Walk(c@),
        DsymAfter::Index => GAfter::Index,
    }
}

/// Ghost image of a continuation.
pub open spec fn g_cont(c: PdbCont) -> GCont {
    match c {
        PdbCont::Embedded => GCont::Embedded,
        PdbCont::Entries { entries, eidx, name_src, which } => GCont::Entries {
            entries: entries.deep_view(),
            eidx: eidx as int,
            name_src: name_src@,
            which,
        },
    }
}

/// Ghost image of a state.
pub open spec fn gstate(st: State) -> GState {
    match st {
        State::DsymCanon => GState::DsymCanon,
        State::DsymScan { dirs, idx, reading, after } => GState::DsymScan {
            dirs: dirs.deep_view(),
            idx: idx as int,
            reading: g_opt_bytes(reading),
            after: g_after(after),
        },
        State::DsymDeps { channel } => GState::DsymDeps { channel: channel@ },
        State::DsymExamples { channel, found } => GState::DsymExamples {
            channel: channel@,
            found: found.deep_view(),
        },
        State::DsymIndex => GState::DsymIndex,
        State::PdbScan { files, fidx, cont } => GState::PdbScan {
            files: files.deep_view(),
            fidx: fidx as int,
            cont: g_cont(cont),
        },
        State::PdbEnv { which } => GState::PdbEnv { which },
        State::PdbEntries { entries, eidx, name_src, which } => GState::PdbEntries {
            entries: entries.deep_view(),
            eidx: eidx as int,
            name_src: name_src@,
            which,
        },
        State::PdbCanon => GState::PdbCanon,
        State::BuildIdProbe { candidate } => GState::BuildIdProbe { candidate: candidate@ },
        State::DlCanon => GState::DlCanon,
        State::DlScan { cands, idx } => GState::DlScan {
            cands: cands.deep_view(),
            idx: idx as int,
        },
        State::Finished => GState::Finished,
    }
}

/// Ghost image of an action.
pub open spec fn g_action(a: Action) -> GAction {
    match a {
        Action::Canonicalize(p) => GAction::Canonicalize(p@),
        Action::CheckExists(p) => GAction::CheckExists(p@),
        Action::ListDir(p) => GAction::ListDir(p@),
        Action::ReadFile(p) => GAction::ReadFile(p@),
        Action::ReadEnv(p) => GAction::ReadEnv(p@),
        Action::QueryIndex(p) => GAction::QueryIndex(p@),
    }
}

/// Ghost image of an event.
pub open spec fn g_event(e: Event) -> GEvent {
    match e {
        Event::Canonical(o) => GEvent::Canonical(g_opt_bytes(o)),
        Event::Exists(b) => GEvent::Exists(b),
        Event::Entries(o) => GEvent::Entries(g_opt_list(o)),
        Event::FileContents(o) => GEvent::FileContents(g_opt_bytes(o)),
        Event::EnvValue(o) => GEvent::EnvValue(g_opt_bytes(o)),
        Event::IndexResult(o) => GEvent::IndexResult(g_opt_bytes(o)),
    }
}

/// Ghost image of a resolution.
pub open spec fn g_res(x: Resolution) -> GResolution {
    match x {
        Resolution::Found(p) => GResolution::Found(p@),
        Resolution::NotFound => GResolution::NotFound,
        Resolution::Failed(e) => GResolution::Failed(e),
    }
}

/// Ghost image of a step.
pub open spec fn gstep(s: Step) -> GStep {
    match s {
        Step::Ask(a) => GStep::Ask(g_action(a)),
        Step::Done(x) => GStep::Done(g_res(x)),
    }
}

// ---------------------------------------------------------------------
// The transition function.
// ---------------------------------------------------------------------

/// The step taken on an event the current state does not expect; the
/// engine's precondition rules such events out.
pub open spec fn g_halt() -> (GState, GStep) {
    (GState::Finished, GStep::Done(GResolution::NotFound))
}

/// Entering the debug-link strategy: canonicalize the binary's path when a
/// debug-link descriptor is present, otherwise the resolution is "not
/// found".
pub open spec fn g_dl_entry(d: GDescs, path: Seq<u8>) -> (GState, GStep) {
    if d.debuglink is Some {
        (GState::DlCanon, GStep::Ask(GAction::Canonicalize(path)))
    } else {
        (GState::Finished, GStep::Done(GResolution::NotFound))
    }
}

/// Falling back to the content index for the target UUID.
pub open spec fn g_dsym_index(uuid: Seq<u8>) -> (GState, GStep) {
    (GState::DsymIndex, GStep::Ask(GAction::QueryIndex(uuid)))
}

/// Advancing the dSYM bundle scan to directory `idx`: list its DWARF
/// directory; past the end, continue with the build-output walk or the
/// content index.
pub open spec fn g_dsym_advance(
    uuid: Seq<u8>,
    dirs: Seq<Seq<u8>>,
    idx: int,
    after: GAfter,
) -> (GState, GStep) {
    if idx < dirs.len() {
        (
            GState::DsymScan { dirs, idx, reading: None, after },
            GStep::Ask(GAction::ListDir(spec_dwarf_dir(dirs[idx]))),
        )
    } else {
        match after {
            GAfter::Walk(c) => match spec_target_channel(c) {
                Some(ch) => (
                    GState::DsymDeps { channel: ch },
                    GStep::Ask(GAction::ListDir(spec_join(ch, spec_deps_dir_name()))),
                ),
                None => g_dsym_index(uuid),
            },
            GAfter::Index => g_dsym_index(uuid),
        }
    }
}

/// What follows a PDB phase once its entries are exhausted: the next
/// environment list, then the module directory, then "not found".
pub open spec fn g_pdb_env_next(path: Seq<u8>, which: EnvPhase) -> (GState, GStep) {
    match which {
        EnvPhase::Sym => (
            GState::PdbEnv { which: EnvPhase::Alt },
            GStep::Ask(GAction::ReadEnv(spec_env_alt_symbol_path())),
        ),
        EnvPhase::Alt => (GState::PdbCanon, GStep::Ask(GAction::Canonicalize(path))),
        EnvPhase::Module => (GState::Finished, GStep::Done(GResolution::NotFound)),
    }
}

/// Advancing the PDB search-path scan to entry `i`: unsupported
/// (`srv*`/`cache*`) entries are passed over without any request, the
/// first supported entry is probed for existence, and past the end the
/// search moves to the next phase.
pub open spec fn g_pdb_entry_advance(
    path: Seq<u8>,
    entries: Seq<Seq<u8>>,
    i: int,
    name_src: Seq<u8>,
    which: EnvPhase,
) -> (GState, GStep)
    decreases entries.len() - i,
{
    if i >= entries.len() {
        g_pdb_env_next(path, which)
    } else if spec_supported_entry(entries[i]) {
        (
            GState::PdbEntries { entries, eidx: i, name_src, which },
            GStep::Ask(GAction::CheckExists(entries[i])),
        )
    } else {
        g_pdb_entry_advance(path, entries, i + 1, name_src, which)
    }
}

/// The first step of a resolution: the single dispatch point over the
/// descriptor priority order. A Mach-O UUID selects the dSYM strategy,
/// else PDB info selects the PDB strategy, else a build-id of at least two
/// bytes is probed at its canonical path, else (and when that probe later
/// misses) a debug-link descriptor is searched; with nothing present the
/// resolution is "not found".
pub open spec fn spec_start(d: GDescs, path: Seq<u8>) -> (GState, GStep) {
    match d.mach_uuid {
        Some(_) => (GState::DsymCanon, GStep::Ask(GAction::Canonicalize(path))),
        None => match d.pdb {
            Some(pi) => (
                GState::PdbScan { files: seq![pi.path], fidx: 0, cont: GCont::Embedded },
                GStep::Ask(GAction::ReadFile(pi.path)),
            ),
            None => match d.build_id {
                Some(id) => if id.len() >= 2 {
                    (
                        GState::BuildIdProbe { candidate: spec_build_id_path(id) },
                        GStep::Ask(GAction::CheckExists(spec_build_id_path(id))),
                    )
                } else {
                    g_dl_entry(d, path)
                },
                None => g_dl_entry(d, path),
            },
        },
    }
}

/// The transition function: the engine's whole behaviour, one event at a
/// time. Each strategy's search order is spelled out by the helper
/// functions above and the candidate constructors they call.
pub open spec fn spec_step(d: GDescs, path: Seq<u8>, st: GState, e: GEvent) -> (GState, GStep) {
    match st {
        GState::DsymCanon => match d.mach_uuid {
            Some(u) => match e {
                GEvent::Canonical(c) => match c {
                    None => g_dsym_index(u),
                    Some(cp) => match spec_sibling_dsym(cp) {
                        None => g_dsym_index(u),
                        Some(sib) => (
                            GState::DsymScan {
                                dirs: seq![sib],
                                idx: 0,
                                reading: None,
                                after: GAfter::Walk(cp),
                            },
                            GStep::Ask(GAction::ListDir(spec_dwarf_dir(sib))),
                        ),
                    },
                },
                _ => g_halt(),
            },
            None => g_halt(),
        },
        GState::DsymScan { dirs, idx, reading, after } => match d.mach_uuid {
            Some(u) => match reading {
                None => match e {
                    GEvent::Entries(ent) => match ent {
                        Some(names) => if names.len() == 1 {
                            (
                                GState::DsymScan {
                                    dirs,
                                    idx,
                                    reading: Some(
                                        spec_join(spec_dwarf_dir(dirs[idx]), names[0]),
                                    ),
                                    after,
                                },
                                GStep::Ask(GAction::ReadFile(
                                    spec_join(spec_dwarf_dir(dirs[idx]), names[0]),
                                )),
                            )
                        } else {
                            g_dsym_advance(u, dirs, idx + 1, after)
                        },
                        None => g_dsym_advance(u, dirs, idx + 1, after),
                    },
                    _ => g_halt(),
                },
                Some(f) => match e {
                    GEvent::FileContents(b) => if spec_mach_file_matches(u, b) {
                        (GState::Finished, GStep::Done(GResolution::Found(f)))
                    } else {
                        g_dsym_advance(u, dirs, idx + 1, after)
                    },
                    _ => g_halt(),
                },
            },
            None => g_halt(),
        },
        GState::DsymDeps { channel } => match e {
            GEvent::Entries(ent) => {
                let names = match ent {
                    Some(n) => n,
                    None => Seq::empty(),
                };
                (
                    GState::DsymExamples {
                        channel,
                        found: spec_dsym_dirs(
                            spec_join(channel, spec_deps_dir_name()),
                            names,
                        ),
                    },
                    GStep::Ask(GAction::ListDir(
                        spec_join(channel, spec_examples_dir_name()),
                    )),
                )
            },
            _ => g_halt(),
        },
        GState::DsymExamples { channel, found } => match d.mach_uuid {
            Some(u) => match e {
                GEvent::Entries(ent) => {
                    let names = match ent {
                        Some(n) => n,
                        None => Seq::empty(),
                    };
                    let all = found + spec_dsym_dirs(
                        spec_join(channel, spec_examples_dir_name()),
                        names,
                    );
                    g_dsym_advance(u, all, 0, GAfter::Index)
                },
                _ => g_halt(),
            },
            None => g_halt(),
        },
        GState::DsymIndex => match e {
            GEvent::IndexResult(r) => match r {
                Some(p) => (GState::Finished, GStep::Done(GResolution::Found(p))),
                None => (GState::Finished, GStep::Done(GResolution::NotFound)),
            },
            _ => g_halt(),
        },
        GState::PdbScan { files, fidx, cont } => match d.pdb {
            Some(pi) => match e {
                GEvent::FileContents(b) => if spec_pdb_file_matches(pi.guid, pi.age, b) {
                    (GState::Finished, GStep::Done(GResolution::Found(files[fidx])))
                } else if fidx + 1 < files.len() {
                    (
                        GState::PdbScan { files, fidx: fidx + 1, cont },
                        GStep::Ask(GAction::ReadFile(files[fidx + 1])),
                    )
                } else {
                    match cont {
                        GCont::Embedded => (
                            GState::PdbEnv { which: EnvPhase::Sym },
                            GStep::Ask(GAction::ReadEnv(spec_env_symbol_path())),
                        ),
                        GCont::Entries { entries, eidx, name_src, which } => {
                            g_pdb_entry_advance(path, entries, eidx + 1, name_src, which)
                        },
                    }
                },
                _ => g_halt(),
            },
            None => g_halt(),
        },
        GState::PdbEnv { which } => match e {
            GEvent::EnvValue(v) => match v {
                None => g_pdb_env_next(path, which),
                Some(val) => g_pdb_entry_advance(
                    path,
                    spec_split(val, ';' as u8),
                    0,
                    path,
                    which,
                ),
            },
            _ => g_halt(),
        },
        GState::PdbEntries { entries, eidx, name_src, which } => match e {
            GEvent::Exists(b) => if !b {
                g_pdb_entry_advance(path, entries, eidx + 1, name_src, which)
            } else {
                let files = spec_search_dir_files(entries[eidx], name_src);
                if files.len() == 0 {
                    g_pdb_entry_advance(path, entries, eidx + 1, name_src, which)
                } else {
                    (
                        GState::PdbScan {
                            files,
                            fidx: 0,
                            cont: GCont::Entries { entries, eidx, name_src, which },
                        },
                        GStep::Ask(GAction::ReadFile(files[0])),
                    )
                }
            },
            _ => g_halt(),
        },
        GState::PdbCanon => match e {
            GEvent::Canonical(c) => match c {
                None => (
                    GState::Finished,
                    GStep::Done(GResolution::Failed(LocateError::Canonicalize)),
                ),
                Some(cp) => match spec_parent(cp) {
                    None => (GState::Finished, GStep::Done(GResolution::NotFound)),
                    Some(par) => g_pdb_entry_advance(
                        path,
                        seq![par],
                        0,
                        cp,
                        EnvPhase::Module,
                    ),
                },
            },
            _ => g_halt(),
        },
        GState::BuildIdProbe { candidate } => match e {
            GEvent::Exists(b) => if b {
                (GState::Finished, GStep::Done(GResolution::Found(candidate)))
            } else {
                g_dl_entry(d, path)
            },
            _ => g_halt(),
        },
        GState::DlCanon => match d.debuglink {
            Some(l) => match e {
                GEvent::Canonical(c) => match c {
                    None => (
                        GState::Finished,
                        GStep::Done(GResolution::Failed(LocateError::Canonicalize)),
                    ),
                    Some(cp) => match spec_parent(cp) {
                        None => (
                            GState::Finished,
                            GStep::Done(GResolution::Failed(LocateError::BadPath)),
                        ),
                        Some(par) => {
                            let cands = spec_debuglink_candidates(cp, par, l.filename);
                            (
                                GState::DlScan { cands, idx: 0 },
                                GStep::Ask(GAction::CheckExists(cands[0])),
                            )
                        },
                    },
                },
                _ => g_halt(),
            },
            None => g_halt(),
        },
        GState::DlScan { cands, idx } => match e {
            GEvent::Exists(b) => if b {
                (GState::Finished, GStep::Done(GResolution::Found(cands[idx])))
            } else if idx + 1 < cands.len() {
                (
                    GState::DlScan { cands, idx: idx + 1 },
                    GStep::Ask(GAction::CheckExists(cands[idx + 1])),
                )
            } else {
                (GState::Finished, GStep::Done(GResolution::NotFound))
            },
            _ => g_halt(),
        },
        GState::Finished => g_halt(),
    }
}

/// Which event kind each state awaits.
pub open spec fn spec_event_fits(st: GState, e: GEvent) -> bool {
    match st {
        GState::DsymCanon => e is Canonical,
        GState::DsymScan { reading, .. } => match reading {
            None => e is Entries,
            Some(_) => e is FileContents,
        },
        GState::DsymDeps { .. } => e is Entries,
        GState::DsymExamples { .. } => e is Entries,
        GState::DsymIndex => e is IndexResult,
        GState::PdbScan { .. } => e is FileContents,
        GState::PdbEnv { .. } => e is EnvValue,
        GState::PdbEntries { .. } => e is Exists,
        GState::PdbCanon => e is Canonical,
        GState::BuildIdProbe { .. } => e is Exists,
        GState::DlCanon => e is Canonical,
        GState::DlScan { .. } => e is Exists,
        GState::Finished => false,
    }
}

} // verus!

verus! {

// ---------------------------------------------------------------------
// The machine invariant.
// ---------------------------------------------------------------------

/// The machine invariant over ghost images: every scanning state indexes
/// inside its candidate list, and every strategy state has its descriptor
/// present.
pub open spec fn g_inv(d: GDescs, st: GState) -> bool {
    match st {
        GState::DsymCanon => d.mach_uuid is Some,
        GState::DsymScan { dirs, idx, reading, after } => d.mach_uuid is Some && 0 <= idx
            < dirs.len(),
        GState::DsymDeps { .. } => d.mach_uuid is Some,
        GState::DsymExamples { .. } => d.mach_uuid is Some,
        GState::DsymIndex => d.mach_uuid is Some,
        GState::PdbScan { files, fidx, cont } => d.pdb is Some && 0 <= fidx < files.len() && (
        cont matches GCont::Entries { entries, eidx, .. } ==> 0 <= eidx < entries.len()),
        GState::PdbEnv { .. } => d.pdb is Some,
        GState::PdbEntries { entries, eidx, .. } => d.pdb is Some && 0 <= eidx < entries.len(),
        GState::PdbCanon => d.pdb is Some,
        GState::BuildIdProbe { .. } => true,
        GState::DlCanon => d.debuglink is Some,
        GState::DlScan { cands, idx } => 0 <= idx < cands.len(),
        GState::Finished => true,
    }
}

/// Law: advancing the search-path scan from entry `i` either probes
/// exactly the first supported entry at or after `i` — every unsupported
/// entry before it is passed over without any request and without
/// affecting the outcome — or, when no supported entry remains, moves to
/// the next phase as if the unsupported entries were absent.
pub proof fn lemma_entry_advance(
    path: Seq<u8>,
    entries: Seq<Seq<u8>>,
    i: int,
    name_src: Seq<u8>,
    which: EnvPhase,
)
    requires
        0 <= i,
    ensures
        ({
            let r = g_pdb_entry_advance(path, entries, i, name_src, which);
            ||| (exists|n: int|
                #![trigger entries[n]]
                i <= n < entries.len() && spec_supported_entry(entries[n]) && (forall|j: int|
                    i <= j < n ==> !spec_supported_entry(entries[j])) && r == (
                GState::PdbEntries { entries, eidx: n, name_src, which },
                GStep::Ask(GAction::CheckExists(entries[n])),
                ))
            ||| ((forall|j: int| i <= j < entries.len() ==> !spec_supported_entry(entries[j]))
                && r == g_pdb_env_next(path, which))
        }),
    decreases entries.len() - i,
{
    if i >= entries.len() {
    } else if spec_supported_entry(entries[i]) {
        let r = g_pdb_entry_advance(path, entries, i, name_src, which);
        assert(i <= i < entries.len() && spec_supported_entry(entries[i]) && (forall|j: int|
            i <= j < i ==> !spec_supported_entry(entries[j])) && r == (
        GState::PdbEntries { entries, eidx: i, name_src, which },
        GStep::Ask(GAction::CheckExists(entries[i])),
        ));
    } else {
        lemma_entry_advance(path, entries, i + 1, name_src, which);
    }
}

/// The invariant is established by the first step.
pub proof fn lemma_start_inv(d: GDescs, path: Seq<u8>)
    ensures
        g_inv(d, spec_start(d, path).0),
{
}

/// The invariant is preserved by every step.
pub proof fn lemma_step_inv(d: GDescs, path: Seq<u8>, st: GState, e: GEvent)
    requires
        g_inv(d, st),
    ensures
        g_inv(d, spec_step(d, path, st, e).0),
{
    match st {
        GState::PdbScan { files, fidx, cont } => {
            match cont {
                GCont::Entries { entries, eidx, name_src, which } => {
                    lemma_entry_advance(path, entries, eidx + 1, name_src, which);
                },
                GCont::Embedded => {},
            }
        },
        GState::PdbEnv { which } => {
            match e {
                GEvent::EnvValue(v) => {
                    match v {
                        Some(val) => {
                            lemma_entry_advance(path, spec_split(val, ';' as u8), 0, path, which);
                        },
                        None => {},
                    }
                },
                _ => {},
            }
        },
        GState::PdbEntries { entries, eidx, name_src, which } => {
            lemma_entry_advance(path, entries, eidx + 1, name_src, which);
        },
        GState::PdbCanon => {
            match e {
                GEvent::Canonical(c) => {
                    match c {
                        Some(cp) => {
                            match spec_parent(cp) {
                                Some(par) => {
                                    lemma_entry_advance(path, seq![par], 0, cp, EnvPhase::Module);
                                },
                                None => {},
                            }
                        },
                        None => {},
                    }
                },
                _ => {},
            }
        },
        _ => {},
    }
}

// ---------------------------------------------------------------------
// The executable machine.
// ---------------------------------------------------------------------

/// The Mach-O UUID, where present.
fn uuid_of(descs: &DebugDescriptors) -> (r: &Vec<u8>)
    requires
        descs.mach_uuid is Some,
    ensures
        Some(r@) == g_descs(*descs).mach_uuid,
{
    match &descs.mach_uuid {
        Some(u) => u,
        None => vstd::pervasive::unreached(),
    }
}

/// The PDB descriptor, where present.
fn pdb_of(descs: &DebugDescriptors) -> (r: &PdbId)
    requires
        descs.pdb is Some,
    ensures
        g_descs(*descs).pdb matches Some(g) && r.path@ == g.path && r.guid@ == g.guid && r.age
            == g.age,
{
    match &descs.pdb {
        Some(p) => p,
        None => vstd::pervasive::unreached(),
    }
}

/// The debug-link descriptor, where present.
fn link_of(descs: &DebugDescriptors) -> (r: &DebugLink)
    requires
        descs.debuglink is Some,
    ensures
        g_descs(*descs).debuglink matches Some(g) && r.filename@ == g.filename && r.crc == g.crc,
{
    match &descs.debuglink {
        Some(l) => l,
        None => vstd::pervasive::unreached(),
    }
}

/// Bridging an optional byte string's two spec views.
proof fn lemma_opt_views(o: Option<Vec<u8>>)
    ensures
        o.deep_view() == g_opt_bytes(o),
{
    match o {
        Some(v) => {
            assert(v.deep_view() =~= v@);
        },
        None => {},
    }
}

/// Appends a copy of every path in `src` to `dst`.
fn append_paths(dst: &mut Vec<Vec<u8>>, src: &Vec<Vec<u8>>)
    ensures
        final(dst).deep_view() == old(dst).deep_view() + src.deep_view(),
{
    let mut j: usize = 0;
    while j < src.len()
        invariant
            j <= src@.len(),
            dst.deep_view() == old(dst).deep_view() + src.deep_view().take(j as int),
        decreases src@.len() - j,
    {
        let ghost pre = dst.deep_view();
        dst.push(copy_bytes(&src[j]));
        proof {
            assert(dst.deep_view() =~~= pre.push(src.deep_view()[j as int]));
            assert(pre.push(src.deep_view()[j as int]) =~~= old(dst).deep_view()
                + src.deep_view().take(j + 1));
        }
        j = j + 1;
    }
    proof {
        assert(src.deep_view().take(src@.len() as int) =~= src.deep_view());
    }
}

/// Executable twin of `g_dl_entry`.
fn dl_entry_exec(descs: &DebugDescriptors, path: &Vec<u8>) -> (r: (State, Step))
    ensures
        (gstate(r.0), gstep(r.1)) == g_dl_entry(g_descs(*descs), path@),
{
    match &descs.debuglink {
        Some(_) => (State::DlCanon, Step::Ask(Action::Canonicalize(copy_bytes(path)))),
        None => (State::Finished, Step::Done(Resolution::NotFound)),
    }
}

/// Executable twin of `g_dsym_index`.
fn dsym_index_exec(uuid: &Vec<u8>) -> (r: (State, Step))
    ensures
        (gstate(r.0), gstep(r.1)) == g_dsym_index(uuid@),
{
    (State::DsymIndex, Step::Ask(Action::QueryIndex(copy_bytes(uuid))))
}

/// Executable twin of `g_dsym_advance`.
fn dsym_advance_exec(uuid: &Vec<u8>, dirs: Vec<Vec<u8>>, idx: usize, after: DsymAfter) -> (r: (
    State,
    Step,
))
    ensures
        (gstate(r.0), gstep(r.1)) == g_dsym_advance(
            uuid@,
            dirs.deep_view(),
            idx as int,
            g_after(after),
        ),
{
    if idx < dirs.len() {
        let dwarf = dwarf_dir_of(dirs[idx].as_slice());
        proof {
            assert(dirs.deep_view()[idx as int] =~= dirs@[idx as int]@);
        }
        (
            State::DsymScan { dirs, idx, reading: None, after },
            Step::Ask(Action::ListDir(dwarf)),
        )
    } else {
        match after {
            DsymAfter::WalkTarget(c) => match find_target_channel(c.as_slice()) {
                Some(ch) => {
                    let deps = deps_dir_name();
                    let deps_dir = join(ch.as_slice(), deps.as_slice());
                    (State::DsymDeps { channel: ch }, Step::Ask(Action::ListDir(deps_dir)))
                },
                None => dsym_index_exec(uuid),
            },
            DsymAfter::Index => dsym_index_exec(uuid),
        }
    }
}

/// Executable twin of `g_pdb_env_next`.
fn pdb_env_next_exec(path: &Vec<u8>, which: EnvPhase) -> (r: (State, Step))
    ensures
        (gstate(r.0), gstep(r.1)) == g_pdb_env_next(path@, which),
{
    match which {
        EnvPhase::Sym => (
            State::PdbEnv { which: EnvPhase::Alt },
            Step::Ask(Action::ReadEnv(env_alt_symbol_path())),
        ),
        EnvPhase::Alt => (State::PdbCanon, Step::Ask(Action::Canonicalize(copy_bytes(path)))),
        EnvPhase::Module => (State::Finished, Step::Done(Resolution::NotFound)),
    }
}

/// Executable twin of `g_pdb_entry_advance`.
fn pdb_entry_advance_exec(
    path: &Vec<u8>,
    entries: Vec<Vec<u8>>,
    i: usize,
    name_src: Vec<u8>,
    which: EnvPhase,
) -> (r: (State, Step))
    requires
        i <= entries@.len(),
    ensures
        (gstate(r.0), gstep(r.1)) == g_pdb_entry_advance(
            path@,
            entries.deep_view(),
            i as int,
            name_src@,
            which,
        ),
{
    let mut j: usize = i;
    while j < entries.len()
        invariant
            i <= j <= entries@.len(),
            g_pdb_entry_advance(path@, entries.deep_view(), i as int, name_src@, which)
                == g_pdb_entry_advance(path@, entries.deep_view(), j as int, name_src@, which),
        decreases entries@.len() - j,
    {
        proof {
            assert(entries.deep_view()[j as int] =~= entries@[j as int]@);
        }
        let sup = supported_entry(entries[j].as_slice());
        if sup {
            let target = copy_bytes(&entries[j]);
            return (
                State::PdbEntries { entries, eidx: j, name_src, which },
                Step::Ask(Action::CheckExists(target)),
            );
        }
        j = j + 1;
    }
    pdb_env_next_exec(path, which)
}

impl Resolver {
    /// The machine invariant: the descriptors are well-formed and the
    /// state's ghost image satisfies `g_inv`.
    pub open spec fn inv(&self) -> bool {
        &&& self.descs.wf()
        &&& g_inv(g_descs(self.descs), gstate(self.state))
    }

    /// Begins a resolution: dispatches on the descriptors in priority
    /// order and returns the machine with its first step, whose ghost
    /// image is exactly `spec_start`.
    pub fn start(descs: DebugDescriptors, path: Vec<u8>) -> (r: (Resolver, Step))
        requires
            descs.wf(),
        ensures
            r.0.inv(),
            r.0.descs == descs,
            r.0.path == path,
            (gstate(r.0.state), gstep(r.1)) == spec_start(g_descs(descs), path@),
    {
        proof {
            lemma_start_inv(g_descs(descs), path@);
        }
        let (st, step): (State, Step) = match &descs.mach_uuid {
            Some(_) => (State::DsymCanon, Step::Ask(Action::Canonicalize(copy_bytes(&path)))),
            None => match &descs.pdb {
                Some(pi) => {
                    let mut files: Vec<Vec<u8>> = Vec::new();
                    files.push(copy_bytes(&pi.path));
                    proof {
                        assert(files.deep_view() =~~= seq![pi.path@]);
                    }
                    (
                        State::PdbScan { files, fidx: 0, cont: PdbCont::Embedded },
                        Step::Ask(Action::ReadFile(copy_bytes(&pi.path))),
                    )
                },
                None => match &descs.build_id {
                    Some(id) => match locate_debug_build_id(id.as_slice()) {
                        Ok(cand) => {
                            let probe = copy_bytes(&cand);
                            (
                                State::BuildIdProbe { candidate: cand },
                                Step::Ask(Action::CheckExists(probe)),
                            )
                        },
                        Err(_) => dl_entry_exec(&descs, &path),
                    },
                    None => dl_entry_exec(&descs, &path),
                },
            },
        };
        (Resolver { descs, path, state: st }, step)
    }

    /// Takes one step: consumes the driver's answer to the pending
    /// request and returns the next request or the final resolution. The
    /// ghost image of the new state and the step is exactly `spec_step`
    /// of the old ones.
    pub fn step(&mut self, e: Event) -> (r: Step)
        requires
            old(self).inv(),
            spec_event_fits(gstate(old(self).state), g_event(e)),
        ensures
            final(self).inv(),
            final(self).descs == old(self).descs,
            final(self).path == old(self).path,
            (gstate(final(self).state), gstep(r)) == spec_step(
                g_descs(old(self).descs),
                old(self).path@,
                gstate(old(self).state),
                g_event(e),
            ),
    {
        proof {
            lemma_step_inv(
                g_descs(old(self).descs),
                old(self).path@,
                gstate(old(self).state),
                g_event(e),
            );
        }
        let mut st = State::Finished;
        core::mem::swap(&mut st, &mut self.state);
        let halt: (State, Step) = (State::Finished, Step::Done(Resolution::NotFound));
        let (ns, r): (State, Step) = match st {
            State::DsymCanon => {
                let u = uuid_of(&self.descs);
                match e {
                    Event::Canonical(c) => match c {
                        None => dsym_index_exec(u),
                        Some(cp) => match sibling_dsym_of(cp.as_slice()) {
                            None => dsym_index_exec(u),
                            Some(sib) => {
                                let dwarf = dwarf_dir_of(sib.as_slice());
                                let mut dirs: Vec<Vec<u8>> = Vec::new();
                                dirs.push(sib);
                                proof {
                                    assert(dirs.deep_view() =~~= seq![
                                        spec_sibling_dsym(cp@).unwrap(),
                                    ]);
                                }
                                (
                                    State::DsymScan {
                                        dirs,
                                        idx: 0,
                                        reading: None,
                                        after: DsymAfter::WalkTarget(cp),
                                    },
                                    Step::Ask(Action::ListDir(dwarf)),
                                )
                            },
                        },
                    },
                    _ => halt,
                }
            },
            State::DsymScan { dirs, idx, reading, after } => {
                let u = uuid_of(&self.descs);
                let dirs_len = dirs.len();
                proof {
                    assert(idx < dirs_len);
                }
                match reading {
                    None => match e {
                        Event::Entries(ent) => match ent {
                            Some(names) => {
                                if names.len() == 1 {
                                    let dwarf = dwarf_dir_of(dirs[idx].as_slice());
                                    let file = join(dwarf.as_slice(), names[0].as_slice());
                                    let file2 = copy_bytes(&file);
                                    proof {
                                        assert(dirs.deep_view()[idx as int] =~= dirs@[idx
                                            as int]@);
                                        assert(names.deep_view()[0] =~= names@[0]@);
                                    }
                                    (
                                        State::DsymScan {
                                            dirs,
                                            idx,
                                            reading: Some(file),
                                            after,
                                        },
                                        Step::Ask(Action::ReadFile(file2)),
                                    )
                                } else {
                                    dsym_advance_exec(u, dirs, idx + 1, after)
                                }
                            },
                            None => dsym_advance_exec(u, dirs, idx + 1, after),
                        },
                        _ => halt,
                    },
                    Some(f) => match e {
                        Event::FileContents(b) => {
                            proof {
                                lemma_opt_views(b);
                            }
                            if mach_file_matches(u.as_slice(), &b) {
                                (State::Finished, Step::Done(Resolution::Found(f)))
                            } else {
                                dsym_advance_exec(u, dirs, idx + 1, after)
                            }
                        },
                        _ => halt,
                    },
                }
            },
            State::DsymDeps { channel } => match e {
                Event::Entries(ent) => {
                    let deps = deps_dir_name();
                    let deps_dir = join(channel.as_slice(), deps.as_slice());
                    let found = match &ent {
                        Some(names) => dsym_dirs_in(deps_dir.as_slice(), names),
                        None => Vec::new(),
                    };
                    proof {
                        if ent is None {
                            assert(found.deep_view() =~= spec_dsym_dirs(
                                deps_dir@,
                                Seq::empty(),
                            ));
                        }
                    }
                    let ex = examples_dir_name();
                    let ex_dir = join(channel.as_slice(), ex.as_slice());
                    (
                        State::DsymExamples { channel, found },
                        Step::Ask(Action::ListDir(ex_dir)),
                    )
                },
                _ => halt,
            },
            State::DsymExamples { channel, found } => {
                let u = uuid_of(&self.descs);
                match e {
                    Event::Entries(ent) => {
                        let ex = examples_dir_name();
                        let ex_dir = join(channel.as_slice(), ex.as_slice());
                        let more = match &ent {
                            Some(names) => dsym_dirs_in(ex_dir.as_slice(), names),
                            None => Vec::new(),
                        };
                        proof {
                            if ent is None {
                                assert(more.deep_view() =~= spec_dsym_dirs(
                                    ex_dir@,
                                    Seq::empty(),
                                ));
                            }
                        }
                        let mut all = found;
                        append_paths(&mut all, &more);
                        dsym_advance_exec(u, all, 0, DsymAfter::Index)
                    },
                    _ => halt,
                }
            },
            State::DsymIndex => match e {
                Event::IndexResult(r) => match r {
                    Some(p) => (State::Finished, Step::Done(Resolution::Found(p))),
                    None => (State::Finished, Step::Done(Resolution::NotFound)),
                },
                _ => halt,
            },
            State::PdbScan { files, fidx, cont } => {
                let pi = pdb_of(&self.descs);
                let files_len = files.len();
                proof {
                    assert(fidx < files_len);
                }
                match e {
                    Event::FileContents(b) => {
                        proof {
                            lemma_opt_views(b);
                        }
                        if pdb_file_matches(pi.guid.as_slice(), pi.age, &b) {
                            let hit = copy_bytes(&files[fidx]);
                            proof {
                                assert(files.deep_view()[fidx as int] =~= files@[fidx as int]@);
                            }
                            (State::Finished, Step::Done(Resolution::Found(hit)))
                        } else {
                            let next = fidx + 1;
                            if next < files.len() {
                                let f = copy_bytes(&files[next]);
                                proof {
                                    assert(files.deep_view()[next as int] =~= files@[next
                                        as int]@);
                                }
                                (
                                    State::PdbScan { files, fidx: next, cont },
                                    Step::Ask(Action::ReadFile(f)),
                                )
                            } else {
                                match cont {
                                    PdbCont::Embedded => (
                                        State::PdbEnv { which: EnvPhase::Sym },
                                        Step::Ask(Action::ReadEnv(env_symbol_path())),
                                    ),
                                    PdbCont::Entries { entries, eidx, name_src, which } => {
                                        let entries_len = entries.len();
                                        proof {
                                            assert(eidx < entries_len);
                                        }
                                        pdb_entry_advance_exec(
                                            &self.path,
                                            entries,
                                            eidx + 1,
                                            name_src,
                                            which,
                                        )
                                    },
                                }
                            }
                        }
                    },
                    _ => halt,
                }
            },
            State::PdbEnv { which } => match e {
                Event::EnvValue(v) => match v {
                    None => pdb_env_next_exec(&self.path, which),
                    Some(val) => {
                        let entries = split_on(val.as_slice(), ';' as u8);
                        let ns = copy_bytes(&self.path);
                        pdb_entry_advance_exec(&self.path, entries, 0, ns, which)
                    },
                },
                _ => halt,
            },
            State::PdbEntries { entries, eidx, name_src, which } => match e {
                Event::Exists(b) => {
                    let entries_len = entries.len();
                    proof {
                        assert(eidx < entries_len);
                    }
                    if !b {
                        pdb_entry_advance_exec(&self.path, entries, eidx + 1, name_src, which)
                    } else {
                        proof {
                            assert(entries.deep_view()[eidx as int] =~= entries@[eidx as int]@);
                        }
                        let files = search_dir_files(
                            entries[eidx].as_slice(),
                            name_src.as_slice(),
                        );
                        if files.len() == 0 {
                            pdb_entry_advance_exec(
                                &self.path,
                                entries,
                                eidx + 1,
                                name_src,
                                which,
                            )
                        } else {
                            let f0 = copy_bytes(&files[0]);
                            proof {
                                assert(files.deep_view()[0] =~= files@[0]@);
                            }
                            (
                                State::PdbScan {
                                    files,
                                    fidx: 0,
                                    cont: PdbCont::Entries { entries, eidx, name_src, which },
                                },
                                Step::Ask(Action::ReadFile(f0)),
                            )
                        }
                    }
                },
                _ => halt,
            },
            State::PdbCanon => match e {
                Event::Canonical(c) => match c {
                    None => (
                        State::Finished,
                        Step::Done(Resolution::Failed(LocateError::Canonicalize)),
                    ),
                    Some(cp) => match parent_of(cp.as_slice()) {
                        None => (State::Finished, Step::Done(Resolution::NotFound)),
                        Some(par) => {
                            let mut entries: Vec<Vec<u8>> = Vec::new();
                            entries.push(par);
                            proof {
                                assert(entries.deep_view() =~~= seq![
                                    spec_parent(cp@).unwrap(),
                                ]);
                            }
                            pdb_entry_advance_exec(&self.path, entries, 0, cp, EnvPhase::Module)
                        },
                    },
                },
                _ => halt,
            },
            State::BuildIdProbe { candidate } => match e {
                Event::Exists(b) => {
                    if b {
                        (State::Finished, Step::Done(Resolution::Found(candidate)))
                    } else {
                        dl_entry_exec(&self.descs, &self.path)
                    }
                },
                _ => halt,
            },
            State::DlCanon => {
                let l = link_of(&self.descs);
                match e {
                    Event::Canonical(c) => match c {
                        None => (
                            State::Finished,
                            Step::Done(Resolution::Failed(LocateError::Canonicalize)),
                        ),
                        Some(cp) => match debuglink_candidates(
                            cp.as_slice(),
                            l.filename.as_slice(),
                        ) {
                            Err(_) => (
                                State::Finished,
                                Step::Done(Resolution::Failed(LocateError::BadPath)),
                            ),
                            Ok(cands) => {
                                let c0 = copy_bytes(&cands[0]);
                                proof {
                                    assert(cands.deep_view()[0] =~= cands@[0]@);
                                }
                                (
                                    State::DlScan { cands, idx: 0 },
                                    Step::Ask(Action::CheckExists(c0)),
                                )
                            },
                        },
                    },
                    _ => halt,
                }
            },
            State::DlScan { cands, idx } => match e {
                Event::Exists(b) => {
                    let cands_len = cands.len();
                    proof {
                        assert(idx < cands_len);
                    }
                    if b {
                        let hit = copy_bytes(&cands[idx]);
                        proof {
                            assert(cands.deep_view()[idx as int] =~= cands@[idx as int]@);
                        }
                        (State::Finished, Step::Done(Resolution::Found(hit)))
                    } else {
                        let next = idx + 1;
                        if next < cands.len() {
                            let cn = copy_bytes(&cands[next]);
                            proof {
                                assert(cands.deep_view()[next as int] =~= cands@[next as int]@);
                            }
                            (
                                State::DlScan { cands, idx: next },
                                Step::Ask(Action::CheckExists(cn)),
                            )
                        } else {
                            (State::Finished, Step::Done(Resolution::NotFound))
                        }
                    }
                },
                _ => halt,
            },
            State::Finished => halt,
        };
        self.state = ns;
        r
    }
}

} // verus!

verus! {

/// The first step follows the single dispatch point
/// `DebugDescriptors::spec_dispatch`: the strategy entered is the one
/// selected by the highest-priority descriptor present, and with none
/// present the resolution is immediately "not found". A build-id shorter
/// than two bytes enters the debug-link strategy directly, as a missing
/// build-id would.
pub proof fn lemma_start_follows_dispatch(d: DebugDescriptors, path: Seq<u8>)
    ensures
        match d.spec_dispatch() {
            Some(DebugDescriptor::MachOUuid(_)) => spec_start(g_descs(d), path).0 is DsymCanon,
            Some(DebugDescriptor::PdbInfo(_)) => spec_start(g_descs(d), path).0 is PdbScan,
            Some(DebugDescriptor::BuildId(id)) => if id@.len() >= 2 {
                spec_start(g_descs(d), path).0 is BuildIdProbe
            } else {
                spec_start(g_descs(d), path) == g_dl_entry(g_descs(d), path)
            },
            Some(DebugDescriptor::GnuDebugLink(_)) => spec_start(g_descs(d), path).0 is DlCanon,
            None => spec_start(g_descs(d), path).1 == GStep::Done(GResolution::NotFound),
        },
{
}

/// The final step of an existence scan: from candidate `idx`, each answer
/// in `answers` is fed to the machine in turn, and the step the last
/// answer provokes is the result (the scan is still unfinished on an
/// empty answer sequence, counted here as "not found").
pub open spec fn spec_dl_outcome(
    d: GDescs,
    path: Seq<u8>,
    cands: Seq<Seq<u8>>,
    idx: int,
    answers: Seq<bool>,
) -> GStep
    decreases answers.len(),
{
    if answers.len() == 0 {
        GStep::Done(GResolution::NotFound)
    } else {
        let next = spec_step(d, path, GState::DlScan { cands, idx }, GEvent::Exists(answers[0]));
        if answers.len() == 1 {
            next.1
        } else {
            match next.0 {
                GState::DlScan { cands: c2, idx: i2 } => spec_dl_outcome(
                    d,
                    path,
                    c2,
                    i2,
                    answers.drop_first(),
                ),
                _ => next.1,
            }
        }
    }
}

/// Law: across an existence scan the result is decided only by which
/// candidate first answers positively. However many non-matching
/// candidates are probed before it, feeding "no" for each of them and
/// then "yes" for candidate `k` ends the scan with exactly `cands[k]`.
pub proof fn lemma_dl_first_match(
    d: GDescs,
    path: Seq<u8>,
    cands: Seq<Seq<u8>>,
    idx: int,
    answers: Seq<bool>,
    k: int,
)
    requires
        0 <= idx,
        answers.len() >= 1,
        k == idx + answers.len() - 1,
        k < cands.len(),
        forall|j: int| 0 <= j < answers.len() - 1 ==> !answers[j],
        answers[answers.len() - 1],
    ensures
        spec_dl_outcome(d, path, cands, idx, answers) == GStep::Done(
            GResolution::Found(cands[k]),
        ),
    decreases answers.len(),
{
    if answers.len() == 1 {
        assert(answers[0]);
    } else {
        assert(!answers[0]);
        assert(forall|j: int|
            0 <= j < answers.drop_first().len() - 1 ==> !answers.drop_first()[j]);
        lemma_dl_first_match(d, path, cands, idx + 1, answers.drop_first(), k);
    }
}

/// The final step of a validation scan: from file candidate `fidx`, each
/// file-contents reply in `replies` is fed to the machine in turn, and
/// the step the last reply provokes is the result.
pub open spec fn spec_pdb_outcome(
    d: GDescs,
    path: Seq<u8>,
    files: Seq<Seq<u8>>,
    fidx: int,
    cont: GCont,
    replies: Seq<Option<Seq<u8>>>,
) -> GStep
    decreases replies.len(),
{
    if replies.len() == 0 {
        GStep::Done(GResolution::NotFound)
    } else {
        let next = spec_step(
            d,
            path,
            GState::PdbScan { files, fidx, cont },
            GEvent::FileContents(replies[0]),
        );
        if replies.len() == 1 {
            next.1
        } else {
            match next.0 {
                GState::PdbScan { files: f2, fidx: i2, cont: c2 } => spec_pdb_outcome(
                    d,
                    path,
                    f2,
                    i2,
                    c2,
                    replies.drop_first(),
                ),
                _ => next.1,
            }
        }
    }
}

/// Law: across a validation scan the result is decided only by which
/// candidate's bytes first validate against the target identity. However
/// many prior candidates fail validation (unreadable, unparsable or
/// mismatching alike), the scan returns exactly the first candidate whose
/// reply validates.
pub proof fn lemma_pdb_first_match(
    d: GDescs,
    path: Seq<u8>,
    files: Seq<Seq<u8>>,
    fidx: int,
    cont: GCont,
    replies: Seq<Option<Seq<u8>>>,
    k: int,
)
    requires
        d.pdb is Some,
        0 <= fidx,
        replies.len() >= 1,
        k == fidx + replies.len() - 1,
        k < files.len(),
        forall|j: int|
            0 <= j < replies.len() - 1 ==> !spec_pdb_file_matches(
                d.pdb.unwrap().guid,
                d.pdb.unwrap().age,
                replies[j],
            ),
        spec_pdb_file_matches(
            d.pdb.unwrap().guid,
            d.pdb.unwrap().age,
            replies[replies.len() - 1],
        ),
    ensures
        spec_pdb_outcome(d, path, files, fidx, cont, replies) == GStep::Done(
            GResolution::Found(files[k]),
        ),
    decreases replies.len(),
{
    if replies.len() == 1 {
    } else {
        assert(!spec_pdb_file_matches(d.pdb.unwrap().guid, d.pdb.unwrap().age, replies[0]));
        assert(forall|j: int|
            0 <= j < replies.drop_first().len() - 1 ==> !spec_pdb_file_matches(
                d.pdb.unwrap().guid,
                d.pdb.unwrap().age,
                replies.drop_first()[j],
            ));
        lemma_pdb_first_match(d, path, files, fidx + 1, cont, replies.drop_first(), k);
    }
}

} // verus!
