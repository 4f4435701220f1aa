//! The data model: debug descriptors extracted from a binary's headers,
//! the fatal error class, and the overall result of a resolution.

use vstd::prelude::*;

verus! {

/// A failure that makes the search itself unable to proceed. Everything
/// else — a missing, unreadable, unparsable or mismatching candidate — is
/// absorbed as "not a match" and the search continues.
#[derive(Clone, Copy, Debug, PartialEq, Eq, Structural)]
pub enum LocateError {
    /// A build-id of fewer than two bytes cannot name a debug file.
    TooShort,
    /// The binary's own path could not be canonicalized.
    Canonicalize,
    /// The canonical binary path has no parent directory.
    BadPath,
}

/// Windows codeview identifying info: the PDB path embedded in the binary,
/// the 16 raw GUID bytes as recorded in the codeview record, and the age.
pub struct PdbId {
    /// The PDB path embedded in the binary's codeview record.
    pub path: Vec<u8>,
    /// The 16 raw GUID bytes; the first three fields are little-endian.
    pub guid: Vec<u8>,
    /// The number of times the PDB has been written.
    pub age: u32,
}

impl PdbId {
    /// The GUID holds exactly 16 bytes.
    pub open spec fn wf(&self) -> bool {
        self.guid@.len() == 16
    }
}

/// GNU debug-link info: the companion file's name and its checksum. The
/// checksum is accepted into the contract but, as in every observed version
/// of this search, never verified against file content.
pub struct DebugLink {
    /// The debug file's name, relative to the conventional directories.
    pub filename: Vec<u8>,
    /// CRC of the debug file; recorded, not checked.
    pub crc: u32,
}

/// One debug descriptor, as the closed variant type the orchestrator
/// dispatches on.
pub enum DebugDescriptor {
    /// A Mach-O build UUID (16 bytes).
    MachOUuid(Vec<u8>),
    /// Windows codeview/PDB identifying info.
    PdbInfo(PdbId),
    /// An ELF build-id byte sequence.
    BuildId(Vec<u8>),
    /// A GNU debug-link record.
    GnuDebugLink(DebugLink),
}

/// Every descriptor a binary exposes. A binary may expose more than one
/// kind at once; the orchestrator's priority order decides which strategy
/// runs, and only the build-id strategy falls through (to the debug-link)
/// when it finds nothing.
pub struct DebugDescriptors {
    /// A Mach-O build UUID (16 bytes), if the binary records one.
    pub mach_uuid: Option<Vec<u8>>,
    /// Codeview/PDB info, if the binary records it.
    pub pdb: Option<PdbId>,
    /// An ELF build-id, if the binary records one.
    pub build_id: Option<Vec<u8>>,
    /// A GNU debug-link record, if the binary records one.
    pub debuglink: Option<DebugLink>,
}

impl DebugDescriptors {
    /// Fixed-size fields have their recorded sizes.
    pub open spec fn wf(&self) -> bool {
        &&& (self.mach_uuid matches Some(u) ==> u@.len() == 16)
        &&& (self.pdb matches Some(p) ==> p.wf())
    }

    /// The single dispatch point: the highest-priority descriptor present.
    /// The priority order is Mach-O UUID, then PDB info, then build-id,
    /// then GNU debug-link; with none present the resolution is "not
    /// found".
    pub open spec fn spec_dispatch(&self) -> Option<DebugDescriptor> {
        if self.mach_uuid is Some {
            Some(DebugDescriptor::MachOUuid(self.mach_uuid.unwrap()))
        } else if self.pdb is Some {
            Some(DebugDescriptor::PdbInfo(self.pdb.unwrap()))
        } else if self.build_id is Some {
            Some(DebugDescriptor::BuildId(self.build_id.unwrap()))
        } else if self.debuglink is Some {
            Some(DebugDescriptor::GnuDebugLink(self.debuglink.unwrap()))
        } else {
            None
        }
    }
}

/// The overall outcome of one resolution: a validated absolute path, an
/// explicit "not found" (a normal outcome), or a fatal failure.
#[derive(Debug, PartialEq, Eq)]
pub enum Resolution {
    /// A validated debug file was found at this path.
    Found(Vec<u8>),
    /// No candidate matched; a normal, expected outcome.
    NotFound,
    /// The search itself could not proceed.
    Failed(LocateError),
}

} // verus!
