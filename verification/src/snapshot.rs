//! Provenance of the snapshot artifacts a restore was assembled from.

use vstd::prelude::*;

verus! {

/// One located snapshot artifact: the slot it captures and its content
/// hash.
#[derive(Clone, Copy, Debug, PartialEq, Eq, Structural)]
pub struct SnapshotArtifact {
    /// The slot the artifact captures.
    pub slot: u64,
    /// The artifact's content hash.
    pub state_hash: u64,
}

/// The provenance of a completed snapshot restore: the full artifact, and,
/// when one took part, the incremental artifact built atop it at a later
/// slot.  Higher-level consensus logic later validates that subsequent
/// snapshot activity descends from this lineage; the coordinator only
/// packages what the loading collaborator reported.
#[derive(Clone, Copy, Debug, PartialEq, Eq, Structural)]
pub enum SnapshotReference {
    /// A restore from a full artifact alone.
    FullOnly { full: SnapshotArtifact },
    /// A restore from a full artifact plus an incremental artifact at a
    /// later slot.
    FullAndIncremental { full: SnapshotArtifact, incremental: SnapshotArtifact },
}

impl SnapshotReference {
    /// The invariant the locating collaborator guarantees: an incremental
    /// artifact always references a slot after its full artifact.
    pub open spec fn wf(&self) -> bool {
        match *self {
            SnapshotReference::FullOnly { full: _ } => true,
            SnapshotReference::FullAndIncremental { full, incremental } => {
                incremental.slot > full.slot
            },
        }
    }

    /// The full artifact.
    pub open spec fn full_spec(&self) -> SnapshotArtifact {
        match *self {
            SnapshotReference::FullOnly { full } => full,
            SnapshotReference::FullAndIncremental { full, incremental: _ } => full,
        }
    }

    /// The incremental artifact, when one took part.
    pub open spec fn incremental_spec(&self) -> Option<SnapshotArtifact> {
        match *self {
            SnapshotReference::FullOnly { full: _ } => None,
            SnapshotReference::FullAndIncremental { full: _, incremental } => Some(incremental),
        }
    }
}

/// The reference packaged from what the loading collaborator reported.
pub open spec fn spec_reference(
    full: SnapshotArtifact,
    incremental: Option<SnapshotArtifact>,
) -> SnapshotReference {
    match incremental {
        None => SnapshotReference::FullOnly { full },
        Some(inc) => SnapshotReference::FullAndIncremental { full, incremental: inc },
    }
}

/// Package the provenance reported by the snapshot-loading collaborator.
/// The artifacts come back exactly as reported: the returned reference
/// carries the same slots and hashes.
pub fn assemble_provenance(
    full: SnapshotArtifact,
    incremental: Option<SnapshotArtifact>,
) -> (r: SnapshotReference)
    requires
        incremental matches Some(inc) ==> inc.slot > full.slot,
    ensures
        r == spec_reference(full, incremental),
        r.wf(),
        r.full_spec() == full,
        r.incremental_spec() == incremental,
{
    match incremental {
        None => SnapshotReference::FullOnly { full },
        Some(inc) => SnapshotReference::FullAndIncremental { full, incremental: inc },
    }
}

} // verus!
