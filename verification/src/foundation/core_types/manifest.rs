//! Manifest value model: entries, the manifest, and change sets.

use vstd::prelude::*;

use super::path::RelativePath;
use super::primitives::{ByteCount, ManifestDigest, Sha256Digest};

verus! {

/// Content fingerprint of one file in the vault (ordered by path, then hash, then size).
#[derive(Debug, Clone, PartialEq, Eq, PartialOrd, Ord, Hash)]
pub struct ManifestEntry {
    /// Normalized path relative to the vault root.
    pub relative_path: RelativePath,
    /// SHA-256 of the file's content.
    pub raw_sha256: Sha256Digest,
    /// File size.
    pub size: ByteCount,
}

/// Content snapshot of the whole vault, entries in canonical path order.
#[derive(Debug, Clone, PartialEq, Eq)]
pub struct Manifest {
    /// Entries sorted by path.
    pub entries: Vec<ManifestEntry>,
    /// Discriminator of the sorted entries.
    pub manifest_digest: ManifestDigest,
}

/// Difference of the current manifest against the last committed one.
#[derive(Debug, Clone, PartialEq, Eq)]
pub struct ChangeSet {
    /// Files only in the current manifest.
    pub added: Vec<ManifestEntry>,
    /// Files in both whose content or size changed (current values).
    pub modified: Vec<ManifestEntry>,
    /// Paths only in the prior manifest.
    pub deleted: Vec<RelativePath>,
}

impl ChangeSet {
    /// True when all three lists are empty (a no-op cycle).
    pub fn is_empty(&self) -> (r: bool)
        ensures
            r == (self.added@.len() == 0 && self.modified@.len() == 0 && self.deleted@.len() == 0),
    {
        self.added.is_empty() && self.modified.is_empty() && self.deleted.is_empty()
    }
}

} // verus!
