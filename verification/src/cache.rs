//! What the impact module keeps between two renders.

use vstd::prelude::*;

use crate::git::GitRaw;

verus! {

/// A cached entry, as it is read back.
pub struct CachedImpact {
    /// The session that wrote it.
    pub session_id: String,
    /// Commits at the start of that session.
    pub baseline_commit_count: u64,
    /// Merges at the start of that session.
    pub baseline_merge_count: u64,
    /// The git snapshot.
    pub raw: GitRaw,
    /// The score of the render that wrote it.
    pub last_score: u32,
    /// When the git snapshot expires.
    pub expires_at: u64,
    /// Whether the git snapshot has not expired.
    pub fresh: bool,
}

/// An entry to be written.
pub struct ImpactEntry {
    pub session_id: String,
    pub baseline_commit_count: u64,
    pub baseline_merge_count: u64,
    pub raw: GitRaw,
    pub score: u32,
    /// The lifetime of the snapshot, where it is to begin now.
    pub ttl_secs: u64,
    /// The time at which the snapshot expires, where it is to be kept as it was.
    pub keep_expires_at: Option<u64>,
}

/// An [`ImpactEntry`] with the session's name as a sequence of characters.
pub struct EntryView {
    pub session: Seq<char>,
    pub baseline_commit_count: u64,
    pub baseline_merge_count: u64,
    pub raw: GitRaw,
    pub score: u32,
    pub ttl_secs: u64,
    pub keep_expires_at: Option<u64>,
}

impl View for ImpactEntry {
    type V = EntryView;

    open spec fn view(&self) -> EntryView {
        EntryView {
            session: self.session_id@,
            baseline_commit_count: self.baseline_commit_count,
            baseline_merge_count: self.baseline_merge_count,
            raw: self.raw,
            score: self.score,
            ttl_secs: self.ttl_secs,
            keep_expires_at: self.keep_expires_at,
        }
    }
}

} // verus!
