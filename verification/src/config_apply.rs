//! What applying the CCC config reports: whether a backup of the source was
//! taken before writing, and the entry policy health when no config could
//! be read.

use vstd::prelude::*;
use crate::strings::to_owned;

verus! {

/// The backup record of one config apply.
pub struct CccConfigApplyReport {
    pub backup_status: String,
    pub backup_source_path: Option<String>,
    pub backup_path: Option<String>,
}

impl CccConfigApplyReport {
    /// No backup was needed (yet).
    pub fn not_required() -> (r: Self)
        ensures
            r.backup_status@ == "not-required"@,
            r.backup_source_path is None,
            r.backup_path is None,
    {
        CccConfigApplyReport {
            backup_status: to_owned("not-required"),
            backup_source_path: None,
            backup_path: None,
        }
    }

    /// Records that `source_path` was backed up to `backup_path` before it
    /// was rewritten.
    pub fn record_backup(&mut self, source_path: &str, backup_path: String)
        ensures
            final(self).backup_status@ == "created"@,
            final(self).backup_source_path matches Some(p) && p@ == source_path@,
            final(self).backup_path == Some(backup_path),
    {
        self.backup_status = to_owned("created");
        self.backup_source_path = Some(to_owned(source_path));
        self.backup_path = Some(backup_path);
    }
}

/// The entry policy health of a config: status, raw mode, canonical mode and
/// a summary.
pub struct EntryPolicyModeVisibility {
    pub status: String,
    pub raw_mode: Option<String>,
    pub canonical_mode: Option<String>,
    pub summary: String,
}

/// The entry policy health when no readable canonical config was loaded.
pub fn unavailable_entry_policy_mode_visibility() -> (r: EntryPolicyModeVisibility)
    ensures
        r.status@ == "unavailable"@,
        r.raw_mode is None,
        r.canonical_mode is None,
        r.summary@
            == "Entry policy mode health is unavailable because no readable canonical CCC config was loaded."@,
{
    EntryPolicyModeVisibility {
        status: to_owned("unavailable"),
        raw_mode: None,
        canonical_mode: None,
        summary: to_owned(
            "Entry policy mode health is unavailable because no readable canonical CCC config was loaded.",
        ),
    }
}

} // verus!
