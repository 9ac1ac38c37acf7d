//! Updater persistence logic: where the updater's files live, what a
//! loaded state must look like to be trusted, and the human-readable
//! statistics derived from state and configuration. The actual file
//! reads and writes happen at the application edge.

use vstd::prelude::*;
use crate::strutil::spec_dec;
use crate::update_types::{UpdateConfig, UpdateStorage};

verus! {

/// Why a storage operation failed.
pub enum StorageError {
    /// An underlying file-system failure, described.
    FileSystemError(String),
    /// The stored text did not decode, described.
    JsonError(String),
    /// No per-user data directory exists on this platform.
    InvalidDataDirectory,
    /// A permission problem, described.
    PermissionDenied(String),
    /// The stored state contradicts itself, described.
    CorruptedData(String),
}

/// Knows where the updater's state and configuration files live.
pub struct StorageManager {
    pub storage_dir: String,
    pub state_file: String,
    pub config_file: String,
}

/// The storage layout under a base directory: the two file paths hang
/// directly under it.
pub open spec fn spec_files_of(dir: Seq<char>) -> (Seq<char>, Seq<char>) {
    (dir + "/updater_state.json"@, dir + "/updater_config.json"@)
}

impl StorageManager {
    /// The file paths follow from the directory.
    pub open spec fn wf(self) -> bool {
        &&& self.state_file@ == spec_files_of(self.storage_dir@).0
        &&& self.config_file@ == spec_files_of(self.storage_dir@).1
    }

    /// A storage manager rooted in the per-user data directory (under
    /// the application's own subdirectory), when the platform has one.
    pub fn new() -> (r: Result<StorageManager, StorageError>)
        ensures
            match r {
                Ok(m) => m.wf(),
                Err(e) => e is InvalidDataDirectory,
            },
    {
        match crate::hostinfo::data_dir() {
            None => Err(StorageError::InvalidDataDirectory),
            Some(base) => {
                let mut d = crate::strutil::str_to_chars(base.as_str());
                let mut suffix = crate::strutil::str_to_chars("/AirShare/updater");
                d.append(&mut suffix);
                Ok(Self::with_custom_directory(crate::strutil::chars_to_string(&d)))
            },
        }
    }

    /// A storage manager rooted in the given directory.
    pub fn with_custom_directory(custom_dir: String) -> (r: StorageManager)
        ensures
            r.wf(),
            r.storage_dir == custom_dir,
    {
        let mut st = crate::strutil::str_to_chars(custom_dir.as_str());
        let mut sf = crate::strutil::str_to_chars("/updater_state.json");
        st.append(&mut sf);
        let mut cf = crate::strutil::str_to_chars(custom_dir.as_str());
        let mut cff = crate::strutil::str_to_chars("/updater_config.json");
        cf.append(&mut cff);
        StorageManager {
            storage_dir: custom_dir,
            state_file: crate::strutil::chars_to_string(&st),
            config_file: crate::strutil::chars_to_string(&cf),
        }
    }

    /// Path of the state file.
    pub fn state_file_path(&self) -> (r: &str)
        ensures
            r@ == self.state_file@,
    {
        self.state_file.as_str()
    }

    /// Path of the configuration file.
    pub fn config_file_path(&self) -> (r: &str)
        ensures
            r@ == self.config_file@,
    {
        self.config_file.as_str()
    }

    /// Path of the storage directory.
    pub fn storage_directory(&self) -> (r: &str)
        ensures
            r@ == self.storage_dir@,
    {
        self.storage_dir.as_str()
    }

    /// Whether a loaded state is internally credible at time `now`: it
    /// names a version, and its check timestamp is not more than a day in
    /// the future.
    pub open spec fn spec_state_valid(state: UpdateStorage, now: u64) -> bool {
        state.current_version@.len() > 0 && state.last_check_timestamp <= now + 86400
    }

    /// Validates a loaded state against the clock reading `now`.
    pub fn validate_state_at(state: &UpdateStorage, now: u64) -> (r: Result<(), StorageError>)
        ensures
            (r is Ok) == Self::spec_state_valid(*state, now),
    {
        if state.current_version.as_str().is_empty() {
            Err(StorageError::CorruptedData("Empty current version".to_owned()))
        } else if now <= 0xffff_ffff_ffff_ffff - 86400 && state.last_check_timestamp > now + 86400 {
            Err(StorageError::CorruptedData("Invalid timestamp in future".to_owned()))
        } else {
            Ok(())
        }
    }

    /// Validates a loaded state against the clock.
    pub fn validate_state(&self, state: &UpdateStorage) -> (r: Result<(), StorageError>)
        ensures
            (r is Ok) ==> state.current_version@.len() > 0,
    {
        let now = crate::hostinfo::current_timestamp();
        Self::validate_state_at(state, now)
    }

    /// The statistics for a loaded state and configuration at time
    /// `now`: how long since the last check, whether the next one is
    /// due, and what is pending.
    pub fn get_stats_at(state: UpdateStorage, config: UpdateConfig, now: u64) -> (r: UpdateStats)
        ensures
            r.last_check_timestamp == state.last_check_timestamp,
            state.last_check_timestamp > 0 ==> r.time_since_last_check == Some(
                (if now >= state.last_check_timestamp {
                    (now - state.last_check_timestamp) as u64
                } else {
                    0u64
                }),
            ),
            state.last_check_timestamp == 0 ==> r.time_since_last_check is None,
            r.next_check_due == (state.last_check_timestamp == 0 || (match r.time_since_last_check {
                Some(e) => e >= config.check_interval_seconds,
                None => true,
            })),
            r.has_ignored_version == (state.last_ignored_version is Some),
            r.has_pending_changelog == (state.show_changelog_for is Some),
            r.current_version == state.current_version,
            r.config == config,
    {
        let time_since_last_check: Option<u64> = if state.last_check_timestamp > 0 {
            Some(now.saturating_sub(state.last_check_timestamp))
        } else {
            None
        };
        let next_check_due = match time_since_last_check {
            Some(e) => e >= config.check_interval_seconds,
            None => true,
        };
        let has_ignored_version = match &state.last_ignored_version {
            Some(_) => true,
            None => false,
        };
        let has_pending_changelog = match &state.show_changelog_for {
            Some(_) => true,
            None => false,
        };
        UpdateStats {
            last_check_timestamp: state.last_check_timestamp,
            time_since_last_check,
            next_check_due,
            has_ignored_version,
            has_pending_changelog,
            current_version: state.current_version,
            config,
        }
    }
}

/// Statistics about update checking.
pub struct UpdateStats {
    pub last_check_timestamp: u64,
    pub time_since_last_check: Option<u64>,
    pub next_check_due: bool,
    pub has_ignored_version: bool,
    pub has_pending_changelog: bool,
    pub current_version: String,
    pub config: UpdateConfig,
}

/// How the elapsed time since the last check reads: the coarsest unit
/// that has a non-zero count.
pub open spec fn spec_time_since_text(since: Option<u64>) -> Seq<char> {
    match since {
        Some(secs) => if secs < 60 {
            spec_dec(secs as int) + " seconds ago"@
        } else if secs < 3600 {
            spec_dec(secs as int / 60) + " minutes ago"@
        } else if secs < 86400 {
            spec_dec(secs as int / 3600) + " hours ago"@
        } else {
            spec_dec(secs as int / 86400) + " days ago"@
        },
        None => "Never"@,
    }
}

impl UpdateStats {
    /// The elapsed time since the last check, human readable.
    pub fn format_time_since_check(&self) -> (r: String)
        ensures
            r@ == spec_time_since_text(self.time_since_last_check),
    {
        match self.time_since_last_check {
            None => {
                let r = "Never".to_owned();
                r
            },
            Some(secs) => {
                let mut out: Vec<char> = Vec::new();
                if secs < 60 {
                    let mut d = crate::strutil::dec_chars(secs);
                    out.append(&mut d);
                    let mut l = crate::strutil::str_to_chars(" seconds ago");
                    out.append(&mut l);
                } else if secs < 3600 {
                    let mut d = crate::strutil::dec_chars(secs / 60);
                    out.append(&mut d);
                    let mut l = crate::strutil::str_to_chars(" minutes ago");
                    out.append(&mut l);
                } else if secs < 86400 {
                    let mut d = crate::strutil::dec_chars(secs / 3600);
                    out.append(&mut d);
                    let mut l = crate::strutil::str_to_chars(" hours ago");
                    out.append(&mut l);
                } else {
                    let mut d = crate::strutil::dec_chars(secs / 86400);
                    out.append(&mut d);
                    let mut l = crate::strutil::str_to_chars(" days ago");
                    out.append(&mut l);
                }
                proof {
                    assert(out@ =~= spec_time_since_text(self.time_since_last_check));
                }
                crate::strutil::chars_to_string(&out)
            },
        }
    }

    /// Seconds until the next scheduled check: zero when one is already
    /// due, the remainder of the interval otherwise.
    pub fn time_until_next_check(&self) -> (r: Option<u64>)
        ensures
            self.next_check_due ==> r == Some(0u64),
            !self.next_check_due ==> r == (match self.time_since_last_check {
                Some(e) => Some(
                    (if self.config.check_interval_seconds >= e {
                        (self.config.check_interval_seconds - e) as u64
                    } else {
                        0u64
                    }),
                ),
                None => None,
            }),
    {
        if self.next_check_due {
            return Some(0);
        }
        match self.time_since_last_check {
            Some(e) => Some(self.config.check_interval_seconds.saturating_sub(e)),
            None => None,
        }
    }
}

/// A size in tenths of the given unit, rounded to the nearest tenth
/// (half away from zero), rendered as `whole.tenth`.
pub open spec fn spec_tenths_text(bytes: u64, unit: u64) -> Seq<char>
    recommends
        unit >= 1000,
{
    let tenths = (bytes * 10 + unit / 2) / (unit as int);
    spec_dec(tenths / 10) + "."@ + spec_dec(tenths % 10)
}

/// Renders `bytes / unit` with one decimal digit.
fn push_tenths(out: &mut Vec<char>, bytes: u64, unit: u64)
    requires
        1000 <= unit,
    ensures
        final(out)@ == old(out)@ + spec_tenths_text(bytes, unit),
{
    let scaled: u128 = (bytes as u128) * 10 + (unit / 2) as u128;
    let tenths_wide: u128 = scaled / (unit as u128);
    proof {
        assert(scaled / (unit as u128) <= scaled / 1000) by (nonlinear_arith)
            requires
                unit >= 1000,
                scaled >= 0,
        ;
    }
    let tenths: u64 = tenths_wide as u64;
    let mut d = crate::strutil::dec_chars(tenths / 10);
    out.append(&mut d);
    let mut dot = crate::strutil::str_to_chars(".");
    out.append(&mut dot);
    let mut f = crate::strutil::dec_chars(tenths % 10);
    out.append(&mut f);
    proof {
        assert(final(out)@ =~= old(out)@ + spec_tenths_text(bytes, unit));
    }
}

/// How a byte count reads: gigabytes, megabytes or kilobytes to one
/// decimal (rounded to the nearest tenth), or plain bytes.
pub open spec fn spec_bytes_text(bytes: u64) -> Seq<char> {
    if bytes >= 1000000000 {
        spec_tenths_text(bytes, 1000000000) + " GB"@
    } else if bytes >= 1000000 {
        spec_tenths_text(bytes, 1000000) + " MB"@
    } else if bytes >= 1000 {
        spec_tenths_text(bytes, 1000) + " KB"@
    } else {
        spec_dec(bytes as int) + " B"@
    }
}

/// Renders a byte count human-readably.
pub fn format_bytes_text(bytes: u64) -> (r: String)
    ensures
        r@ == spec_bytes_text(bytes),
{
    let mut out: Vec<char> = Vec::new();
    if bytes >= 1000000000 {
        push_tenths(&mut out, bytes, 1000000000);
        let mut l = crate::strutil::str_to_chars(" GB");
        out.append(&mut l);
    } else if bytes >= 1000000 {
        push_tenths(&mut out, bytes, 1000000);
        let mut l = crate::strutil::str_to_chars(" MB");
        out.append(&mut l);
    } else if bytes >= 1000 {
        push_tenths(&mut out, bytes, 1000);
        let mut l = crate::strutil::str_to_chars(" KB");
        out.append(&mut l);
    } else {
        let mut d = crate::strutil::dec_chars(bytes);
        out.append(&mut d);
        let mut l = crate::strutil::str_to_chars(" B");
        out.append(&mut l);
    }
    proof {
        assert(out@ =~= spec_bytes_text(bytes));
    }
    crate::strutil::chars_to_string(&out)
}

/// The outcome of removing stale files.
pub struct CleanupResult {
    pub files_removed: u32,
    pub bytes_freed: u64,
}

/// How a cleanup outcome reads.
pub open spec fn spec_cleanup_text(files_removed: u32, bytes_freed: u64) -> Seq<char> {
    "Cleaned "@ + spec_dec(files_removed as int) + " files, freed "@ + spec_bytes_text(bytes_freed)
}

impl CleanupResult {
    /// The outcome, human readable.
    pub fn format_result(&self) -> (r: String)
        ensures
            r@ == spec_cleanup_text(self.files_removed, self.bytes_freed),
    {
        let mut out: Vec<char> = crate::strutil::str_to_chars("Cleaned ");
        let mut d = crate::strutil::dec_chars(self.files_removed as u64);
        out.append(&mut d);
        let mut mid = crate::strutil::str_to_chars(" files, freed ");
        out.append(&mut mid);
        let b = format_bytes_text(self.bytes_freed);
        let mut bc = crate::strutil::str_to_chars(b.as_str());
        out.append(&mut bc);
        proof {
            assert(out@ =~= spec_cleanup_text(self.files_removed, self.bytes_freed));
        }
        crate::strutil::chars_to_string(&out)
    }
}

} // verus!
