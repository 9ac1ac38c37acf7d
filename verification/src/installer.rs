//! Installer bookkeeping: which platform an installer run is for,
//! whether a backup is taken first, and how results and backups are
//! described. The platform-specific installation steps themselves run
//! external programs and live at the application edge.

use vstd::prelude::*;
use crate::platform::{spec_display_name, PlatformDetector};
use crate::strutil::spec_dec;
use crate::update_types::Platform;

verus! {

/// Why an installation step failed.
#[derive(Debug)]
pub enum InstallerError {
    /// The installation itself failed, described.
    InstallationFailed(String),
    /// No installer flow exists for this platform.
    UnsupportedPlatform(Platform),
    /// A needed file is missing.
    FileNotFound(String),
    /// A permission problem, described.
    PermissionDenied(String),
    /// A helper process failed, described.
    ProcessFailed(String),
    /// The installed result did not validate, described.
    ValidationFailed(String),
    /// The backup could not be taken or used, described.
    BackupFailed(String),
}

/// Runs (and describes) the installation of a downloaded update.
pub struct Installer {
    pub platform: Platform,
    pub backup_enabled: bool,
}

impl Installer {
    /// An installer for the platform the given operating system and
    /// architecture name; backups are taken unless switched off.
    pub fn new(os: &str, arch: &str) -> (r: Result<Installer, InstallerError>)
        ensures
            match r {
                Ok(i) => PlatformDetector::spec_detect(os@, arch@) == Some(i.platform)
                    && i.backup_enabled,
                Err(_) => PlatformDetector::spec_detect(os@, arch@) is None,
            },
    {
        match Self::detect_platform(os, arch) {
            Ok(platform) => Ok(Installer { platform, backup_enabled: true }),
            Err(e) => Err(e),
        }
    }

    /// The same installer with backups switched on or off.
    pub fn with_backup(self, enabled: bool) -> (r: Installer)
        ensures
            r.platform == self.platform,
            r.backup_enabled == enabled,
    {
        Installer { platform: self.platform, backup_enabled: enabled }
    }

    /// The platform for an operating system and architecture pair.
    pub fn detect_platform(os: &str, arch: &str) -> (r: Result<Platform, InstallerError>)
        ensures
            match r {
                Ok(p) => PlatformDetector::spec_detect(os@, arch@) == Some(p),
                Err(_) => PlatformDetector::spec_detect(os@, arch@) is None,
            },
    {
        match PlatformDetector::detect_current_platform(os, arch) {
            Ok(p) => Ok(p),
            Err(_) => Err(InstallerError::UnsupportedPlatform(Platform::MacOSArm64)),
        }
    }
}

/// Where an update was installed, with the backup taken before it.
/// `installation_time` is Unix seconds.
pub struct InstallationResult {
    pub installed_path: String,
    pub backup_info: Option<BackupInfo>,
    pub platform: Platform,
    pub installation_time: u64,
}

/// How an installation result reads.
pub open spec fn spec_installation_text(path: Seq<char>, p: Platform, time: u64) -> Seq<char> {
    "Installed to: "@ + path + "\nPlatform: "@ + spec_display_name(p) + "\nTime: "@ + spec_dec(
        time as int,
    )
}

impl InstallationResult {
    /// Describes the installation: its path, platform and time.
    pub fn format_info(&self) -> (r: String)
        ensures
            r@ == spec_installation_text(
                self.installed_path@,
                self.platform,
                self.installation_time,
            ),
    {
        let mut out: Vec<char> = crate::strutil::str_to_chars("Installed to: ");
        let mut p = crate::strutil::str_to_chars(self.installed_path.as_str());
        out.append(&mut p);
        let mut l1 = crate::strutil::str_to_chars("\nPlatform: ");
        out.append(&mut l1);
        let mut dn = crate::strutil::str_to_chars(self.platform.display_name());
        out.append(&mut dn);
        let mut l2 = crate::strutil::str_to_chars("\nTime: ");
        out.append(&mut l2);
        let mut t = crate::strutil::dec_chars(self.installation_time);
        out.append(&mut t);
        proof {
            assert(out@ =~= spec_installation_text(
                self.installed_path@,
                self.platform,
                self.installation_time,
            ));
        }
        crate::strutil::chars_to_string(&out)
    }
}

/// A backup taken before installing. `created_at` is Unix seconds.
pub struct BackupInfo {
    pub backup_path: String,
    pub original_path: String,
    pub created_at: u64,
}

/// How a backup reads.
pub open spec fn spec_backup_text(backup: Seq<char>, original: Seq<char>, created: u64) -> Seq<
    char,
> {
    "Backup: "@ + backup + "\nOriginal: "@ + original + "\nCreated: "@ + spec_dec(created as int)
}

impl BackupInfo {
    /// Describes the backup: where it is, what it replaces, and when it
    /// was taken.
    pub fn format_info(&self) -> (r: String)
        ensures
            r@ == spec_backup_text(self.backup_path@, self.original_path@, self.created_at),
    {
        let mut out: Vec<char> = crate::strutil::str_to_chars("Backup: ");
        let mut b = crate::strutil::str_to_chars(self.backup_path.as_str());
        out.append(&mut b);
        let mut l1 = crate::strutil::str_to_chars("\nOriginal: ");
        out.append(&mut l1);
        let mut o = crate::strutil::str_to_chars(self.original_path.as_str());
        out.append(&mut o);
        let mut l2 = crate::strutil::str_to_chars("\nCreated: ");
        out.append(&mut l2);
        let mut c = crate::strutil::dec_chars(self.created_at);
        out.append(&mut c);
        proof {
            assert(out@ =~= spec_backup_text(
                self.backup_path@,
                self.original_path@,
                self.created_at,
            ));
        }
        crate::strutil::chars_to_string(&out)
    }
}

} // verus!
