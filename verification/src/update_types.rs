//! Shared types of the self-update subsystem: release data as the
//! release host reports it, the persisted updater state and
//! configuration, and the supported platforms.

use vstd::prelude::*;

verus! {

/// One downloadable file attached to a release.
#[derive(Debug)]
pub struct ReleaseAsset {
    pub name: String,
    pub browser_download_url: String,
    pub size: u64,
    pub content_type: String,
}

impl ReleaseAsset {
    /// A field-for-field copy.
    pub fn duplicate(&self) -> (r: ReleaseAsset)
        ensures
            r == *self,
    {
        ReleaseAsset {
            name: self.name.clone(),
            browser_download_url: self.browser_download_url.clone(),
            size: self.size,
            content_type: self.content_type.clone(),
        }
    }
}

/// A release as the release host reports it.
pub struct GitHubRelease {
    pub tag_name: String,
    pub name: String,
    pub body: String,
    pub published_at: String,
    pub prerelease: bool,
    pub draft: bool,
    pub assets: Vec<ReleaseAsset>,
}

/// An available update, as presented to the user.
pub struct UpdateInfo {
    pub current_version: String,
    pub new_version: String,
    pub release_name: String,
    pub changelog: String,
    pub published_at: String,
    pub is_prerelease: bool,
    pub download_asset: ReleaseAsset,
}

/// A changelog to show for a freshly installed version.
pub struct ChangelogInfo {
    pub version: String,
    pub release_name: String,
    pub changelog: String,
    pub published_at: String,
}

/// What is known about a remote file before downloading it.
pub struct RemoteFileInfo {
    pub url: String,
    pub size: u64,
    pub content_type: String,
    pub last_modified: Option<String>,
}

/// The updater's persisted state.
pub struct UpdateStorage {
    pub current_version: String,
    pub last_checked_version: Option<String>,
    pub last_ignored_version: Option<String>,
    pub show_changelog_for: Option<String>,
    pub last_check_timestamp: u64,
}

impl Default for UpdateStorage {
    /// A fresh state: version zero, nothing checked, ignored or pending.
    fn default() -> (r: UpdateStorage)
        ensures
            r.current_version@ == "0.0.0"@,
            r.last_checked_version is None,
            r.last_ignored_version is None,
            r.show_changelog_for is None,
            r.last_check_timestamp == 0,
    {
        UpdateStorage {
            current_version: "0.0.0".to_owned(),
            last_checked_version: None,
            last_ignored_version: None,
            show_changelog_for: None,
            last_check_timestamp: 0,
        }
    }
}

/// The update-check configuration.
pub struct UpdateConfig {
    pub include_prerelease: bool,
    pub check_interval_seconds: u64,
    pub http_timeout_seconds: u64,
    pub max_retries: u32,
}

impl Default for UpdateConfig {
    /// Pre-releases included, one check per hour, half-minute timeout,
    /// three retries.
    fn default() -> (r: UpdateConfig)
        ensures
            r.include_prerelease,
            r.check_interval_seconds == 3600,
            r.http_timeout_seconds == 30,
            r.max_retries == 3,
    {
        UpdateConfig {
            include_prerelease: true,
            check_interval_seconds: 3600,
            http_timeout_seconds: 30,
            max_retries: 3,
        }
    }
}

/// Which repository the updater watches, and which version is running.
pub struct UpdaterConfig {
    pub repo_owner: String,
    pub repo_name: String,
    pub current_version: String,
}

impl Default for UpdaterConfig {
    /// The application's own release repository and version.
    fn default() -> (r: UpdaterConfig)
        ensures
            r.repo_owner@ == "Gecko129"@,
            r.repo_name@ == "AirShare"@,
            r.current_version@.len() > 0,
    {
        let current_version = "0.1.0".to_owned();
        proof {
            reveal_strlit("0.1.0");
        }
        UpdaterConfig {
            repo_owner: "Gecko129".to_owned(),
            repo_name: "AirShare".to_owned(),
            current_version,
        }
    }
}

/// The platforms update installers exist for.
#[derive(Clone, Copy, PartialEq, Eq, Structural, Debug)]
pub enum Platform {
    MacOSArm64,
    MacOSIntel,
    Windows,
    LinuxX64,
    LinuxArm64,
}

impl Platform {
    /// The file-name patterns that mark an asset as built for this
    /// platform.
    pub fn asset_patterns(&self) -> (r: Vec<&'static str>)
        ensures
            match self {
                Platform::MacOSArm64 => r@.len() == 3 && r@[0]@ == "ARM64.dmg"@ && r@[1]@
                    == "arm64.dmg"@ && r@[2]@ == "aarch64.dmg"@,
                Platform::MacOSIntel => r@.len() == 2 && r@[0]@ == "x86_64.dmg"@ && r@[1]@
                    == "intel.dmg"@,
                Platform::Windows => r@.len() == 3 && r@[0]@ == "-Setup.exe"@ && r@[1]@ == ".exe"@
                    && r@[2]@ == "-windows.exe"@,
                Platform::LinuxX64 => r@.len() == 4 && r@[0]@ == "-Linux.AppImage"@ && r@[1]@
                    == ".deb"@ && r@[2]@ == "-linux.deb"@ && r@[3]@ == "-Linux.deb"@,
                Platform::LinuxArm64 => r@.len() == 3 && r@[0]@ == "-Linux-ARM64.AppImage"@
                    && r@[1]@ == "-Linux-ARM64.deb"@ && r@[2]@ == "-arm64.deb"@,
            },
    {
        let mut v: Vec<&'static str> = Vec::new();
        match self {
            Platform::MacOSArm64 => {
                v.push("ARM64.dmg");
                v.push("arm64.dmg");
                v.push("aarch64.dmg");
            },
            Platform::MacOSIntel => {
                v.push("x86_64.dmg");
                v.push("intel.dmg");
            },
            Platform::Windows => {
                v.push("-Setup.exe");
                v.push(".exe");
                v.push("-windows.exe");
            },
            Platform::LinuxX64 => {
                v.push("-Linux.AppImage");
                v.push(".deb");
                v.push("-linux.deb");
                v.push("-Linux.deb");
            },
            Platform::LinuxArm64 => {
                v.push("-Linux-ARM64.AppImage");
                v.push("-Linux-ARM64.deb");
                v.push("-arm64.deb");
            },
        }
        v
    }

    /// The preferred installer file extension for this platform.
    pub fn installer_extension(&self) -> (r: &'static str)
        ensures
            match self {
                Platform::MacOSArm64 | Platform::MacOSIntel => r@ == ".dmg"@,
                Platform::Windows => r@ == ".exe"@,
                Platform::LinuxX64 | Platform::LinuxArm64 => r@ == ".AppImage"@,
            },
    {
        match self {
            Platform::MacOSArm64 | Platform::MacOSIntel => ".dmg",
            Platform::Windows => ".exe",
            Platform::LinuxX64 | Platform::LinuxArm64 => ".AppImage",
        }
    }

    /// The platform's human-readable name.
    pub fn display_name(&self) -> (r: &'static str)
        ensures
            match self {
                Platform::MacOSArm64 => r@ == "macOS (Apple Silicon)"@,
                Platform::MacOSIntel => r@ == "macOS (Intel)"@,
                Platform::Windows => r@ == "Windows"@,
                Platform::LinuxX64 => r@ == "Linux (x64)"@,
                Platform::LinuxArm64 => r@ == "Linux (ARM64)"@,
            },
    {
        match self {
            Platform::MacOSArm64 => "macOS (Apple Silicon)",
            Platform::MacOSIntel => "macOS (Intel)",
            Platform::Windows => "Windows",
            Platform::LinuxX64 => "Linux (x64)",
            Platform::LinuxArm64 => "Linux (ARM64)",
        }
    }
}

} // verus!
