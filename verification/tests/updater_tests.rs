use airshare::installer::Installer;
use airshare::platform::{PlatformDetector, PlatformError, PlatformInfo};
use airshare::update_storage::{CleanupResult, StorageManager, UpdateStats};
use airshare::update_types::{
    GitHubRelease, Platform, ReleaseAsset, UpdateConfig, UpdateStorage, UpdaterConfig,
};
use airshare::version::{UpdateType, VersionManager};

fn create_test_assets() -> Vec<ReleaseAsset> {
    vec![
        ReleaseAsset {
            name: "AirShare-ARM64.dmg".to_string(),
            browser_download_url: "https://example.com/arm64.dmg".to_string(),
            size: 5_000_000,
            content_type: "application/x-diskcopy".to_string(),
        },
        ReleaseAsset {
            name: "AirShare-x86_64.dmg".to_string(),
            browser_download_url: "https://example.com/x64.dmg".to_string(),
            size: 5_200_000,
            content_type: "application/x-diskcopy".to_string(),
        },
        ReleaseAsset {
            name: "AirShare-Setup.exe".to_string(),
            browser_download_url: "https://example.com/setup.exe".to_string(),
            size: 3_000_000,
            content_type: "application/x-msdownload".to_string(),
        },
        ReleaseAsset {
            name: "AirShare-Linux.AppImage".to_string(),
            browser_download_url: "https://example.com/linux.AppImage".to_string(),
            size: 80_000_000,
            content_type: "application/octet-stream".to_string(),
        },
    ]
}

#[test]
fn test_installer_creation() {
    let installer = Installer::new("linux", "x86_64");
    assert!(installer.is_ok());
}

#[test]
fn test_installer_config() {
    let installer = Installer::new("linux", "x86_64").unwrap().with_backup(false);
    assert!(!installer.backup_enabled);
}

#[test]
fn test_backup_info_format() {
    let backup_info = airshare::installer::BackupInfo {
        backup_path: "backup".to_string(),
        original_path: "original".to_string(),
        created_at: 1_700_000_000,
    };

    let info = backup_info.format_info();
    assert!(info.contains("Backup:"));
    assert!(info.contains("Original:"));
    assert!(info.contains("Created:"));
}

#[test]
fn test_config_default() {
    let config = UpdaterConfig::default();
    assert_eq!(config.repo_owner, "Gecko129");
    assert_eq!(config.repo_name, "AirShare");
    assert!(!config.current_version.is_empty());
}

#[test]
fn test_platform_patterns() {
    let macos_arm = Platform::MacOSArm64;
    assert!(macos_arm.asset_patterns().contains(&"ARM64.dmg"));

    let windows = Platform::Windows;
    assert!(windows.asset_patterns().contains(&"-Setup.exe"));
}

#[test]
fn test_asset_selection_macos_arm() {
    let assets = create_test_assets();
    let result = PlatformDetector::select_asset_for_platform(Platform::MacOSArm64, &assets);

    assert!(result.is_ok());
    let asset = result.unwrap();
    assert!(asset.name.contains("ARM64"));
    assert!(asset.name.ends_with(".dmg"));
}

#[test]
fn test_asset_selection_macos_intel() {
    let assets = create_test_assets();
    let result = PlatformDetector::select_asset_for_platform(Platform::MacOSIntel, &assets);

    assert!(result.is_ok());
    let asset = result.unwrap();
    assert!(asset.name.contains("x86_64"));
    assert!(asset.name.ends_with(".dmg"));
}

#[test]
fn test_asset_selection_windows() {
    let assets = create_test_assets();
    let result = PlatformDetector::select_asset_for_platform(Platform::Windows, &assets);

    assert!(result.is_ok());
    let asset = result.unwrap();
    assert!(asset.name.ends_with(".exe"));
}

#[test]
fn test_asset_selection_linux() {
    let assets = create_test_assets();
    let result = PlatformDetector::select_asset_for_platform(Platform::LinuxX64, &assets);

    assert!(result.is_ok());
    let asset = result.unwrap();
    assert!(asset.name.contains("Linux"));
    assert!(asset.name.ends_with(".AppImage"));
}

#[test]
fn test_no_compatible_assets() {
    let empty_assets = vec![];
    let result = PlatformDetector::select_asset_for_platform(Platform::Windows, &empty_assets);

    assert!(result.is_err());
    assert!(matches!(result.unwrap_err(), PlatformError::NoCompatibleAsset(_)));
}

#[test]
fn test_asset_validation() {
    let valid_asset = ReleaseAsset {
        name: "AirShare-ARM64.dmg".to_string(),
        browser_download_url: "https://example.com/test.dmg".to_string(),
        size: 5_000_000,
        content_type: "application/x-diskcopy".to_string(),
    };

    let invalid_asset = ReleaseAsset {
        name: "AirShare-ARM64.dmg".to_string(),
        browser_download_url: "https://example.com/test.dmg".to_string(),
        size: 100,
        content_type: "application/x-diskcopy".to_string(),
    };

    assert!(PlatformDetector::validate_asset_for_platform(&valid_asset, Platform::MacOSArm64));
    assert!(!PlatformDetector::validate_asset_for_platform(&invalid_asset, Platform::MacOSArm64));
}

#[test]
fn test_missing_asset_suggestions() {
    let incomplete_assets = vec![
        ReleaseAsset {
            name: "AirShare-Setup.exe".to_string(),
            browser_download_url: "https://example.com/setup.exe".to_string(),
            size: 3_000_000,
            content_type: "application/x-msdownload".to_string(),
        },
    ];

    let suggestions = PlatformDetector::get_missing_asset_suggestions(&incomplete_assets);
    assert!(!suggestions.is_empty());

    assert!(suggestions.iter().any(|s| s.contains("macOS")));
    assert!(suggestions.iter().any(|s| s.contains("Linux")));
}

#[test]
fn test_platform_info_description() {
    let info = PlatformInfo {
        os: "linux".to_string(),
        arch: "x86_64".to_string(),
        family: "unix".to_string(),
        platform: Some(Platform::LinuxX64),
        supported_extensions: vec![],
    };
    assert!(info.is_supported());
    assert_eq!(info.description(), "Linux (x64) (x86_64)");

    let unknown = PlatformInfo {
        os: "plan9".to_string(),
        arch: "mips".to_string(),
        family: "other".to_string(),
        platform: None,
        supported_extensions: vec![],
    };
    assert!(!unknown.is_supported());
    assert_eq!(unknown.description(), "Unsupported: plan9-mips");
}

#[test]
fn storage_test_format_functions() {
    let stats = UpdateStats {
        last_check_timestamp: 1000,
        time_since_last_check: Some(3661),
        next_check_due: false,
        has_ignored_version: false,
        has_pending_changelog: true,
        current_version: "1.0.0".to_string(),
        config: UpdateConfig::default(),
    };

    let formatted = stats.format_time_since_check();
    assert!(formatted.contains("1 hours ago"));

    let cleanup = CleanupResult { files_removed: 5, bytes_freed: 1_500_000 };

    let formatted = cleanup.format_result();
    assert!(formatted.contains("5 files"));
    assert!(formatted.contains("1.5 MB"));
}

#[test]
fn test_storage_paths() {
    let m = StorageManager::with_custom_directory("/tmp/updater-test".to_string());
    assert_eq!(m.state_file_path(), "/tmp/updater-test/updater_state.json");
    assert_eq!(m.config_file_path(), "/tmp/updater-test/updater_config.json");
    assert_eq!(m.storage_directory(), "/tmp/updater-test");
}

#[test]
fn test_validate_state_values() {
    let mut state = UpdateStorage::default();
    state.current_version = "1.2.3".to_string();
    state.last_check_timestamp = 100;
    assert!(StorageManager::validate_state_at(&state, 1000).is_ok());

    state.current_version = String::new();
    assert!(StorageManager::validate_state_at(&state, 1000).is_err());

    state.current_version = "1.2.3".to_string();
    state.last_check_timestamp = 1000 + 86401;
    assert!(StorageManager::validate_state_at(&state, 1000).is_err());
}

#[test]
fn test_stats_from_state() {
    let mut state = UpdateStorage::default();
    state.current_version = "1.0.0".to_string();
    state.last_check_timestamp = 5_000;
    state.show_changelog_for = Some("1.1.0".to_string());

    let stats = StorageManager::get_stats_at(state, UpdateConfig::default(), 5_100);
    assert_eq!(stats.current_version, "1.0.0");
    assert_eq!(stats.time_since_last_check, Some(100));
    assert!(!stats.next_check_due);
    assert!(stats.has_pending_changelog);
    assert!(!stats.has_ignored_version);

    let mut never = UpdateStorage::default();
    never.current_version = "1.0.0".to_string();
    let stats = StorageManager::get_stats_at(never, UpdateConfig::default(), 5_100);
    assert_eq!(stats.time_since_last_check, None);
    assert!(stats.next_check_due);
}

#[test]
fn test_time_until_next_check() {
    let stats = UpdateStats {
        last_check_timestamp: 1000,
        time_since_last_check: Some(1200),
        next_check_due: false,
        has_ignored_version: false,
        has_pending_changelog: false,
        current_version: "1.0.0".to_string(),
        config: UpdateConfig::default(),
    };
    assert_eq!(stats.time_until_next_check(), Some(2400));
}

#[test]
fn test_normalize_version() {
    assert_eq!(VersionManager::normalize_version("v1.2.3"), "1.2.3");
    assert_eq!(VersionManager::normalize_version("1.2.3-beta"), "1.2.3-beta.1");
    assert_eq!(VersionManager::normalize_version("v0.3.2-beta"), "0.3.2-beta.1");
    assert_eq!(VersionManager::normalize_version("2.0.0"), "2.0.0");
}

#[test]
fn test_version_comparison() {
    assert!(VersionManager::is_newer_version("1.0.0", "1.0.1").unwrap());
    assert!(VersionManager::is_newer_version("1.0.0", "1.1.0").unwrap());
    assert!(VersionManager::is_newer_version("1.0.0", "2.0.0").unwrap());
    assert!(!VersionManager::is_newer_version("1.0.1", "1.0.0").unwrap());
    assert!(!VersionManager::is_newer_version("1.0.0", "1.0.0").unwrap());
}

#[test]
fn test_prerelease_versions() {
    assert!(VersionManager::is_newer_version("1.0.0-beta.1", "1.0.0").unwrap());
    assert!(VersionManager::is_newer_version("1.0.0", "1.0.1-beta.1").unwrap());
    assert!(!VersionManager::is_newer_version("1.0.0", "1.0.0-beta.1").unwrap());
}

#[test]
fn test_compare_versions_ordering() {
    assert_eq!(
        VersionManager::compare_versions("1.0.0", "1.0.1").unwrap(),
        std::cmp::Ordering::Greater
    );
    assert_eq!(
        VersionManager::compare_versions("1.0.1", "1.0.0").unwrap(),
        std::cmp::Ordering::Less
    );
    assert_eq!(
        VersionManager::compare_versions("1.0.0", "1.0.0").unwrap(),
        std::cmp::Ordering::Equal
    );
}

#[test]
fn test_prerelease_identifier_order() {
    // Numeric identifiers compare numerically, and rank below
    // alphanumeric ones; a shorter identifier list ranks lower.
    assert!(VersionManager::is_newer_version("1.0.0-beta.2", "1.0.0-beta.10").unwrap());
    assert!(VersionManager::is_newer_version("1.0.0-beta.2", "1.0.0-beta.alpha").unwrap());
    assert!(VersionManager::is_newer_version("1.0.0-alpha.1", "1.0.0-alpha.1.1").unwrap());
    assert!(VersionManager::is_newer_version("1.0.0-alpha.1", "1.0.0-beta.1").unwrap());
}

#[test]
fn test_is_compatible_version() {
    assert!(VersionManager::is_compatible_version("1.0.0", "1.9.9").unwrap());
    assert!(!VersionManager::is_compatible_version("1.0.0", "2.0.0").unwrap());
}

#[test]
fn test_invalid_version_rejected() {
    assert!(VersionManager::is_newer_version("not a version", "1.0.0").is_err());
    assert!(VersionManager::parse_version("").is_err());
}

#[test]
fn test_version_info() {
    let info = VersionManager::get_version_info("v1.2.3-beta").unwrap();
    assert_eq!(info.major, 1);
    assert_eq!(info.minor, 2);
    assert_eq!(info.patch, 3);
    assert!(info.is_prerelease);
    assert!(!info.is_stable);
}

#[test]
fn test_display_version() {
    let info = VersionManager::get_version_info("v1.2.3-beta").unwrap();
    assert_eq!(info.display_version(), "v1.2.3-beta.1");
    let stable = VersionManager::get_version_info("2.0.0").unwrap();
    assert_eq!(stable.display_version(), "v2.0.0");
}

#[test]
fn test_should_offer_update() {
    let mut storage = UpdateStorage::default();
    let release = GitHubRelease {
        tag_name: "v1.1.0".to_string(),
        name: "Test Release".to_string(),
        body: "Test body".to_string(),
        published_at: "2023-01-01T00:00:00Z".to_string(),
        prerelease: false,
        draft: false,
        assets: vec![],
    };

    assert!(VersionManager::should_offer_update("1.0.0", &release, &storage).unwrap());

    storage.last_ignored_version = Some("v1.1.0".to_string());
    assert!(!VersionManager::should_offer_update("1.0.0", &release, &storage).unwrap());
}

#[test]
fn test_should_offer_update_hourly() {
    let mut storage = UpdateStorage::default();
    storage.last_checked_version = Some("v1.1.0".to_string());
    storage.last_check_timestamp = 10_000;
    let release = GitHubRelease {
        tag_name: "v1.1.0".to_string(),
        name: "r".to_string(),
        body: String::new(),
        published_at: String::new(),
        prerelease: false,
        draft: false,
        assets: vec![],
    };
    // Seen at the last check less than an hour ago: not offered again.
    assert!(
        !VersionManager::should_offer_update_at("1.0.0", &release, &storage, 10_000 + 3599)
            .unwrap()
    );
    // More than an hour later it is offered again.
    assert!(
        VersionManager::should_offer_update_at("1.0.0", &release, &storage, 10_000 + 3600)
            .unwrap()
    );
}

#[test]
fn test_update_type() {
    let v1 = VersionManager::get_version_info("1.0.0").unwrap();
    let v2_major = VersionManager::get_version_info("2.0.0").unwrap();
    let v2_minor = VersionManager::get_version_info("1.1.0").unwrap();
    let v2_patch = VersionManager::get_version_info("1.0.1").unwrap();

    assert_eq!(v1.update_type(&v2_major), UpdateType::Major);
    assert_eq!(v1.update_type(&v2_minor), UpdateType::Minor);
    assert_eq!(v1.update_type(&v2_patch), UpdateType::Patch);
}

#[test]
fn test_generate_version_diff() {
    let diff = VersionManager::generate_version_diff("1.0.0", "2.1.0").unwrap();
    assert!(diff.contains("Major update: 1 \u{2192} 2"));
    assert!(diff.contains("Minor update: 0 \u{2192} 1"));

    let none = VersionManager::generate_version_diff("1.0.0", "1.0.0").unwrap();
    assert_eq!(none, "Version update");

    let stable = VersionManager::generate_version_diff("1.0.0-beta", "1.0.0").unwrap();
    assert!(stable.contains("Upgraded to stable release"));
}

#[test]
fn test_update_type_description() {
    assert!(UpdateType::Major.description().contains("breaking"));
    assert!(UpdateType::Patch.description().contains("bug fixes"));
    assert!(!UpdateType::Minor.icon().is_empty());
}

#[test]
fn test_installer_detect_platform() {
    assert!(matches!(Installer::detect_platform("macos", "aarch64"), Ok(Platform::MacOSArm64)));
    assert!(matches!(Installer::detect_platform("windows", "x86_64"), Ok(Platform::Windows)));
    assert!(Installer::detect_platform("plan9", "mips").is_err());
}

#[test]
fn test_installation_result_format() {
    let result = airshare::installer::InstallationResult {
        installed_path: "/opt/app".to_string(),
        backup_info: None,
        platform: Platform::LinuxX64,
        installation_time: 1_700_000_000,
    };
    let info = result.format_info();
    assert!(info.contains("Installed to: /opt/app"));
    assert!(info.contains("Linux"));
}
