//! Platform detection and release-asset selection: which of a release's
//! attached files is the right installer for a given platform.

use vstd::prelude::*;
use crate::strutil::{spec_contains, spec_ends_with, spec_lower};
use crate::update_types::{Platform, ReleaseAsset};

verus! {

/// The platform's display name, as `display_name` renders it.
pub open spec fn spec_display_name(p: Platform) -> Seq<char> {
    match p {
        Platform::MacOSArm64 => "macOS (Apple Silicon)"@,
        Platform::MacOSIntel => "macOS (Intel)"@,
        Platform::Windows => "Windows"@,
        Platform::LinuxX64 => "Linux (x64)"@,
        Platform::LinuxArm64 => "Linux (ARM64)"@,
    }
}

/// Why no asset could be selected.
#[derive(Debug)]
pub enum PlatformError {
    /// The operating system / architecture pair is not supported.
    UnsupportedPlatform(String),
    /// No attached file fits the platform.
    NoCompatibleAsset(Platform),
    /// Several equally plausible files and no way to choose.
    MultipleAssetsFound,
    /// A file looked right but failed validation.
    AssetValidationFailed(String),
}

/// Selects installers out of release assets.
pub struct PlatformDetector {
}

impl PlatformDetector {
    /// The platform for an operating system and architecture, as the
    /// compiler names them.
    pub open spec fn spec_detect(os: Seq<char>, arch: Seq<char>) -> Option<Platform> {
        if os == "macos"@ && arch == "aarch64"@ {
            Some(Platform::MacOSArm64)
        } else if os == "macos"@ && arch == "x86_64"@ {
            Some(Platform::MacOSIntel)
        } else if os == "windows"@ {
            Some(Platform::Windows)
        } else if os == "linux"@ && arch == "x86_64"@ {
            Some(Platform::LinuxX64)
        } else if os == "linux"@ && arch == "aarch64"@ {
            Some(Platform::LinuxArm64)
        } else {
            None
        }
    }

    /// Detects the platform from the operating system and architecture
    /// names; both macOS and Linux are split by architecture, Windows is
    /// one platform for all of them.
    pub fn detect_current_platform(os: &str, arch: &str) -> (r: Result<Platform, PlatformError>)
        ensures
            match r {
                Ok(p) => Self::spec_detect(os@, arch@) == Some(p),
                Err(_) => Self::spec_detect(os@, arch@) is None,
            },
    {
        let is_macos = crate::strutil::str_eq(os, "macos");
        let is_linux = crate::strutil::str_eq(os, "linux");
        let is_windows = crate::strutil::str_eq(os, "windows");
        let is_aarch64 = crate::strutil::str_eq(arch, "aarch64");
        let is_x86_64 = crate::strutil::str_eq(arch, "x86_64");
        if is_macos && is_aarch64 {
            Ok(Platform::MacOSArm64)
        } else if is_macos && is_x86_64 {
            Ok(Platform::MacOSIntel)
        } else if is_windows {
            Ok(Platform::Windows)
        } else if is_linux && is_x86_64 {
            Ok(Platform::LinuxX64)
        } else if is_linux && is_aarch64 {
            Ok(Platform::LinuxArm64)
        } else {
            let mut msg: Vec<char> = crate::strutil::str_to_chars(os);
            msg.push('-');
            let mut ar = crate::strutil::str_to_chars(arch);
            msg.append(&mut ar);
            Err(PlatformError::UnsupportedPlatform(crate::strutil::chars_to_string(&msg)))
        }
    }

    /// Whether an asset's name matches one of the platform's file-name
    /// patterns (case-sensitive, as published).
    pub open spec fn spec_matches_pattern(p: Platform, name: Seq<char>) -> bool {
        match p {
            Platform::MacOSArm64 => spec_contains(name, "ARM64.dmg"@) || spec_contains(
                name,
                "arm64.dmg"@,
            ) || spec_contains(name, "aarch64.dmg"@),
            Platform::MacOSIntel => spec_contains(name, "x86_64.dmg"@) || spec_contains(
                name,
                "intel.dmg"@,
            ),
            Platform::Windows => spec_contains(name, "-Setup.exe"@) || spec_contains(
                name,
                ".exe"@,
            ) || spec_contains(name, "-windows.exe"@),
            Platform::LinuxX64 => spec_contains(name, "-Linux.AppImage"@) || spec_contains(
                name,
                ".deb"@,
            ) || spec_contains(name, "-linux.deb"@) || spec_contains(name, "-Linux.deb"@),
            Platform::LinuxArm64 => spec_contains(name, "-Linux-ARM64.AppImage"@)
                || spec_contains(name, "-Linux-ARM64.deb"@) || spec_contains(name, "-arm64.deb"@),
        }
    }

    fn matches_pattern(p: &Platform, name: &[char]) -> (r: bool)
        ensures
            r == Self::spec_matches_pattern(*p, name@),
    {
        match p {
            Platform::MacOSArm64 => {
                let a = crate::strutil::str_to_chars("ARM64.dmg");
                let b = crate::strutil::str_to_chars("arm64.dmg");
                let c = crate::strutil::str_to_chars("aarch64.dmg");
                crate::strutil::chars_contain(name, a.as_slice()) || crate::strutil::chars_contain(
                    name,
                    b.as_slice(),
                ) || crate::strutil::chars_contain(name, c.as_slice())
            },
            Platform::MacOSIntel => {
                let a = crate::strutil::str_to_chars("x86_64.dmg");
                let b = crate::strutil::str_to_chars("intel.dmg");
                crate::strutil::chars_contain(name, a.as_slice()) || crate::strutil::chars_contain(
                    name,
                    b.as_slice(),
                )
            },
            Platform::Windows => {
                let a = crate::strutil::str_to_chars("-Setup.exe");
                let b = crate::strutil::str_to_chars(".exe");
                let c = crate::strutil::str_to_chars("-windows.exe");
                crate::strutil::chars_contain(name, a.as_slice()) || crate::strutil::chars_contain(
                    name,
                    b.as_slice(),
                ) || crate::strutil::chars_contain(name, c.as_slice())
            },
            Platform::LinuxX64 => {
                let a = crate::strutil::str_to_chars("-Linux.AppImage");
                let b = crate::strutil::str_to_chars(".deb");
                let c = crate::strutil::str_to_chars("-linux.deb");
                let d = crate::strutil::str_to_chars("-Linux.deb");
                crate::strutil::chars_contain(name, a.as_slice()) || crate::strutil::chars_contain(
                    name,
                    b.as_slice(),
                ) || crate::strutil::chars_contain(name, c.as_slice())
                    || crate::strutil::chars_contain(name, d.as_slice())
            },
            Platform::LinuxArm64 => {
                let a = crate::strutil::str_to_chars("-Linux-ARM64.AppImage");
                let b = crate::strutil::str_to_chars("-Linux-ARM64.deb");
                let c = crate::strutil::str_to_chars("-arm64.deb");
                crate::strutil::chars_contain(name, a.as_slice()) || crate::strutil::chars_contain(
                    name,
                    b.as_slice(),
                ) || crate::strutil::chars_contain(name, c.as_slice())
            },
        }
    }

    /// Whether an asset truly fits the platform: the expected installer
    /// extension (case folded), a plausible size (at least a megabyte),
    /// and the architecture named right — for one architecture and not
    /// the other where both exist.
    pub open spec fn spec_validates(p: Platform, name_raw: Seq<char>, size: u64) -> bool {
        let name = spec_lower(name_raw);
        &&& match p {
            Platform::MacOSArm64 | Platform::MacOSIntel => spec_ends_with(name, ".dmg"@),
            Platform::Windows => spec_ends_with(name, ".exe"@),
            Platform::LinuxX64 | Platform::LinuxArm64 => spec_ends_with(name, ".appimage"@),
        }
        &&& size >= 1000000
        &&& match p {
            Platform::MacOSArm64 => (spec_contains(name, "arm64"@) || spec_contains(
                name,
                "aarch64"@,
            )) && !spec_contains(name, "x86_64"@) && !spec_contains(name, "intel"@),
            Platform::MacOSIntel => (spec_contains(name, "x86_64"@) || spec_contains(
                name,
                "intel"@,
            )) && !spec_contains(name, "arm64"@) && !spec_contains(name, "aarch64"@),
            Platform::Windows => spec_contains(name, "setup"@) || spec_contains(name, "install"@)
                || spec_contains(name, "windows"@),
            Platform::LinuxX64 => spec_contains(name, "linux"@) && !spec_contains(name, "arm64"@)
                && !spec_contains(name, "aarch64"@),
            Platform::LinuxArm64 => spec_contains(name, "linux"@) && (spec_contains(
                name,
                "arm64"@,
            ) || spec_contains(name, "aarch64"@)),
        }
    }

    /// Validates an asset for a platform.
    pub fn validate_asset_for_platform(asset: &ReleaseAsset, platform: Platform) -> (r: bool)
        ensures
            r == Self::spec_validates(platform, asset.name@, asset.size),
    {
        let raw = crate::strutil::str_to_chars(asset.name.as_str());
        let name = crate::strutil::lower_chars(raw.as_slice());
        let ext_ok = match platform {
            Platform::MacOSArm64 | Platform::MacOSIntel => {
                let e = crate::strutil::str_to_chars(".dmg");
                crate::strutil::chars_end_with(name.as_slice(), e.as_slice())
            },
            Platform::Windows => {
                let e = crate::strutil::str_to_chars(".exe");
                crate::strutil::chars_end_with(name.as_slice(), e.as_slice())
            },
            Platform::LinuxX64 | Platform::LinuxArm64 => {
                let e = crate::strutil::str_to_chars(".appimage");
                crate::strutil::chars_end_with(name.as_slice(), e.as_slice())
            },
        };
        if !ext_ok {
            return false;
        }
        if asset.size < 1000000 {
            return false;
        }
        let arm64 = crate::strutil::str_to_chars("arm64");
        let aarch64 = crate::strutil::str_to_chars("aarch64");
        let x86 = crate::strutil::str_to_chars("x86_64");
        let intel = crate::strutil::str_to_chars("intel");
        let linux = crate::strutil::str_to_chars("linux");
        match platform {
            Platform::MacOSArm64 => (crate::strutil::chars_contain(name.as_slice(), arm64.as_slice())
                || crate::strutil::chars_contain(name.as_slice(), aarch64.as_slice()))
                && !crate::strutil::chars_contain(name.as_slice(), x86.as_slice())
                && !crate::strutil::chars_contain(name.as_slice(), intel.as_slice()),
            Platform::MacOSIntel => (crate::strutil::chars_contain(name.as_slice(), x86.as_slice())
                || crate::strutil::chars_contain(name.as_slice(), intel.as_slice()))
                && !crate::strutil::chars_contain(name.as_slice(), arm64.as_slice())
                && !crate::strutil::chars_contain(name.as_slice(), aarch64.as_slice()),
            Platform::Windows => {
                let setup = crate::strutil::str_to_chars("setup");
                let install = crate::strutil::str_to_chars("install");
                let windows = crate::strutil::str_to_chars("windows");
                crate::strutil::chars_contain(name.as_slice(), setup.as_slice())
                    || crate::strutil::chars_contain(name.as_slice(), install.as_slice())
                    || crate::strutil::chars_contain(name.as_slice(), windows.as_slice())
            },
            Platform::LinuxX64 => crate::strutil::chars_contain(name.as_slice(), linux.as_slice())
                && !crate::strutil::chars_contain(name.as_slice(), arm64.as_slice())
                && !crate::strutil::chars_contain(name.as_slice(), aarch64.as_slice()),
            Platform::LinuxArm64 => crate::strutil::chars_contain(name.as_slice(), linux.as_slice())
                && (crate::strutil::chars_contain(name.as_slice(), arm64.as_slice())
                || crate::strutil::chars_contain(name.as_slice(), aarch64.as_slice())),
        }
    }

    /// Whether an asset passes the primary selection: it matches a
    /// file-name pattern and validates.
    pub open spec fn spec_primary(p: Platform, a: ReleaseAsset) -> bool {
        Self::spec_matches_pattern(p, a.name@) && Self::spec_validates(p, a.name@, a.size)
    }

    /// Whether an asset passes the relaxed fallback selection: the right
    /// extension (case folded), and not plainly built for the other
    /// architecture.
    pub open spec fn spec_fallback(p: Platform, a: ReleaseAsset) -> bool {
        let name = spec_lower(a.name@);
        &&& match p {
            Platform::MacOSArm64 | Platform::MacOSIntel => spec_ends_with(name, ".dmg"@),
            Platform::Windows => spec_ends_with(name, ".exe"@),
            Platform::LinuxX64 | Platform::LinuxArm64 => spec_ends_with(name, ".appimage"@),
        }
        &&& match p {
            Platform::MacOSArm64 => !spec_contains(name, "x86_64"@) && !spec_contains(
                name,
                "intel"@,
            ),
            Platform::MacOSIntel => !spec_contains(name, "arm64"@) && !spec_contains(
                name,
                "aarch64"@,
            ),
            Platform::LinuxArm64 => !spec_contains(name, "x86_64"@) && !spec_contains(
                name,
                "amd64"@,
            ),
            _ => true,
        }
    }

    fn is_fallback(p: &Platform, a: &ReleaseAsset) -> (r: bool)
        ensures
            r == Self::spec_fallback(*p, *a),
    {
        let raw = crate::strutil::str_to_chars(a.name.as_str());
        let name = crate::strutil::lower_chars(raw.as_slice());
        let ext_ok = match p {
            Platform::MacOSArm64 | Platform::MacOSIntel => {
                let e = crate::strutil::str_to_chars(".dmg");
                crate::strutil::chars_end_with(name.as_slice(), e.as_slice())
            },
            Platform::Windows => {
                let e = crate::strutil::str_to_chars(".exe");
                crate::strutil::chars_end_with(name.as_slice(), e.as_slice())
            },
            Platform::LinuxX64 | Platform::LinuxArm64 => {
                let e = crate::strutil::str_to_chars(".appimage");
                crate::strutil::chars_end_with(name.as_slice(), e.as_slice())
            },
        };
        if !ext_ok {
            return false;
        }
        match p {
            Platform::MacOSArm64 => {
                let x86 = crate::strutil::str_to_chars("x86_64");
                let intel = crate::strutil::str_to_chars("intel");
                !crate::strutil::chars_contain(name.as_slice(), x86.as_slice())
                    && !crate::strutil::chars_contain(name.as_slice(), intel.as_slice())
            },
            Platform::MacOSIntel => {
                let arm64 = crate::strutil::str_to_chars("arm64");
                let aarch64 = crate::strutil::str_to_chars("aarch64");
                !crate::strutil::chars_contain(name.as_slice(), arm64.as_slice())
                    && !crate::strutil::chars_contain(name.as_slice(), aarch64.as_slice())
            },
            Platform::LinuxArm64 => {
                let x86 = crate::strutil::str_to_chars("x86_64");
                let amd64 = crate::strutil::str_to_chars("amd64");
                !crate::strutil::chars_contain(name.as_slice(), x86.as_slice())
                    && !crate::strutil::chars_contain(name.as_slice(), amd64.as_slice())
            },
            _ => true,
        }
    }

    /// The assets from index `i` on that pass the primary selection, in
    /// order.
    pub open spec fn spec_primary_from(p: Platform, assets: Seq<ReleaseAsset>, i: int) -> Seq<
        ReleaseAsset,
    >
        decreases assets.len() - i when 0 <= i <= assets.len()
    {
        if i >= assets.len() {
            Seq::empty()
        } else {
            (if Self::spec_primary(p, assets[i]) {
                seq![assets[i]]
            } else {
                Seq::empty()
            }) + Self::spec_primary_from(p, assets, i + 1)
        }
    }

    /// The assets from index `i` on that pass the fallback selection, in
    /// order.
    pub open spec fn spec_fallback_from(p: Platform, assets: Seq<ReleaseAsset>, i: int) -> Seq<
        ReleaseAsset,
    >
        decreases assets.len() - i when 0 <= i <= assets.len()
    {
        if i >= assets.len() {
            Seq::empty()
        } else {
            (if Self::spec_fallback(p, assets[i]) {
                seq![assets[i]]
            } else {
                Seq::empty()
            }) + Self::spec_fallback_from(p, assets, i + 1)
        }
    }

    fn primary_assets(p: &Platform, assets: &[ReleaseAsset]) -> (r: Vec<ReleaseAsset>)
        ensures
            r@ == Self::spec_primary_from(*p, assets@, 0),
    {
        let n: usize = assets.len();
        let mut kept: Vec<ReleaseAsset> = Vec::new();
        let mut i: usize = 0;
        while i < n
            invariant
                n == assets@.len(),
                i <= n,
                kept@ + Self::spec_primary_from(*p, assets@, i as int) == Self::spec_primary_from(
                    *p,
                    assets@,
                    0,
                ),
            decreases n - i,
        {
            let matched = Self::matches_pattern(p, crate::strutil::str_to_chars(
                assets[i].name.as_str(),
            ).as_slice());
            if matched && Self::validate_asset_for_platform(&assets[i], *p) {
                kept.push(assets[i].duplicate());
            }
            proof {
                if Self::spec_primary(*p, assets@[i as int]) {
                    assert(kept@ + Self::spec_primary_from(*p, assets@, i + 1)
                        =~= kept@.drop_last() + (seq![assets@[i as int]]
                        + Self::spec_primary_from(*p, assets@, i + 1)));
                }
            }
            i = i + 1;
        }
        kept
    }

    fn fallback_assets(p: &Platform, assets: &[ReleaseAsset]) -> (r: Vec<ReleaseAsset>)
        ensures
            r@ == Self::spec_fallback_from(*p, assets@, 0),
    {
        let n: usize = assets.len();
        let mut kept: Vec<ReleaseAsset> = Vec::new();
        let mut i: usize = 0;
        while i < n
            invariant
                n == assets@.len(),
                i <= n,
                kept@ + Self::spec_fallback_from(*p, assets@, i as int)
                    == Self::spec_fallback_from(*p, assets@, 0),
            decreases n - i,
        {
            if Self::is_fallback(p, &assets[i]) {
                kept.push(assets[i].duplicate());
            }
            proof {
                if Self::spec_fallback(*p, assets@[i as int]) {
                    assert(kept@ + Self::spec_fallback_from(*p, assets@, i + 1)
                        =~= kept@.drop_last() + (seq![assets@[i as int]]
                        + Self::spec_fallback_from(*p, assets@, i + 1)));
                }
            }
            i = i + 1;
        }
        kept
    }

    /// The relaxed candidates for a platform, in release order.
    pub fn find_fallback_assets(platform: Platform, assets: &[ReleaseAsset]) -> (r: Vec<
        ReleaseAsset,
    >)
        ensures
            r@ == Self::spec_fallback_from(platform, assets@, 0),
    {
        Self::fallback_assets(&platform, assets)
    }

    /// The first asset (by position) whose folded name contains the
    /// needle, from index `i` on.
    pub open spec fn spec_first_containing(
        l: Seq<ReleaseAsset>,
        needle: Seq<char>,
        i: int,
    ) -> Option<ReleaseAsset>
        decreases l.len() - i when 0 <= i <= l.len()
    {
        if i >= l.len() {
            None
        } else if spec_contains(spec_lower(l[i].name@), needle) {
            Some(l[i])
        } else {
            Self::spec_first_containing(l, needle, i + 1)
        }
    }

    fn first_containing(l: &Vec<ReleaseAsset>, needle: &str, i: usize) -> (r: Option<ReleaseAsset>)
        requires
            i <= l@.len(),
        ensures
            match r {
                None => Self::spec_first_containing(l@, needle@, i as int) is None,
                Some(a) => Self::spec_first_containing(l@, needle@, i as int) == Some(a),
            },
        decreases l@.len() - i,
    {
        if i >= l.len() {
            None
        } else {
            let raw = crate::strutil::str_to_chars(l[i].name.as_str());
            let name = crate::strutil::lower_chars(raw.as_slice());
            let nd = crate::strutil::str_to_chars(needle);
            if crate::strutil::chars_contain(name.as_slice(), nd.as_slice()) {
                Some(l[i].duplicate())
            } else {
                Self::first_containing(l, needle, i + 1)
            }
        }
    }

    /// The running maximum-by-size fold over the candidates, later
    /// equal-sized candidates replacing earlier ones.
    pub open spec fn spec_size_fold(l: Seq<ReleaseAsset>, i: int, acc: ReleaseAsset) -> ReleaseAsset
        decreases l.len() - i when 0 <= i <= l.len()
    {
        if i >= l.len() {
            acc
        } else {
            Self::spec_size_fold(
                l,
                i + 1,
                if l[i].size >= acc.size {
                    l[i]
                } else {
                    acc
                },
            )
        }
    }

    /// The best of several compatible assets: for Linux an AppImage is
    /// preferred over a package, then the largest file wins (the last
    /// one, among equals).
    pub open spec fn spec_choose_best(p: Platform, l: Seq<ReleaseAsset>) -> ReleaseAsset
        recommends
            l.len() > 0,
    {
        match p {
            Platform::LinuxX64 | Platform::LinuxArm64 => {
                match Self::spec_first_containing(l, ".appimage"@, 0) {
                    Some(a) => a,
                    None => match Self::spec_first_containing(l, ".deb"@, 0) {
                        Some(a) => a,
                        None => Self::spec_size_fold(l, 1, l[0]),
                    },
                }
            },
            _ => Self::spec_size_fold(l, 1, l[0]),
        }
    }

    fn size_fold(l: &Vec<ReleaseAsset>) -> (r: ReleaseAsset)
        requires
            l@.len() > 0,
        ensures
            r == Self::spec_size_fold(l@, 1, l@[0]),
    {
        let n: usize = l.len();
        let mut acc = l[0].duplicate();
        let mut i: usize = 1;
        while i < n
            invariant
                n == l@.len(),
                1 <= i <= n,
                Self::spec_size_fold(l@, i as int, acc) == Self::spec_size_fold(l@, 1, l@[0]),
            decreases n - i,
        {
            if l[i].size >= acc.size {
                acc = l[i].duplicate();
            }
            i = i + 1;
        }
        acc
    }

    fn choose_best_asset(platform: &Platform, l: &Vec<ReleaseAsset>) -> (r: ReleaseAsset)
        requires
            l@.len() > 0,
        ensures
            r == Self::spec_choose_best(*platform, l@),
    {
        let linux = match platform {
            Platform::LinuxX64 | Platform::LinuxArm64 => true,
            _ => false,
        };
        if linux {
            match Self::first_containing(l, ".appimage", 0) {
                Some(a) => a,
                None => match Self::first_containing(l, ".deb", 0) {
                    Some(a) => a,
                    None => Self::size_fold(l),
                },
            }
        } else {
            Self::size_fold(l)
        }
    }

    /// What asset selection concludes for a platform: the primary
    /// candidates (pattern match and validation) if any, else the
    /// relaxed fallback candidates; among several, the platform's best.
    pub open spec fn spec_select(p: Platform, assets: Seq<ReleaseAsset>) -> Option<ReleaseAsset> {
        let primary = Self::spec_primary_from(p, assets, 0);
        let pool = if primary.len() > 0 {
            primary
        } else {
            Self::spec_fallback_from(p, assets, 0)
        };
        if pool.len() == 0 {
            None
        } else if pool.len() == 1 {
            Some(pool[0])
        } else {
            Some(Self::spec_choose_best(p, pool))
        }
    }

    /// Selects the installer asset for a platform, or reports that none
    /// of the attached files fits.
    pub fn select_asset_for_platform(platform: Platform, assets: &[ReleaseAsset]) -> (r: Result<
        ReleaseAsset,
        PlatformError,
    >)
        ensures
            match r {
                Ok(a) => Self::spec_select(platform, assets@) == Some(a),
                Err(_) => Self::spec_select(platform, assets@) is None,
            },
    {
        if assets.len() == 0 {
            proof {
                assert(Self::spec_primary_from(platform, assets@, 0) =~= Seq::<
                    ReleaseAsset,
                >::empty());
                assert(Self::spec_fallback_from(platform, assets@, 0) =~= Seq::<
                    ReleaseAsset,
                >::empty());
            }
            return Err(PlatformError::NoCompatibleAsset(platform));
        }
        let primary = Self::primary_assets(&platform, assets);
        let pool = if primary.len() > 0 {
            primary
        } else {
            Self::fallback_assets(&platform, assets)
        };
        if pool.len() == 0 {
            Err(PlatformError::NoCompatibleAsset(platform))
        } else if pool.len() == 1 {
            Ok(pool[0].duplicate())
        } else {
            Ok(Self::choose_best_asset(&platform, &pool))
        }
    }

    /// Selects the installer for the platform the given operating system
    /// and architecture name.
    pub fn select_current_platform_asset(os: &str, arch: &str, assets: &[ReleaseAsset]) -> (r:
        Result<ReleaseAsset, PlatformError>)
        ensures
            match r {
                Ok(a) => PlatformDetector::spec_detect(os@, arch@) matches Some(p)
                    && Self::spec_select(p, assets@) == Some(a),
                Err(_) => PlatformDetector::spec_detect(os@, arch@) is None || (
                PlatformDetector::spec_detect(os@, arch@) matches Some(p) && Self::spec_select(
                    p,
                    assets@,
                ) is None),
            },
    {
        match Self::detect_current_platform(os, arch) {
            Err(e) => Err(e),
            Ok(p) => Self::select_asset_for_platform(p, assets),
        }
    }

    /// Whether the given operating system and architecture pair is
    /// supported at all.
    pub fn is_platform_supported(os: &str, arch: &str) -> (r: bool)
        ensures
            r == (Self::spec_detect(os@, arch@) is Some),
    {
        match Self::detect_current_platform(os, arch) {
            Ok(_) => true,
            Err(_) => false,
        }
    }

    /// Every platform an installer exists for.
    pub fn supported_platforms() -> (r: Vec<Platform>)
        ensures
            r@ == seq![
                Platform::MacOSArm64,
                Platform::MacOSIntel,
                Platform::Windows,
                Platform::LinuxX64,
                Platform::LinuxArm64,
            ],
    {
        let mut v: Vec<Platform> = Vec::new();
        v.push(Platform::MacOSArm64);
        v.push(Platform::MacOSIntel);
        v.push(Platform::Windows);
        v.push(Platform::LinuxX64);
        v.push(Platform::LinuxArm64);
        proof {
            assert(v@ =~= seq![
                Platform::MacOSArm64,
                Platform::MacOSIntel,
                Platform::Windows,
                Platform::LinuxX64,
                Platform::LinuxArm64,
            ]);
        }
        v
    }

    /// The suggestion line for a platform whose asset is missing.
    pub open spec fn spec_suggestion(p: Platform) -> Seq<char> {
        match p {
            Platform::MacOSArm64
                => "Missing macOS (Apple Silicon) asset. Expected patterns: ARM64.dmg, arm64.dmg, aarch64.dmg"@,
            Platform::MacOSIntel
                => "Missing macOS (Intel) asset. Expected patterns: x86_64.dmg, intel.dmg"@,
            Platform::Windows
                => "Missing Windows asset. Expected patterns: -Setup.exe, .exe, -windows.exe"@,
            Platform::LinuxX64
                => "Missing Linux (x64) asset. Expected patterns: -Linux.AppImage, .deb, -linux.deb, -Linux.deb"@,
            Platform::LinuxArm64
                => "Missing Linux (ARM64) asset. Expected patterns: -Linux-ARM64.AppImage, -Linux-ARM64.deb, -arm64.deb"@,
        }
    }

    fn suggestion_text(p: &Platform) -> (r: &'static str)
        ensures
            r@ == Self::spec_suggestion(*p),
    {
        match p {
            Platform::MacOSArm64
                => "Missing macOS (Apple Silicon) asset. Expected patterns: ARM64.dmg, arm64.dmg, aarch64.dmg",
            Platform::MacOSIntel
                => "Missing macOS (Intel) asset. Expected patterns: x86_64.dmg, intel.dmg",
            Platform::Windows
                => "Missing Windows asset. Expected patterns: -Setup.exe, .exe, -windows.exe",
            Platform::LinuxX64
                => "Missing Linux (x64) asset. Expected patterns: -Linux.AppImage, .deb, -linux.deb, -Linux.deb",
            Platform::LinuxArm64
                => "Missing Linux (ARM64) asset. Expected patterns: -Linux-ARM64.AppImage, -Linux-ARM64.deb, -arm64.deb",
        }
    }

    /// The suggestion lines: one for each supported platform, in
    /// platform order, that none of the given assets covers.
    pub open spec fn spec_suggestions(assets: Seq<ReleaseAsset>) -> Seq<Seq<char>> {
        (if Self::spec_select(Platform::MacOSArm64, assets) is None {
            seq![Self::spec_suggestion(Platform::MacOSArm64)]
        } else {
            Seq::empty()
        }) + (if Self::spec_select(Platform::MacOSIntel, assets) is None {
            seq![Self::spec_suggestion(Platform::MacOSIntel)]
        } else {
            Seq::empty()
        }) + (if Self::spec_select(Platform::Windows, assets) is None {
            seq![Self::spec_suggestion(Platform::Windows)]
        } else {
            Seq::empty()
        }) + (if Self::spec_select(Platform::LinuxX64, assets) is None {
            seq![Self::spec_suggestion(Platform::LinuxX64)]
        } else {
            Seq::empty()
        }) + (if Self::spec_select(Platform::LinuxArm64, assets) is None {
            seq![Self::spec_suggestion(Platform::LinuxArm64)]
        } else {
            Seq::empty()
        })
    }

    fn push_suggestion_if_missing(out: &mut Vec<String>, p: Platform, assets: &[ReleaseAsset])
        ensures
            Seq::new(final(out)@.len(), |k: int| final(out)@[k]@) == Seq::new(
                old(out)@.len(),
                |k: int| old(out)@[k]@,
            ) + (if Self::spec_select(p, assets@) is None {
                seq![Self::spec_suggestion(p)]
            } else {
                Seq::<Seq<char>>::empty()
            }),
    {
        let selected = Self::select_asset_for_platform(p, assets);
        let failed = match &selected {
            Ok(_) => false,
            Err(_) => true,
        };
        if failed {
            out.push(Self::suggestion_text(&p).to_owned());
            proof {
                assert(Seq::new(final(out)@.len(), |k: int| final(out)@[k]@) =~= Seq::new(
                    old(out)@.len(),
                    |k: int| old(out)@[k]@,
                ) + seq![Self::spec_suggestion(p)]);
            }
        } else {
            proof {
                assert(Seq::new(final(out)@.len(), |k: int| final(out)@[k]@) =~= Seq::new(
                    old(out)@.len(),
                    |k: int| old(out)@[k]@,
                ));
            }
        }
    }

    /// One suggestion for each supported platform that none of the
    /// given assets covers, in platform order.
    pub fn get_missing_asset_suggestions(assets: &[ReleaseAsset]) -> (r: Vec<String>)
        ensures
            Seq::new(r@.len(), |k: int| r@[k]@) == Self::spec_suggestions(assets@),
    {
        let mut out: Vec<String> = Vec::new();
        Self::push_suggestion_if_missing(&mut out, Platform::MacOSArm64, assets);
        Self::push_suggestion_if_missing(&mut out, Platform::MacOSIntel, assets);
        Self::push_suggestion_if_missing(&mut out, Platform::Windows, assets);
        Self::push_suggestion_if_missing(&mut out, Platform::LinuxX64, assets);
        Self::push_suggestion_if_missing(&mut out, Platform::LinuxArm64, assets);
        proof {
            assert(Seq::new(out@.len(), |k: int| out@[k]@) =~= Self::spec_suggestions(assets@));
        }
        out
    }
}

/// What is known about the platform the process runs on.
pub struct PlatformInfo {
    pub os: String,
    pub arch: String,
    pub family: String,
    pub platform: Option<Platform>,
    pub supported_extensions: Vec<String>,
}

impl PlatformInfo {
    /// Whether the platform is supported.
    pub fn is_supported(&self) -> (r: bool)
        ensures
            r == (self.platform is Some),
    {
        match self.platform {
            Some(_) => true,
            None => false,
        }
    }

    /// A human-readable description: the platform's display name and the
    /// architecture, or the unsupported pair.
    pub fn description(&self) -> (r: String)
        ensures
            match self.platform {
                Some(p) => r@ == spec_display_name(p) + " ("@ + self.arch@ + ")"@,
                None => r@ == "Unsupported: "@ + self.os@ + "-"@ + self.arch@,
            },
    {
        match &self.platform {
            Some(p) => {
                let mut out: Vec<char> = crate::strutil::str_to_chars(p.display_name());
                let mut sp = crate::strutil::str_to_chars(" (");
                out.append(&mut sp);
                let mut a = crate::strutil::str_to_chars(self.arch.as_str());
                out.append(&mut a);
                let mut cl = crate::strutil::str_to_chars(")");
                out.append(&mut cl);
                let r = crate::strutil::chars_to_string(&out);
                proof {
                    assert(r@ =~= spec_display_name(*p) + " ("@ + self.arch@ + ")"@);
                }
                r
            },
            None => {
                let mut out: Vec<char> = crate::strutil::str_to_chars("Unsupported: ");
                let mut o = crate::strutil::str_to_chars(self.os.as_str());
                out.append(&mut o);
                let mut da = crate::strutil::str_to_chars("-");
                out.append(&mut da);
                let mut a = crate::strutil::str_to_chars(self.arch.as_str());
                out.append(&mut a);
                let r = crate::strutil::chars_to_string(&out);
                proof {
                    assert(r@ =~= "Unsupported: "@ + self.os@ + "-"@ + self.arch@);
                }
                r
            },
        }
    }
}

} // verus!
