//! The three platforms the executable is provisioned for.

use vstd::prelude::*;

verus! {

/// How the archive of a platform is packed.
#[derive(Clone, Copy, Debug, PartialEq, Eq, Structural)]
pub enum ArchiveKind {
    /// A ZIP archive.
    Zip,
    /// A TAR archive compressed with XZ.
    TarXz,
}

/// A platform that has a build of the executable.
#[derive(Clone, Copy, Debug, PartialEq, Eq, Structural)]
pub enum Target {
    Windows,
    MacOs,
    Linux,
}

/// Where a platform's archive is downloaded from.
pub open spec fn archive_url_of(target: Target) -> Seq<char> {
    match target {
        Target::Windows =>
            "https://github.com/BtbN/FFmpeg-Builds/releases/download/latest/ffmpeg-master-latest-win64-gpl.zip"@,
        Target::MacOs => "https://evermeet.cx/ffmpeg/getrelease/ffmpeg/zip"@,
        Target::Linux =>
            "https://johnvansickle.com/ffmpeg/releases/ffmpeg-release-amd64-static.tar.xz"@,
    }
}

/// What the executable's file is called on a platform.
pub open spec fn executable_name_of(target: Target) -> Seq<char> {
    match target {
        Target::Windows => "ffmpeg.exe"@,
        Target::MacOs => "ffmpeg"@,
        Target::Linux => "ffmpeg"@,
    }
}

/// How a platform's archive is packed.
pub open spec fn archive_kind_of(target: Target) -> ArchiveKind {
    match target {
        Target::Windows => ArchiveKind::Zip,
        Target::MacOs => ArchiveKind::Zip,
        Target::Linux => ArchiveKind::TarXz,
    }
}

/// The mode bits given to the installed executable where the platform keeps such bits: read and
/// execute for everyone, write for the owner. Archives do not keep them reliably.
pub open spec fn executable_mode_of(target: Target) -> Option<u32> {
    match target {
        Target::Windows => None,
        Target::MacOs => Some(0o755u32),
        Target::Linux => Some(0o755u32),
    }
}

/// The mode bits to give the installed executable, where the platform keeps such bits.
pub fn executable_mode(target: Target) -> (mode: Option<u32>)
    ensures
        mode == executable_mode_of(target),
{
    match target {
        Target::Windows => None,
        Target::MacOs | Target::Linux => Some(0o755),
    }
}

/// The program that shows a directory in the platform's file browser.
pub open spec fn file_browser_of(target: Target) -> Seq<char> {
    match target {
        Target::Windows => "explorer"@,
        Target::MacOs => "open"@,
        Target::Linux => "xdg-open"@,
    }
}

/// The program that shows a directory in the platform's file browser; it takes the directory as
/// its one argument.
pub fn file_browser(target: Target) -> (program: String)
    ensures
        program@ == file_browser_of(target),
{
    match target {
        Target::Windows => String::from_str("explorer"),
        Target::MacOs => String::from_str("open"),
        Target::Linux => String::from_str("xdg-open"),
    }
}

/// What a platform needs to have the executable provisioned: fixed once, never changed.
#[derive(Debug)]
pub struct PlatformProfile {
    pub archive_url: String,
    pub executable_name: String,
    pub archive_kind: ArchiveKind,
}

impl PlatformProfile {
    /// The profile is the one of `target`.
    pub open spec fn is_for(&self, target: Target) -> bool {
        &&& self.archive_url@ == archive_url_of(target)
        &&& self.executable_name@ == executable_name_of(target)
        &&& self.archive_kind == archive_kind_of(target)
    }

    /// The profile of a platform.
    pub fn for_target(target: Target) -> (profile: PlatformProfile)
        ensures
            profile.is_for(target),
    {
        match target {
            Target::Windows => PlatformProfile {
                archive_url: String::from_str(
                    "https://github.com/BtbN/FFmpeg-Builds/releases/download/latest/ffmpeg-master-latest-win64-gpl.zip",
                ),
                executable_name: String::from_str("ffmpeg.exe"),
                archive_kind: ArchiveKind::Zip,
            },
            Target::MacOs => PlatformProfile {
                archive_url: String::from_str("https://evermeet.cx/ffmpeg/getrelease/ffmpeg/zip"),
                executable_name: String::from_str("ffmpeg"),
                archive_kind: ArchiveKind::Zip,
            },
            Target::Linux => PlatformProfile {
                archive_url: String::from_str(
                    "https://johnvansickle.com/ffmpeg/releases/ffmpeg-release-amd64-static.tar.xz",
                ),
                executable_name: String::from_str("ffmpeg"),
                archive_kind: ArchiveKind::TarXz,
            },
        }
    }
}

} // verus!
