use media_compressor::error::ErrorKind;
use media_compressor::manager::{
    check_ffmpeg_status, event_of, step_failure, Action, Event, FFmpegManager, Phase, Probe,
    ProvisioningState, Source, Step,
};
use media_compressor::platform::{
    executable_mode, file_browser, ArchiveKind, PlatformProfile, Target,
};

fn linux() -> FFmpegManager {
    FFmpegManager::with_data_root(
        PlatformProfile::for_target(Target::Linux),
        Some("/data".to_string()),
    )
}

fn windows() -> FFmpegManager {
    FFmpegManager::with_data_root(
        PlatformProfile::for_target(Target::Windows),
        Some("/data".to_string()),
    )
}

#[test]
fn profiles_of_the_three_platforms() {
    let windows = PlatformProfile::for_target(Target::Windows);
    assert_eq!(
        windows.archive_url,
        "https://github.com/BtbN/FFmpeg-Builds/releases/download/latest/ffmpeg-master-latest-win64-gpl.zip"
    );
    assert_eq!(windows.executable_name, "ffmpeg.exe");
    assert_eq!(windows.archive_kind, ArchiveKind::Zip);
    let mac = PlatformProfile::for_target(Target::MacOs);
    assert_eq!(mac.archive_url, "https://evermeet.cx/ffmpeg/getrelease/ffmpeg/zip");
    assert_eq!(mac.executable_name, "ffmpeg");
    assert_eq!(mac.archive_kind, ArchiveKind::Zip);
    let linux = PlatformProfile::for_target(Target::Linux);
    assert_eq!(
        linux.archive_url,
        "https://johnvansickle.com/ffmpeg/releases/ffmpeg-release-amd64-static.tar.xz"
    );
    assert_eq!(linux.executable_name, "ffmpeg");
    assert_eq!(linux.archive_kind, ArchiveKind::TarXz);
}

#[test]
fn manager_keeps_its_files_under_the_data_root() {
    let manager = linux();
    assert_eq!(manager.directory(), "/data/media-compressor/ffmpeg");
    assert_eq!(manager.local_path(), "/data/media-compressor/ffmpeg/ffmpeg");
    assert_eq!(manager.profile().executable_name, "ffmpeg");
    assert_eq!(windows().local_path(), "/data/media-compressor/ffmpeg/ffmpeg.exe");
}

#[test]
fn manager_without_a_data_root_stays_in_the_current_directory() {
    let manager = FFmpegManager::with_data_root(PlatformProfile::for_target(Target::MacOs), None);
    assert_eq!(manager.directory(), "./media-compressor/ffmpeg");
    assert_eq!(manager.local_path(), "./media-compressor/ffmpeg/ffmpeg");
}

#[test]
fn provisioned_path_is_the_same_at_every_construction() {
    let first = FFmpegManager::new(PlatformProfile::for_target(Target::Linux));
    let second = FFmpegManager::new(PlatformProfile::for_target(Target::Linux));
    assert_eq!(first.local_path(), second.local_path());
    assert!(first.local_path().ends_with("media-compressor/ffmpeg/ffmpeg"));
    assert!(first.local_path().starts_with(first.directory()));
}

#[test]
fn probe_is_live_only_after_a_successful_exit() {
    let manager = linux();
    assert!(manager.test_ffmpeg(Probe::Exited { success: true }));
    assert!(!manager.test_ffmpeg(Probe::Exited { success: false }));
    assert!(!manager.test_ffmpeg(Probe::NotStarted));
}

#[test]
fn provisioned_executable_needs_its_file_and_a_live_probe() {
    let manager = linux();
    assert!(manager.is_ffmpeg_available(true, Probe::Exited { success: true }));
    assert!(!manager.is_ffmpeg_available(false, Probe::Exited { success: true }));
    assert!(!manager.is_ffmpeg_available(true, Probe::Exited { success: false }));
    assert!(!manager.is_ffmpeg_available(true, Probe::NotStarted));
}

#[test]
fn system_executable_needs_a_live_probe() {
    let manager = linux();
    assert!(manager.is_system_ffmpeg_available(Probe::Exited { success: true }));
    assert!(!manager.is_system_ffmpeg_available(Probe::Exited { success: false }));
    assert!(!manager.is_system_ffmpeg_available(Probe::NotStarted));
}

#[test]
fn status_is_true_when_either_executable_is_usable() {
    assert!(check_ffmpeg_status(true, false));
    assert!(check_ffmpeg_status(false, true));
    assert!(check_ffmpeg_status(true, true));
    assert!(!check_ffmpeg_status(false, false));
}

#[test]
fn get_ffmpeg_path_prefers_the_provisioned_executable() {
    let manager = linux();
    assert_eq!(manager.get_ffmpeg_path(true, false), "/data/media-compressor/ffmpeg/ffmpeg");
    assert_eq!(manager.get_ffmpeg_path(true, true), "/data/media-compressor/ffmpeg/ffmpeg");
    assert_eq!(manager.get_ffmpeg_path(false, true), "ffmpeg");
    assert_eq!(manager.get_ffmpeg_path(false, false), "/data/media-compressor/ffmpeg/ffmpeg");
}

#[test]
fn provisioning_state_follows_the_probes() {
    let manager = linux();
    assert!(matches!(
        manager.provisioning_state(true, false),
        ProvisioningState::Ready(path) if path == "/data/media-compressor/ffmpeg/ffmpeg"
    ));
    assert!(matches!(manager.provisioning_state(true, true), ProvisioningState::Ready(_)));
    assert!(matches!(
        manager.provisioning_state(false, true),
        ProvisioningState::NeedsSystemFallback
    ));
    assert!(matches!(manager.provisioning_state(false, false), ProvisioningState::NeedsDownload));
}

#[test]
fn ready_executable_ends_provisioning_at_the_first_probe() {
    let manager = linux();
    assert!(matches!(
        manager.action(&Phase::CheckLocal),
        Action::Probe { program, must_exist: true } if program == "/data/media-compressor/ffmpeg/ffmpeg"
    ));
    let phase = manager.ensure_ffmpeg(Phase::CheckLocal, Event::Probed(true));
    assert!(matches!(phase, Phase::Ready(Source::Local)));
    assert!(matches!(manager.action(&phase), Action::Stop));
    assert_eq!(
        manager.outcome(&phase).unwrap().unwrap(),
        "/data/media-compressor/ffmpeg/ffmpeg"
    );
    // Whatever is reported afterwards changes nothing.
    let phase = manager.ensure_ffmpeg(phase, Event::Probed(false));
    assert!(matches!(phase, Phase::Ready(Source::Local)));
    let phase = manager.ensure_ffmpeg(phase, Event::Broke("late".to_string()));
    assert!(matches!(phase, Phase::Ready(Source::Local)));
}

#[test]
fn system_executable_is_the_fallback() {
    let manager = linux();
    let phase = manager.ensure_ffmpeg(Phase::CheckLocal, Event::Probed(false));
    assert!(matches!(phase, Phase::CheckSystem));
    assert!(matches!(
        manager.action(&phase),
        Action::Probe { program, must_exist: false } if program == "ffmpeg"
    ));
    let phase = manager.ensure_ffmpeg(phase, Event::Probed(true));
    assert!(matches!(phase, Phase::Ready(Source::System)));
    assert_eq!(manager.outcome(&phase).unwrap().unwrap(), "ffmpeg");
}

#[test]
fn download_and_unpacking_lead_to_a_second_probe() {
    let manager = linux();
    let phase = manager.ensure_ffmpeg(Phase::CheckSystem, Event::Probed(false));
    assert!(matches!(phase, Phase::Download));
    assert!(manager.outcome(&phase).is_none());
    match manager.action(&phase) {
        Action::Fetch { url, directory, archive } => {
            assert_eq!(
                url,
                "https://johnvansickle.com/ffmpeg/releases/ffmpeg-release-amd64-static.tar.xz"
            );
            assert_eq!(directory, "/data/media-compressor/ffmpeg");
            assert_eq!(archive, "/data/media-compressor/ffmpeg/ffmpeg_temp.download");
        }
        other => panic!("{:?}", other),
    }
    let phase = manager.ensure_ffmpeg(phase, Event::Done);
    assert!(matches!(phase, Phase::Extract));
    match manager.action(&phase) {
        Action::Unpack { kind, archive, destination } => {
            assert_eq!(kind, ArchiveKind::TarXz);
            assert_eq!(archive, "/data/media-compressor/ffmpeg/ffmpeg_temp.download");
            assert_eq!(destination, "/data/media-compressor/ffmpeg/ffmpeg");
        }
        other => panic!("{:?}", other),
    }
    let phase = manager.ensure_ffmpeg(phase, Event::Done);
    assert!(matches!(phase, Phase::RecheckLocal));
    assert!(matches!(manager.action(&phase), Action::Probe { must_exist: true, .. }));
    let phase = manager.ensure_ffmpeg(phase, Event::Probed(true));
    assert!(matches!(phase, Phase::Ready(Source::Local)));
}

#[test]
fn windows_unpacks_a_zip() {
    let manager = windows();
    assert!(matches!(
        manager.action(&Phase::Extract),
        Action::Unpack { kind: ArchiveKind::Zip, .. }
    ));
}

#[test]
fn unpacking_nothing_ends_as_incomplete() {
    let manager = linux();
    let phase = manager.ensure_ffmpeg(Phase::Extract, Event::Done);
    let phase = manager.ensure_ffmpeg(phase, Event::Probed(false));
    let failure = manager.outcome(&phase).unwrap().unwrap_err();
    assert_eq!(failure.kind, ErrorKind::Incomplete);
    assert_eq!(failure.message, "Failed to download and install FFmpeg");
    assert!(matches!(manager.action(&phase), Action::Stop));
}

#[test]
fn failed_download_is_a_network_failure() {
    let manager = linux();
    let phase = manager.ensure_ffmpeg(
        Phase::Download,
        Event::Broke("Failed to download FFmpeg: connection refused".to_string()),
    );
    let failure = manager.outcome(&phase).unwrap().unwrap_err();
    assert_eq!(failure.kind, ErrorKind::Network);
    assert_eq!(failure.message, "Failed to download FFmpeg: connection refused");
    let phase = manager.ensure_ffmpeg(phase, Event::Done);
    assert!(matches!(phase, Phase::Failed(_)));
}

#[test]
fn failed_unpacking_is_an_extraction_failure() {
    let manager = linux();
    let phase =
        manager.ensure_ffmpeg(Phase::Extract, Event::Broke("Failed to read tar: eof".to_string()));
    let failure = manager.outcome(&phase).unwrap().unwrap_err();
    assert_eq!(failure.kind, ErrorKind::Extraction);
    assert_eq!(failure.message, "Failed to read tar: eof");
}

#[test]
fn events_that_do_not_answer_the_phase_change_nothing() {
    let manager = linux();
    assert!(matches!(manager.ensure_ffmpeg(Phase::CheckLocal, Event::Done), Phase::CheckLocal));
    assert!(matches!(
        manager.ensure_ffmpeg(Phase::CheckSystem, Event::Broke("x".to_string())),
        Phase::CheckSystem
    ));
    assert!(matches!(manager.ensure_ffmpeg(Phase::Download, Event::Probed(true)), Phase::Download));
    assert!(matches!(manager.ensure_ffmpeg(Phase::Extract, Event::Probed(true)), Phase::Extract));
    assert!(matches!(manager.ensure_ffmpeg(Phase::RecheckLocal, Event::Done), Phase::RecheckLocal));
}

#[test]
fn download_ffmpeg_moves_only_its_own_phases() {
    let manager = linux();
    assert!(matches!(manager.download_ffmpeg(Phase::Download, Event::Done), Phase::Extract));
    assert!(matches!(manager.download_ffmpeg(Phase::Extract, Event::Done), Phase::RecheckLocal));
    assert!(matches!(
        manager.download_ffmpeg(Phase::CheckLocal, Event::Probed(true)),
        Phase::CheckLocal
    ));
    assert!(matches!(
        manager.download_ffmpeg(Phase::RecheckLocal, Event::Probed(false)),
        Phase::RecheckLocal
    ));
}

#[test]
fn step_failure_opens_with_the_words_of_the_step() {
    assert_eq!(step_failure(Step::CreateDirectory, "denied"), "Failed to create FFmpeg directory: denied");
    assert_eq!(step_failure(Step::Request, "dns"), "Failed to download FFmpeg: dns");
    assert_eq!(step_failure(Step::ReadBody, "reset"), "Failed to read download: reset");
    assert_eq!(step_failure(Step::CreateArchive, "full"), "Failed to create temp file: full");
    assert_eq!(step_failure(Step::WriteArchive, "full"), "Failed to write temp file: full");
    assert_eq!(step_failure(Step::OpenArchive, "gone"), "Failed to open archive: gone");
    assert_eq!(step_failure(Step::CreateExecutable, "busy"), "Failed to create ffmpeg file: busy");
    assert_eq!(step_failure(Step::WriteExecutable, "full"), "Failed to extract ffmpeg: full");
    assert_eq!(step_failure(Step::ReadMetadata, "gone"), "Failed to get file metadata: gone");
    assert_eq!(step_failure(Step::SetPermissions, "denied"), "Failed to set permissions: denied");
}

#[test]
fn event_of_reports_success_and_failure() {
    assert!(matches!(event_of(Ok(())), Event::Done));
    assert!(matches!(event_of(Err("broken".to_string())), Event::Broke(text) if text == "broken"));
}

#[test]
fn executable_mode_is_set_where_mode_bits_exist() {
    assert_eq!(executable_mode(Target::Linux), Some(0o755));
    assert_eq!(executable_mode(Target::MacOs), Some(0o755));
    assert_eq!(executable_mode(Target::Windows), None);
}

#[test]
fn file_browser_of_each_platform() {
    assert_eq!(file_browser(Target::Linux), "xdg-open");
    assert_eq!(file_browser(Target::MacOs), "open");
    assert_eq!(file_browser(Target::Windows), "explorer");
}
