use media_compressor::archive::{
    entry_fits, extract_tar_xz, extract_zip, find_first, tar_entry_fits, zip_entry_fits,
    Decompressed, Rule,
};
use media_compressor::error::ErrorKind;
use media_compressor::manager::{FFmpegManager, Staged};
use media_compressor::platform::{PlatformProfile, Target};
use std::io::{Cursor, Write};
use zip::write::SimpleFileOptions;
use zip::ZipWriter;

fn zip_of(entries: &[(&str, &[u8])]) -> Vec<u8> {
    let mut writer = ZipWriter::new(Cursor::new(Vec::new()));
    for (name, content) in entries {
        writer.start_file(*name, SimpleFileOptions::default()).unwrap();
        writer.write_all(content).unwrap();
    }
    writer.finish().unwrap().into_inner()
}

fn tar_of(entries: &[(&str, &[u8])]) -> Vec<u8> {
    let mut builder = tar::Builder::new(Vec::new());
    for (path, content) in entries {
        let mut header = tar::Header::new_gnu();
        header.set_size(content.len() as u64);
        header.set_mode(0o644);
        header.set_cksum();
        builder.append_data(&mut header, *path, *content).unwrap();
    }
    builder.into_inner().unwrap()
}

#[test]
fn zip_entry_fits_by_the_end_of_its_name() {
    assert!(zip_entry_fits("ffmpeg-master/bin/ffmpeg.exe", "ffmpeg.exe"));
    assert!(zip_entry_fits("ffmpeg", "ffmpeg"));
    assert!(zip_entry_fits("libffmpeg", "ffmpeg"));
    assert!(!zip_entry_fits("bin/ffprobe.exe", "ffmpeg.exe"));
    assert!(!zip_entry_fits("doc/ffmpeg.html", "ffmpeg.exe"));
}

#[test]
fn zip_entry_fits_the_bare_name_on_every_platform() {
    assert!(zip_entry_fits("bin/ffmpeg", "ffmpeg.exe"));
    assert!(!zip_entry_fits("bin/ffmpeg.ex", "ffmpeg.exe"));
}

#[test]
fn tar_entry_fits_by_its_last_component() {
    assert!(tar_entry_fits("ffmpeg-7.0-amd64-static/ffmpeg", "ffmpeg"));
    assert!(tar_entry_fits("ffmpeg", "ffmpeg"));
    assert!(tar_entry_fits("./ffmpeg", "ffmpeg"));
    assert!(tar_entry_fits("a/ffmpeg/", "ffmpeg"));
    assert!(tar_entry_fits("a/ffmpeg/.", "ffmpeg"));
    assert!(tar_entry_fits("a//ffmpeg//./", "ffmpeg"));
    assert!(!tar_entry_fits("a/libffmpeg", "ffmpeg"));
    assert!(!tar_entry_fits("a/.ffmpeg", "ffmpeg"));
    assert!(!tar_entry_fits("a/ffmpeg.", "ffmpeg"));
    assert!(!tar_entry_fits("a/ffmpeg/..", "ffmpeg"));
    assert!(!tar_entry_fits("ffmpeg-7.0-amd64-static/", "ffmpeg"));
    assert!(!tar_entry_fits("manpages/ffmpeg.txt", "ffmpeg"));
    assert!(!tar_entry_fits("", "ffmpeg"));
    assert!(!tar_entry_fits("peg", "ffmpeg"));
}

#[test]
fn tar_entry_fits_agrees_with_std_on_ordinary_paths() {
    for path in ["x/ffmpeg", "ffmpeg", "x/ffmpeg/", "x/ffmpegs", "x/y/../ffmpeg", "ffmpeg/x", "/ffmpeg"] {
        assert_eq!(
            tar_entry_fits(path, "ffmpeg"),
            std::path::Path::new(path).ends_with("ffmpeg"),
            "{}",
            path
        );
    }
}

#[test]
fn zip_yields_the_first_of_two_entries_of_the_same_name() {
    let archive = zip_of(&[
        ("README.txt", b"read me"),
        ("first/ffmpeg", b"the first one"),
        ("second/ffmpeg", b"the second one"),
    ]);
    let found = extract_zip(archive, "ffmpeg").unwrap();
    assert_eq!(found, Some(b"the first one".to_vec()));
}

#[test]
fn zip_yields_the_first_of_two_entries_in_the_other_order() {
    let archive = zip_of(&[("second/ffmpeg", b"the second one"), ("first/ffmpeg", b"the first one")]);
    let found = extract_zip(archive, "ffmpeg").unwrap();
    assert_eq!(found, Some(b"the second one".to_vec()));
}

#[test]
fn zip_takes_the_bare_name_before_the_platform_name() {
    let archive = zip_of(&[("bin/ffmpeg", b"bare"), ("bin/ffmpeg.exe", b"exe")]);
    let found = extract_zip(archive, "ffmpeg.exe").unwrap();
    assert_eq!(found, Some(b"bare".to_vec()));
}

#[test]
fn zip_without_a_fitting_entry_yields_nothing() {
    let archive = zip_of(&[("README.txt", b"read me"), ("bin/ffprobe", b"probe")]);
    assert_eq!(extract_zip(archive, "ffmpeg").unwrap(), None);
}

#[test]
fn empty_zip_yields_nothing() {
    let archive = zip_of(&[]);
    assert_eq!(extract_zip(archive, "ffmpeg").unwrap(), None);
}

#[test]
fn zip_content_is_decompressed() {
    let content: Vec<u8> = (0..20000u32).map(|i| (i % 7) as u8).collect();
    let archive = zip_of(&[("bin/ffmpeg", &content)]);
    assert!(archive.len() < content.len());
    assert_eq!(extract_zip(archive, "ffmpeg").unwrap(), Some(content));
}

#[test]
fn bytes_that_are_no_zip_are_an_extraction_failure() {
    let failure = extract_zip(b"this is not an archive".to_vec(), "ffmpeg").unwrap_err();
    assert_eq!(failure.kind, ErrorKind::Extraction);
    assert!(failure.message.starts_with("Failed to read archive: "));
    assert!(failure.message.len() > "Failed to read archive: ".len());
}

#[test]
fn tar_yields_the_first_entry_whose_last_component_fits() {
    let archive = tar_of(&[
        ("pkg/readme.txt", b"read me"),
        ("pkg/manpages/ffmpeg.txt", b"manual"),
        ("pkg/ffmpeg", b"the first one"),
        ("pkg/other/ffmpeg", b"the second one"),
    ]);
    let found = extract_tar_xz(Decompressed::Done(archive), "ffmpeg").unwrap();
    assert_eq!(found, Some(b"the first one".to_vec()));
}

#[test]
fn tar_without_a_fitting_entry_yields_nothing() {
    let archive = tar_of(&[("pkg/readme.txt", b"read me"), ("pkg/libffmpeg", b"library")]);
    assert_eq!(extract_tar_xz(Decompressed::Done(archive), "ffmpeg").unwrap(), None);
}

#[test]
fn empty_tar_yields_nothing() {
    assert_eq!(extract_tar_xz(Decompressed::Done(tar_of(&[])), "ffmpeg").unwrap(), None);
    assert_eq!(extract_tar_xz(Decompressed::Done(Vec::new()), "ffmpeg").unwrap(), None);
}

#[test]
fn damaged_tar_is_an_extraction_failure() {
    let mut archive = tar_of(&[("pkg/readme.txt", b"read me"), ("pkg/ffmpeg", b"binary")]);
    // Spoil the checksum of the first header.
    archive[150] = b'7';
    archive[151] = b'7';
    let failure = extract_tar_xz(Decompressed::Done(archive), "ffmpeg").unwrap_err();
    assert_eq!(failure.kind, ErrorKind::Extraction);
    assert!(failure.message.starts_with("Failed to read entry: "));
}

#[test]
fn damage_behind_the_first_fit_is_never_seen() {
    let mut archive = tar_of(&[("pkg/ffmpeg", b"binary"), ("pkg/readme.txt", b"read me")]);
    // The second header starts after the first header and one block of content.
    archive[1024 + 150] = b'7';
    archive[1024 + 151] = b'7';
    let found = extract_tar_xz(Decompressed::Done(archive), "ffmpeg").unwrap();
    assert_eq!(found, Some(b"binary".to_vec()));
}

#[test]
fn decompressor_that_did_not_start_is_an_extraction_failure() {
    let failure =
        extract_tar_xz(Decompressed::NotStarted("No such file or directory".to_string()), "ffmpeg")
            .unwrap_err();
    assert_eq!(failure.kind, ErrorKind::Extraction);
    assert_eq!(failure.message, "Failed to decompress xz: No such file or directory");
}

#[test]
fn decompressor_that_failed_is_an_extraction_failure() {
    let failure = extract_tar_xz(Decompressed::Failed, "ffmpeg").unwrap_err();
    assert_eq!(failure.kind, ErrorKind::Extraction);
    assert_eq!(failure.message, "Failed to decompress xz file");
}

#[test]
fn manager_unpacks_with_the_name_of_its_platform() {
    let windows =
        FFmpegManager::with_data_root(PlatformProfile::for_target(Target::Windows), None);
    let archive = zip_of(&[("bin/ffprobe.exe", b"probe"), ("bin/ffmpeg.exe", b"exe")]);
    assert_eq!(windows.unpack(Staged::Zip(archive)).unwrap(), Some(b"exe".to_vec()));

    let linux = FFmpegManager::with_data_root(PlatformProfile::for_target(Target::Linux), None);
    let archive = tar_of(&[("pkg/ffmpeg.exe", b"exe"), ("pkg/ffmpeg", b"elf")]);
    assert_eq!(
        linux.unpack(Staged::TarXz(Decompressed::Done(archive))).unwrap(),
        Some(b"elf".to_vec())
    );
    assert!(linux.unpack(Staged::TarXz(Decompressed::Failed)).is_err());
}

fn listed(items: &[Result<&str, &str>]) -> Vec<Result<String, String>> {
    items.iter().map(|item| item.map(|s| s.to_string()).map_err(|s| s.to_string())).collect()
}

#[test]
fn entry_fits_follows_the_rule_it_is_given() {
    assert!(entry_fits(Rule::NameSuffix, "lib/libffmpeg", "ffmpeg"));
    assert!(!entry_fits(Rule::PathComponent, "lib/libffmpeg", "ffmpeg"));
    assert!(entry_fits(Rule::PathComponent, "bin/ffmpeg/", "ffmpeg"));
    assert!(!entry_fits(Rule::NameSuffix, "bin/ffmpeg/", "ffmpeg"));
    assert!(entry_fits(Rule::NameSuffix, "bin/ffmpeg", "ffmpeg.exe"));
    assert!(!entry_fits(Rule::PathComponent, "bin/ffmpeg", "ffmpeg.exe"));
}

#[test]
fn find_first_stops_at_the_first_fit() {
    let items = listed(&[Ok("a/readme"), Ok("a/ffmpeg"), Ok("b/ffmpeg"), Err("broken")]);
    assert_eq!(find_first(Rule::NameSuffix, &items, "ffmpeg"), 1);
    assert_eq!(find_first(Rule::PathComponent, &items, "ffmpeg"), 1);
}

#[test]
fn find_first_stops_at_the_first_complaint() {
    let items = listed(&[Ok("a/readme"), Err("broken"), Ok("a/ffmpeg")]);
    assert_eq!(find_first(Rule::NameSuffix, &items, "ffmpeg"), 1);
}

#[test]
fn find_first_runs_to_the_end_when_nothing_fits() {
    let items = listed(&[Ok("a/readme"), Ok("a/ffprobe")]);
    assert_eq!(find_first(Rule::NameSuffix, &items, "ffmpeg"), 2);
    assert_eq!(find_first(Rule::PathComponent, &listed(&[]), "ffmpeg"), 0);
}
