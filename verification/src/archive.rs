//! Finding the executable in a downloaded archive.
//!
//! An archive is searched entry by entry, in the order the archive lists them, and the first
//! entry whose name fits is the one taken; whatever follows it is never looked at.

use vstd::prelude::*;
use crate::error::{ErrorKind, Failure};
use crate::text::{chars_of, ends_with, is_suffix, matches_at};
use std::io::Cursor;
use std::io::Read;
use zip::ZipArchive;

verus! {

/// An opened ZIP archive, as the `zip` crate holds it.
#[verifier::external_type_specification]
#[verifier::external_body]
#[verifier::reject_recursive_types(R)]
pub struct ExZipArchive<R>(ZipArchive<R>);

/// A reader over bytes held in memory.
#[verifier::external_type_specification]
#[verifier::external_body]
#[verifier::reject_recursive_types(T)]
pub struct ExCursor<T>(Cursor<T>);

/// The bytes that an opened ZIP archive reads from.
pub uninterp spec fn zip_source(archive: ZipArchive<Cursor<Vec<u8>>>) -> Seq<u8>;

/// The number of entries that `zip::ZipArchive::new` finds in these bytes, if it can read them as
/// an archive at all.
pub uninterp spec fn zip_entry_count(bytes: Seq<u8>) -> Option<nat>;

/// The name of the entry that `zip::ZipArchive::by_index` opens in the archive held in these
/// bytes, if it can open it and read its name.
pub uninterp spec fn zip_entry_name(bytes: Seq<u8>, index: int) -> Option<Seq<char>>;

/// The content that reading that entry to its end yields, if it can be opened and read.
pub uninterp spec fn zip_entry_content(bytes: Seq<u8>, index: int) -> Option<Seq<u8>>;

/// What `tar::Archive::entries` lists in these bytes, on the platform the crate is built for:
/// nothing if the listing cannot start, else for each item in turn the path of the entry, or
/// nothing where the entry or its path cannot be read.
pub uninterp spec fn tar_listing(bytes: Seq<u8>) -> Option<Seq<Option<Seq<char>>>>;

/// The content that reading the entry at `index` of that listing to its end yields, if it can be
/// reached and read.
pub uninterp spec fn tar_entry_content(bytes: Seq<u8>, index: int) -> Option<Seq<u8>>;

/// `prefix` is the head of `s`.
pub open spec fn is_prefix(prefix: Seq<char>, s: Seq<char>) -> bool {
    prefix.len() <= s.len() && s.subrange(0, prefix.len() as int) == prefix
}

/// A ZIP entry is taken for the executable when its name ends with the executable's name, or
/// with `ffmpeg`.
pub open spec fn zip_name_fits(name: Seq<char>, executable: Seq<char>) -> bool {
    is_suffix(executable, name) || is_suffix("ffmpeg"@, name)
}

/// A path without what counts for nothing at its end: separators and lone dots.
pub open spec fn without_trailing_noise(path: Seq<char>) -> Seq<char>
    decreases path.len(),
{
    if path.len() == 0 {
        path
    } else if ends_in_noise(path) {
        without_trailing_noise(path.drop_last())
    } else {
        path
    }
}

/// The last character of a non-empty path is a separator, or a dot that is a component by itself.
pub open spec fn ends_in_noise(path: Seq<char>) -> bool {
    path.last() == '/' || (path.last() == '.' && (path.len() == 1 || path[path.len() - 2] == '/'))
}

/// A TAR entry is taken for the executable when its path, read component by component from the
/// end, ends with the executable's name: the name is the tail of the path once trailing
/// separators and lone dots are dropped, and it starts a component.
pub open spec fn tar_path_fits(path: Seq<char>, executable: Seq<char>) -> bool {
    let kept = without_trailing_noise(path);
    is_suffix(executable, kept) && (kept.len() == executable.len() || kept[kept.len()
        - executable.len() - 1] == '/')
}

/// Which of the two rules decides whether an entry is the executable.
#[derive(Clone, Copy, Debug, PartialEq, Eq, Structural)]
pub enum Rule {
    /// The rule for ZIP archives: `zip_name_fits`.
    NameSuffix,
    /// The rule for TAR archives: `tar_path_fits`.
    PathComponent,
}

/// An entry's name fits under the given rule.
pub open spec fn fits(rule: Rule, name: Seq<char>, executable: Seq<char>) -> bool {
    match rule {
        Rule::NameSuffix => zip_name_fits(name, executable),
        Rule::PathComponent => tar_path_fits(name, executable),
    }
}

/// The search goes past an entry when the entry could be read and its name does not fit.
pub open spec fn passed_over(rule: Rule, name: Option<Seq<char>>, executable: Seq<char>) -> bool {
    match name {
        Some(name) => !fits(rule, name, executable),
        None => false,
    }
}

/// Where a search that starts at `from` stops: at the first entry that cannot be read or whose
/// name fits, or at the end of the list.
pub open spec fn first_stop(
    rule: Rule,
    names: Seq<Option<Seq<char>>>,
    executable: Seq<char>,
    from: int,
) -> int
    decreases names.len() - from,
{
    if from < 0 || from >= names.len() {
        names.len() as int
    } else if passed_over(rule, names[from], executable) {
        first_stop(rule, names, executable, from + 1)
    } else {
        from
    }
}

/// What a search comes to.
pub enum Finding {
    /// The content of the first entry that fits.
    Taken(Seq<u8>),
    /// No entry fits.
    Absent,
    /// The search broke off; the failure's text starts with these words.
    Broken(Seq<char>),
}

/// The names of the entries of a ZIP archive, in order; nothing where an entry cannot be opened.
pub open spec fn zip_names(bytes: Seq<u8>, count: nat) -> Seq<Option<Seq<char>>> {
    Seq::new(count, |index: int| zip_entry_name(bytes, index))
}

/// What searching a ZIP archive for the executable comes to.
pub open spec fn zip_finding(bytes: Seq<u8>, executable: Seq<char>) -> Finding {
    match zip_entry_count(bytes) {
        None => Finding::Broken("Failed to read archive: "@),
        Some(count) => {
            let names = zip_names(bytes, count);
            let stop = first_stop(Rule::NameSuffix, names, executable, 0);
            if stop >= count {
                Finding::Absent
            } else if names[stop] is None {
                Finding::Broken("Failed to extract file: "@)
            } else {
                match zip_entry_content(bytes, stop) {
                    Some(content) => Finding::Taken(content),
                    None => Finding::Broken("Failed to extract ffmpeg: "@),
                }
            }
        },
    }
}

/// What searching a TAR archive for the executable comes to.
pub open spec fn tar_finding(bytes: Seq<u8>, executable: Seq<char>) -> Finding {
    match tar_listing(bytes) {
        None => Finding::Broken("Failed to read tar: "@),
        Some(names) => {
            let stop = first_stop(Rule::PathComponent, names, executable, 0);
            if stop >= names.len() {
                Finding::Absent
            } else if names[stop] is None {
                Finding::Broken("Failed to read entry: "@)
            } else {
                match tar_entry_content(bytes, stop) {
                    Some(content) => Finding::Taken(content),
                    None => Finding::Broken("Failed to extract ffmpeg: "@),
                }
            }
        },
    }
}

/// What a search comes to once decompression is accounted for: a decompressor that could not be
/// started or that failed breaks the search off before it begins.
pub open spec fn tar_xz_finding(decompressed: Decompressed, executable: Seq<char>) -> Finding {
    match decompressed {
        Decompressed::NotStarted(cause) => Finding::Broken("Failed to decompress xz: "@ + cause@),
        Decompressed::Failed => Finding::Broken("Failed to decompress xz file"@),
        Decompressed::Done(bytes) => tar_finding(bytes@, executable),
    }
}

/// The result of an extraction says what the finding says.
pub open spec fn reflects(result: Result<Option<Vec<u8>>, Failure>, finding: Finding) -> bool {
    match finding {
        Finding::Taken(content) => result matches Ok(Some(taken)) && taken@ == content,
        Finding::Absent => result matches Ok(None),
        Finding::Broken(words) => result matches Err(failure) && failure.kind
            == ErrorKind::Extraction && is_prefix(words, failure.message@),
    }
}

/// `zip::ZipArchive::new` over a `std::io::Cursor`: opens the bytes as a ZIP archive by reading
/// its central directory, or reports why it cannot.
#[verifier::external_body]
fn zip_open(bytes: Vec<u8>) -> (opened: Result<ZipArchive<Cursor<Vec<u8>>>, String>)
    ensures
        opened is Ok <==> zip_entry_count(bytes@) is Some,
        opened matches Ok(archive) ==> zip_source(archive) == bytes@,
{
    ZipArchive::new(Cursor::new(bytes)).map_err(|e| e.to_string())
}

/// `zip::ZipArchive::len`: the number of entries in the archive.
#[verifier::external_body]
fn zip_len(archive: &ZipArchive<Cursor<Vec<u8>>>) -> (count: usize)
    ensures
        zip_entry_count(zip_source(*archive)) == Some(count as nat),
{
    archive.len()
}

/// `zip::ZipArchive::by_index`, then `zip::read::ZipFile::name`: the name of one entry, or why
/// the entry cannot be opened. The archive still reads from the same bytes afterwards.
#[verifier::external_body]
fn zip_name_at(archive: &mut ZipArchive<Cursor<Vec<u8>>>, index: usize) -> (named: Result<
    String,
    String,
>)
    ensures
        zip_source(*final(archive)) == zip_source(*old(archive)),
        named is Ok <==> zip_entry_name(zip_source(*old(archive)), index as int) is Some,
        named matches Ok(name) ==> zip_entry_name(zip_source(*old(archive)), index as int) == Some(
            name@,
        ),
{
    let opened = archive.by_index(index);
    opened.and_then(|file| file.name().map(|name| name.into_owned())).map_err(|e| e.to_string())
}

/// `zip::ZipArchive::by_index`, then `std::io::Read::read_to_end` on the entry: the entry's
/// content, decompressed, or why it cannot be read. The archive still reads from the same bytes
/// afterwards.
#[verifier::external_body]
fn zip_content_at(archive: &mut ZipArchive<Cursor<Vec<u8>>>, index: usize) -> (read: Result<
    Vec<u8>,
    String,
>)
    ensures
        zip_source(*final(archive)) == zip_source(*old(archive)),
        read is Ok <==> zip_entry_content(zip_source(*old(archive)), index as int) is Some,
        read matches Ok(content) ==> zip_entry_content(zip_source(*old(archive)), index as int)
            == Some(content@),
{
    let mut file = archive.by_index(index).map_err(|e| e.to_string())?;
    let mut content: Vec<u8> = Vec::new();
    file.read_to_end(&mut content).map(|_| content).map_err(|e| e.to_string())
}

/// Whether a ZIP entry of this name is taken for the executable.
pub fn zip_entry_fits(name: &str, executable: &str) -> (fits: bool)
    ensures
        fits == zip_name_fits(name@, executable@),
{
    let name = chars_of(name);
    ends_with(&name, &chars_of(executable)) || ends_with(&name, &chars_of("ffmpeg"))
}

/// Searches a ZIP archive for the executable and hands out its content.
///
/// Gives `Ok(None)` when no entry fits: that is no failure here.
#[verifier::loop_isolation(false)]
pub fn extract_zip(bytes: Vec<u8>, executable: &str) -> (result: Result<Option<Vec<u8>>, Failure>)
    ensures
        reflects(result, zip_finding(bytes@, executable@)),
{
    let ghost source = bytes@;
    let mut archive = match zip_open(bytes) {
        Ok(archive) => archive,
        Err(cause) => {
            proof {
                lemma_prefix("Failed to read archive: "@, cause@);
            }
            return Err(
                Failure::with_detail(
                    ErrorKind::Extraction,
                    "Failed to read archive: ",
                    cause.as_str(),
                ),
            );
        },
    };
    let count = zip_len(&archive);
    let ghost names = zip_names(source, count as nat);
    let mut index: usize = 0;
    while index < count
        invariant
            index <= count,
            zip_source(archive) == source,
            first_stop(Rule::NameSuffix, names, executable@, 0) == first_stop(
                Rule::NameSuffix,
                names,
                executable@,
                index as int,
            ),
        decreases count - index,
    {
        match zip_name_at(&mut archive, index) {
            Err(cause) => {
                proof {
                    lemma_prefix("Failed to extract file: "@, cause@);
                }
                return Err(
                    Failure::with_detail(
                        ErrorKind::Extraction,
                        "Failed to extract file: ",
                        cause.as_str(),
                    ),
                );
            },
            Ok(name) => {
                if zip_entry_fits(name.as_str(), executable) {
                    return match zip_content_at(&mut archive, index) {
                        Ok(content) => Ok(Some(content)),
                        Err(cause) => {
                            proof {
                                lemma_prefix("Failed to extract ffmpeg: "@, cause@);
                            }
                            Err(
                                Failure::with_detail(
                                    ErrorKind::Extraction,
                                    "Failed to extract ffmpeg: ",
                                    cause.as_str(),
                                ),
                            )
                        },
                    };
                }
            },
        }
        index = index + 1;
    }
    Ok(None)
}

/// The paths that were read, in order; nothing where an item holds a complaint.
pub open spec fn names_of(items: Seq<Result<String, String>>) -> Seq<Option<Seq<char>>> {
    Seq::new(
        items.len(),
        |index: int|
            match items[index] {
                Ok(path) => Some(path@),
                Err(_) => None,
            },
    )
}

/// `tar::Archive::entries` over the bytes, each item turned into the text of
/// `tar::Entry::path`: the paths of the entries in the order the archive holds them. An item
/// that cannot be read, or whose path cannot, comes out as the complaint instead.
#[verifier::external_body]
fn tar_paths(bytes: &Vec<u8>) -> (listed: Result<Vec<Result<String, String>>, String>)
    ensures
        listed is Ok <==> tar_listing(bytes@) is Some,
        listed matches Ok(items) ==> tar_listing(bytes@) == Some(names_of(items@)),
{
    let mut archive = tar::Archive::new(bytes.as_slice());
    let entries = archive.entries().map_err(|e| e.to_string())?;
    let paths = entries.map(
        |item|
            item.and_then(|entry| entry.path().map(|path| path.to_string_lossy().into_owned()))
                .map_err(|e| e.to_string()),
    );
    Ok(paths.collect())
}

/// `tar::Archive::entries` over the bytes, advanced to the item at `index`, then
/// `std::io::Read::read_to_end` on that entry: the entry's content, nothing if the listing has
/// no such item, or the complaint if the entry cannot be reached or read.
#[verifier::external_body]
fn tar_content_at(bytes: &Vec<u8>, index: usize) -> (read: Result<Option<Vec<u8>>, String>)
    ensures
        read matches Ok(Some(content)) ==> tar_entry_content(bytes@, index as int) == Some(content@),
        !(read matches Ok(Some(_))) ==> tar_entry_content(bytes@, index as int) is None,
{
    let mut archive = tar::Archive::new(bytes.as_slice());
    let mut entries = archive.entries().map_err(|e| e.to_string())?;
    let mut content: Vec<u8> = Vec::new();
    let read = entries.nth(index).map(|item| item.and_then(|mut entry| entry.read_to_end(&mut content)));
    read.transpose().map(|done| done.map(|_| content)).map_err(|e| e.to_string())
}

/// Whether the last character of the first `end` characters of `path` counts for nothing.
fn trailing_noise_at(path: &Vec<char>, end: usize) -> (noisy: bool)
    requires
        0 < end <= path.len(),
    ensures
        noisy == ends_in_noise(path@.take(end as int)),
{
    let last = path[end - 1];
    last == '/' || (last == '.' && (end == 1 || path[end - 2] == '/'))
}

/// Whether a TAR entry of this path is taken for the executable.
pub fn tar_entry_fits(path: &str, executable: &str) -> (fits: bool)
    ensures
        fits == tar_path_fits(path@, executable@),
{
    let path = chars_of(path);
    let name = chars_of(executable);
    let mut end: usize = path.len();
    assert(path@.take(end as int) =~= path@);
    while end > 0 && trailing_noise_at(&path, end)
        invariant
            end <= path.len(),
            without_trailing_noise(path@) == without_trailing_noise(path@.take(end as int)),
        decreases end,
    {
        assert(path@.take(end as int).drop_last() =~= path@.take(end - 1));
        end = end - 1;
    }
    let ghost kept = path@.take(end as int);
    assert(without_trailing_noise(path@) == kept);
    if name.len() > end {
        return false;
    }
    let start: usize = end - name.len();
    assert(kept.subrange(start as int, end as int) =~= path@.subrange(start as int, end as int));
    matches_at(&path, &name, start) && (start == 0 || path[start - 1] == '/')
}

/// Whether an entry of this name is taken for the executable under the given rule.
pub fn entry_fits(rule: Rule, name: &str, executable: &str) -> (taken: bool)
    ensures
        taken == fits(rule, name@, executable@),
{
    match rule {
        Rule::NameSuffix => zip_entry_fits(name, executable),
        Rule::PathComponent => tar_entry_fits(name, executable),
    }
}

/// Where the search of a list of entries stops: at the first item that holds a complaint or
/// whose name fits, or at the end of the list.
pub fn find_first(rule: Rule, items: &Vec<Result<String, String>>, executable: &str) -> (stop: usize)
    ensures
        stop == first_stop(rule, names_of(items@), executable@, 0),
{
    let ghost names = names_of(items@);
    let mut index: usize = 0;
    while index < items.len()
        invariant
            index <= items.len(),
            names == names_of(items@),
            first_stop(rule, names, executable@, 0) == first_stop(
                rule,
                names,
                executable@,
                index as int,
            ),
        decreases items.len() - index,
    {
        match &items[index] {
            Err(_) => {
                return index;
            },
            Ok(name) => {
                if entry_fits(rule, name.as_str(), executable) {
                    return index;
                }
            },
        }
        index = index + 1;
    }
    index
}

/// What became of the attempt to decompress the downloaded archive.
#[derive(Debug)]
pub enum Decompressed {
    /// The decompressor could not be started; the text says why.
    NotStarted(String),
    /// The decompressor ran and reported a failure.
    Failed,
    /// The decompressor's output: the archive, uncompressed.
    Done(Vec<u8>),
}

/// Searches the decompressed TAR archive for the executable and hands out its content.
///
/// Gives `Ok(None)` when no entry fits: that is no failure here.
pub fn extract_tar_xz(decompressed: Decompressed, executable: &str) -> (result: Result<
    Option<Vec<u8>>,
    Failure,
>)
    ensures
        reflects(result, tar_xz_finding(decompressed, executable@)),
{
    let bytes = match decompressed {
        Decompressed::NotStarted(cause) => {
            proof {
                lemma_prefix("Failed to decompress xz: "@ + cause@, Seq::<char>::empty());
                assert(("Failed to decompress xz: "@ + cause@) + Seq::<char>::empty()
                    =~= "Failed to decompress xz: "@ + cause@);
            }
            return Err(
                Failure::with_detail(
                    ErrorKind::Extraction,
                    "Failed to decompress xz: ",
                    cause.as_str(),
                ),
            );
        },
        Decompressed::Failed => {
            proof {
                lemma_prefix("Failed to decompress xz file"@, Seq::<char>::empty());
                assert("Failed to decompress xz file"@ + Seq::<char>::empty()
                    =~= "Failed to decompress xz file"@);
            }
            return Err(Failure::new(ErrorKind::Extraction, "Failed to decompress xz file"));
        },
        Decompressed::Done(bytes) => bytes,
    };
    let items = match tar_paths(&bytes) {
        Ok(items) => items,
        Err(cause) => {
            proof {
                lemma_prefix("Failed to read tar: "@, cause@);
            }
            return Err(
                Failure::with_detail(ErrorKind::Extraction, "Failed to read tar: ", cause.as_str()),
            );
        },
    };
    let stop = find_first(Rule::PathComponent, &items, executable);
    if stop >= items.len() {
        return Ok(None);
    }
    match &items[stop] {
        Err(cause) => {
            proof {
                lemma_prefix("Failed to read entry: "@, cause@);
            }
            Err(
                Failure::with_detail(ErrorKind::Extraction, "Failed to read entry: ", cause.as_str()),
            )
        },
        Ok(_) => match tar_content_at(&bytes, stop) {
            Ok(Some(content)) => Ok(Some(content)),
            Ok(None) => {
                proof {
                    lemma_prefix("Failed to extract ffmpeg: "@, "no such entry"@);
                }
                Err(
                    Failure::with_detail(
                        ErrorKind::Extraction,
                        "Failed to extract ffmpeg: ",
                        "no such entry",
                    ),
                )
            },
            Err(cause) => {
                proof {
                    lemma_prefix("Failed to extract ffmpeg: "@, cause@);
                }
                Err(
                    Failure::with_detail(
                        ErrorKind::Extraction,
                        "Failed to extract ffmpeg: ",
                        cause.as_str(),
                    ),
                )
            },
        },
    }
}

/// A search that has passed over every entry from `from` up to `index` stops where a search
/// from `index` stops.
proof fn lemma_stop_skips(
    rule: Rule,
    names: Seq<Option<Seq<char>>>,
    executable: Seq<char>,
    from: int,
    index: int,
)
    requires
        0 <= from <= index <= names.len(),
        forall|between: int|
            from <= between < index ==> passed_over(rule, #[trigger] names[between], executable),
    ensures
        first_stop(rule, names, executable, from) == first_stop(rule, names, executable, index),
    decreases index - from,
{
    if from < index {
        lemma_stop_skips(rule, names, executable, from + 1, index);
    }
}

/// First match wins: when an entry fits and every entry before it was read and passed over, the
/// search stops at that entry, whatever follows it, other entries of the same name included.
pub proof fn lemma_first_fit_wins(
    rule: Rule,
    names: Seq<Option<Seq<char>>>,
    executable: Seq<char>,
    index: int,
)
    requires
        0 <= index < names.len(),
        forall|earlier: int|
            0 <= earlier < index ==> passed_over(rule, #[trigger] names[earlier], executable),
        names[index] matches Some(name) && fits(rule, name, executable),
    ensures
        first_stop(rule, names, executable, 0) == index,
{
    lemma_stop_skips(rule, names, executable, 0, index);
}

/// In a ZIP archive the first entry that fits is the one taken: the search hands out its content,
/// or breaks off only because that content cannot be read. Later entries have no say.
pub proof fn lemma_zip_first_fit_wins(bytes: Seq<u8>, executable: Seq<char>, index: int)
    requires
        zip_entry_count(bytes) matches Some(count) && 0 <= index < count,
        forall|earlier: int|
            0 <= earlier < index ==> passed_over(
                Rule::NameSuffix,
                #[trigger] zip_entry_name(bytes, earlier),
                executable,
            ),
        zip_entry_name(bytes, index) matches Some(name) && zip_name_fits(name, executable),
    ensures
        zip_finding(bytes, executable) == match zip_entry_content(bytes, index) {
            Some(content) => Finding::Taken(content),
            None => Finding::Broken("Failed to extract ffmpeg: "@),
        },
{
    let names = zip_names(bytes, zip_entry_count(bytes).unwrap());
    assert forall|earlier: int| 0 <= earlier < index implies passed_over(
        Rule::NameSuffix,
        #[trigger] names[earlier],
        executable,
    ) by {
        assert(names[earlier] == zip_entry_name(bytes, earlier));
    }
    lemma_first_fit_wins(Rule::NameSuffix, names, executable, index);
}

/// In a TAR archive the first entry that fits is the one taken, in the same way.
pub proof fn lemma_tar_first_fit_wins(bytes: Seq<u8>, executable: Seq<char>, index: int)
    requires
        tar_listing(bytes) matches Some(names) && 0 <= index < names.len() && (forall|earlier: int|
            0 <= earlier < index ==> passed_over(
                Rule::PathComponent,
                #[trigger] names[earlier],
                executable,
            )) && (names[index] matches Some(path) && tar_path_fits(path, executable)),
    ensures
        tar_finding(bytes, executable) == match tar_entry_content(bytes, index) {
            Some(content) => Finding::Taken(content),
            None => Finding::Broken("Failed to extract ffmpeg: "@),
        },
{
    lemma_first_fit_wins(Rule::PathComponent, tar_listing(bytes).unwrap(), executable, index);
}

/// When every entry can be read and none fits, the search ends without a find and without a
/// failure.
pub proof fn lemma_nothing_fits(rule: Rule, names: Seq<Option<Seq<char>>>, executable: Seq<char>)
    requires
        forall|index: int|
            0 <= index < names.len() ==> passed_over(rule, #[trigger] names[index], executable),
    ensures
        first_stop(rule, names, executable, 0) == names.len(),
{
    lemma_stop_skips(rule, names, executable, 0, names.len() as int);
}

/// A ZIP archive in which every entry can be opened and none fits yields nothing, and no failure.
pub proof fn lemma_zip_nothing_fits(bytes: Seq<u8>, executable: Seq<char>)
    requires
        zip_entry_count(bytes) matches Some(count) && forall|index: int|
            0 <= index < count ==> passed_over(
                Rule::NameSuffix,
                #[trigger] zip_entry_name(bytes, index),
                executable,
            ),
    ensures
        zip_finding(bytes, executable) == Finding::Absent,
{
    let names = zip_names(bytes, zip_entry_count(bytes).unwrap());
    assert forall|index: int| 0 <= index < names.len() implies passed_over(
        Rule::NameSuffix,
        #[trigger] names[index],
        executable,
    ) by {
        assert(names[index] == zip_entry_name(bytes, index));
    }
    lemma_nothing_fits(Rule::NameSuffix, names, executable);
}

/// A text that starts with `prefix` has it as its head.
pub proof fn lemma_prefix(prefix: Seq<char>, rest: Seq<char>)
    ensures
        is_prefix(prefix, prefix + rest),
{
    assert((prefix + rest).subrange(0, prefix.len() as int) =~= prefix);
}

} // verus!
