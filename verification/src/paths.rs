//! Where the compressed file goes, and what it is called.

use vstd::prelude::*;
use crate::error::{ErrorKind, Failure};
use crate::CompressionRequest;
use std::path::Path;

verus! {

/// What `std::path::Path::parent` gives for a path, on the platform the crate is built for.
pub uninterp spec fn parent_of(path: Seq<char>) -> Option<Seq<char>>;

/// What `std::path::Path::file_stem` gives for a path, on the platform the crate is built for.
pub uninterp spec fn file_stem_of(path: Seq<char>) -> Option<Seq<char>>;

/// What `std::path::Path::extension` gives for a path, on the platform the crate is built for.
pub uninterp spec fn extension_part_of(path: Seq<char>) -> Option<Seq<char>>;

/// What `std::path::Path::join` gives for a path and a path to adjoin, on the platform the crate
/// is built for.
pub uninterp spec fn joined(base: Seq<char>, child: Seq<char>) -> Seq<char>;

/// The directory that receives the output when the caller names none.
pub open spec fn default_directory_name() -> Seq<char> {
    "compressed"@
}

/// The name of the output file: the input's stem, the marker, and an extension.
pub open spec fn compressed_name(stem: Seq<char>, extension: Seq<char>) -> Seq<char> {
    stem + "_compressed."@ + extension
}

/// The directory for the output: the one the caller named, else `compressed` beside the input.
pub open spec fn directory_for(input: Seq<char>, chosen: Option<Seq<char>>) -> Option<Seq<char>> {
    match chosen {
        Some(directory) => Some(directory),
        None => match parent_of(input) {
            Some(parent) => Some(joined(parent, default_directory_name())),
            None => None,
        },
    }
}

/// The extension of a path, or the empty text where it has none.
pub open spec fn extension_or_empty(path: Seq<char>) -> Seq<char> {
    match extension_part_of(path) {
        Some(extension) => extension,
        None => Seq::<char>::empty(),
    }
}

/// A text that may be missing, as a plain value.
pub open spec fn text_of(text: Option<String>) -> Option<Seq<char>> {
    match text {
        Some(text) => Some(text@),
        None => None,
    }
}

/// Where an input's output goes: the directory, the stem of the input's name, and the input's
/// extension (empty when it has none).
#[derive(Debug)]
pub struct OutputPlan {
    pub directory: String,
    pub stem: String,
    pub extension: String,
}

impl OutputPlan {
    /// The plan is the one that `input` and the caller's choice of directory call for.
    pub open spec fn fits(&self, input: Seq<char>, chosen: Option<Seq<char>>) -> bool {
        &&& directory_for(input, chosen) == Some(self.directory@)
        &&& file_stem_of(input) == Some(self.stem@)
        &&& self.extension@ == extension_or_empty(input)
    }

    /// The path of the output file when it is written with `extension`.
    pub open spec fn file_path(&self, extension: Seq<char>) -> Seq<char> {
        joined(self.directory@, compressed_name(self.stem@, extension))
    }

    /// The path of the output file when it is written with `extension`.
    pub fn output_path(&self, extension: &str) -> (path: String)
        ensures
            path@ == self.file_path(extension@),
    {
        let name = output_file_name(self.stem.as_str(), extension);
        join(self.directory.as_str(), name.as_str())
    }
}

/// `std::path::Path::parent`: the path without its final component, if it has one.
#[verifier::external_body]
fn parent(path: &str) -> (found: Option<String>)
    ensures
        found is Some <==> parent_of(path@) is Some,
        found matches Some(parent) ==> parent_of(path@) == Some(parent@),
{
    Path::new(path).parent().and_then(|p| p.to_str()).map(|p| p.to_string())
}

/// `std::path::Path::file_stem`: the final component without its extension, if there is one.
#[verifier::external_body]
fn file_stem(path: &str) -> (found: Option<String>)
    ensures
        found is Some <==> file_stem_of(path@) is Some,
        found matches Some(stem) ==> file_stem_of(path@) == Some(stem@),
{
    Path::new(path).file_stem().and_then(|s| s.to_str()).map(|s| s.to_string())
}

/// `std::path::Path::extension`: what follows the last dot of the final component, if anything.
#[verifier::external_body]
fn extension(path: &str) -> (found: Option<String>)
    ensures
        found is Some <==> extension_part_of(path@) is Some,
        found matches Some(extension) ==> extension_part_of(path@) == Some(extension@),
{
    Path::new(path).extension().and_then(|e| e.to_str()).map(|e| e.to_string())
}

/// `std::path::Path::join`: `base` with `child` adjoined.
#[verifier::external_body]
pub(crate) fn join(base: &str, child: &str) -> (path: String)
    ensures
        path@ == joined(base@, child@),
{
    Path::new(base).join(child).to_string_lossy().into_owned()
}

/// The name of the output file for an input with this stem, written with this extension.
pub fn output_file_name(stem: &str, extension: &str) -> (name: String)
    ensures
        name@ == compressed_name(stem@, extension@),
{
    String::from_str(stem).concat("_compressed.").concat(extension)
}

/// Decides where the output of one input goes, from what is known of the input's path.
///
/// `input_exists` is what the caller found on disk; `parent`, `stem` and `extension` are the
/// parts of the input's path. A missing input is refused, and so is a path that names no file:
/// one without a stem, or without a parent when no directory was chosen.
pub fn plan_from_parts(
    input_exists: bool,
    chosen: Option<String>,
    parent: Option<String>,
    stem: Option<String>,
    extension: Option<String>,
) -> (result: Result<OutputPlan, Failure>)
    ensures
        result is Ok <==> input_exists && (chosen is Some || parent is Some) && stem is Some,
        result matches Ok(plan) ==> {
            &&& plan.directory@ == match chosen {
                Some(directory) => directory@,
                None => joined(parent.unwrap()@, default_directory_name()),
            }
            &&& plan.stem@ == stem.unwrap()@
            &&& plan.extension@ == match extension {
                Some(extension) => extension@,
                None => Seq::<char>::empty(),
            }
        },
        result matches Err(failure) ==> if !input_exists {
            failure.says(ErrorKind::NotFound, "Input file does not exist"@)
        } else {
            failure.says(ErrorKind::NotFound, "Input path does not name a file"@)
        },
{
    if !input_exists {
        return Err(Failure::new(ErrorKind::NotFound, "Input file does not exist"));
    }
    let directory = match chosen {
        Some(directory) => directory,
        None => match parent {
            Some(beside) => join(beside.as_str(), "compressed"),
            None => {
                return Err(Failure::new(ErrorKind::NotFound, "Input path does not name a file"));
            },
        },
    };
    let stem = match stem {
        Some(stem) => stem,
        None => {
            return Err(Failure::new(ErrorKind::NotFound, "Input path does not name a file"));
        },
    };
    let extension = match extension {
        Some(extension) => extension,
        None => String::new(),
    };
    Ok(OutputPlan { directory, stem, extension })
}

/// Decides where the output of a request goes.
///
/// `input_exists` is what the caller found on disk. A missing input is refused, and so is a path
/// that names no file (one without a parent or without a final component).
pub fn plan_output(request: &CompressionRequest, input_exists: bool) -> (result: Result<
    OutputPlan,
    Failure,
>)
    ensures
        result is Ok <==> input_exists && parent_or_choice(
            request.input_path@,
            request.output_directory,
        ) && file_stem_of(request.input_path@) is Some,
        result matches Ok(plan) ==> plan.fits(
            request.input_path@,
            text_of(request.output_directory),
        ),
        result matches Err(failure) ==> if !input_exists {
            failure.says(ErrorKind::NotFound, "Input file does not exist"@)
        } else {
            failure.says(ErrorKind::NotFound, "Input path does not name a file"@)
        },
{
    let input = request.input_path.as_str();
    let chosen = match &request.output_directory {
        Some(directory) => Some(directory.clone()),
        None => None,
    };
    plan_from_parts(input_exists, chosen, parent(input), file_stem(input), extension(input))
}

/// The caller chose a directory, or the input has a parent to put one beside.
pub open spec fn parent_or_choice(input: Seq<char>, chosen: Option<String>) -> bool {
    chosen is Some || parent_of(input) is Some
}

/// The directory offered when the user has chosen none: `Downloads/compressed` under the home
/// directory, which is `home` if set, else `user_profile` if set, else the current directory.
pub open spec fn default_output_location(home: Option<Seq<char>>, user_profile: Option<Seq<char>>) -> Seq<
    char,
> {
    let root = match home {
        Some(home) => home,
        None => match user_profile {
            Some(profile) => profile,
            None => "."@,
        },
    };
    root + "/Downloads/compressed"@
}

/// The directory offered when the user has chosen none.
pub fn get_default_output_path(home: Option<String>, user_profile: Option<String>) -> (path: String)
    ensures
        path@ == default_output_location(text_of(home), text_of(user_profile)),
{
    let root = match home {
        Some(home) => home,
        None => match user_profile {
            Some(profile) => profile,
            None => String::from_str("."),
        },
    };
    root.concat("/Downloads/compressed")
}

} // verus!
