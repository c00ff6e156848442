//! Video: the command line handed to the transcoding executable, and what its outcome means.

use vstd::prelude::*;
use crate::error::{ErrorKind, Failure};
use crate::paths::{
    compressed_name,
    directory_for,
    extension_or_empty,
    file_stem_of,
    joined,
    parent_or_choice,
    plan_output,
    text_of,
};
use crate::text::{chars_of, contains, is_infix};
use crate::{CompressionRequest, CompressionResult};

verus! {

/// What `String::from_utf8_lossy` makes of a run of bytes.
pub uninterp spec fn lossy_text_of(bytes: Seq<u8>) -> Seq<char>;

/// The arguments of one transcoding run, in the order the executable expects them: the input,
/// the video codec and its constant quality, the speed preset, the audio codec and its bitrate,
/// metadata placed for progressive download, overwriting without a prompt, and the output.
pub open spec fn arguments_for(input: Seq<char>, output: Seq<char>) -> Seq<Seq<char>> {
    seq![
        "-i"@,
        input,
        "-c:v"@,
        "libx265"@,
        "-crf"@,
        "28"@,
        "-preset"@,
        "medium"@,
        "-c:a"@,
        "aac"@,
        "-b:a"@,
        "128k"@,
        "-movflags"@,
        "+faststart"@,
        "-y"@,
        output,
    ]
}

/// The text that tells the user to install the executable.
pub open spec fn not_installed_text() -> Seq<char> {
    "ffmpeg is not installed. Please install ffmpeg to compress videos."@
}

/// The diagnostics say that the executable itself was not found.
pub open spec fn reports_missing_tool(diagnostics: Seq<char>) -> bool {
    is_infix("ffmpeg: not found"@, diagnostics) || is_infix("command not found"@, diagnostics)
}

/// How an attempt to run the transcoding executable ended.
#[derive(Debug)]
pub enum Run {
    /// The process could not be started.
    NotStarted,
    /// The process ran to its end; `diagnostics` is what it wrote to standard error.
    Exited { success: bool, diagnostics: Vec<u8> },
}

/// What the end of a process means, given what it wrote to standard error as text: nothing to
/// report after a successful exit; "not installed" when the diagnostics say the executable is
/// missing; else the diagnostics themselves.
pub open spec fn exit_verdict(success: bool, diagnostics: Seq<char>) -> Option<(ErrorKind, Seq<char>)> {
    if success {
        None
    } else if reports_missing_tool(diagnostics) {
        Some((ErrorKind::ToolMissing, not_installed_text()))
    } else {
        Some((ErrorKind::ToolRejectedInput, "Video compression failed: "@ + diagnostics))
    }
}

/// What a run means for the caller: "not installed" when the process could not be started, else
/// what its exit means, with the diagnostics read as text.
pub open spec fn verdict(run: Run) -> Option<(ErrorKind, Seq<char>)> {
    match run {
        Run::NotStarted => Some((ErrorKind::ToolMissing, not_installed_text())),
        Run::Exited { success, diagnostics } => exit_verdict(
            success,
            lossy_text_of(diagnostics@),
        ),
    }
}

/// One transcoding run, ready to be started.
#[derive(Debug)]
pub struct VideoJob {
    /// The directory that has to exist before the run.
    pub output_directory: String,
    /// The file the run writes; its extension is the input's.
    pub output_file: String,
    /// The arguments handed to the executable.
    pub arguments: Vec<String>,
}

impl VideoJob {
    /// The job is the one that transcoding `input` calls for, with the output in the directory
    /// that was chosen, or in `compressed` beside the input.
    pub open spec fn transcodes(&self, input: Seq<char>, chosen: Option<Seq<char>>) -> bool {
        &&& directory_for(input, chosen) == Some(self.output_directory@)
        &&& file_stem_of(input) matches Some(stem)
        &&& self.output_file@ == joined(
            self.output_directory@,
            compressed_name(stem, extension_or_empty(input)),
        )
        &&& self.arguments@.len() == arguments_for(input, self.output_file@).len()
        &&& forall|i: int|
            0 <= i < self.arguments@.len() ==> (#[trigger] self.arguments@[i])@ == arguments_for(
                input,
                self.output_file@,
            )[i]
    }
}

/// `String::from_utf8_lossy`: the bytes as text, with each invalid sequence replaced by U+FFFD.
#[verifier::external_body]
fn lossy_text(bytes: &Vec<u8>) -> (text: String)
    ensures
        text@ == lossy_text_of(bytes@),
{
    String::from_utf8_lossy(bytes).into_owned()
}

/// The arguments for transcoding `input` into `output`.
pub fn transcode_arguments(input: &str, output: &str) -> (arguments: Vec<String>)
    ensures
        arguments@.len() == arguments_for(input@, output@).len(),
        forall|i: int|
            0 <= i < arguments@.len() ==> (#[trigger] arguments@[i])@ == arguments_for(
                input@,
                output@,
            )[i],
{
    let mut arguments: Vec<String> = Vec::new();
    arguments.push(String::from_str("-i"));
    arguments.push(String::from_str(input));
    arguments.push(String::from_str("-c:v"));
    arguments.push(String::from_str("libx265"));
    arguments.push(String::from_str("-crf"));
    arguments.push(String::from_str("28"));
    arguments.push(String::from_str("-preset"));
    arguments.push(String::from_str("medium"));
    arguments.push(String::from_str("-c:a"));
    arguments.push(String::from_str("aac"));
    arguments.push(String::from_str("-b:a"));
    arguments.push(String::from_str("128k"));
    arguments.push(String::from_str("-movflags"));
    arguments.push(String::from_str("+faststart"));
    arguments.push(String::from_str("-y"));
    arguments.push(String::from_str(output));
    arguments
}

/// Whether diagnostics say that the executable itself was not found.
pub fn mentions_missing_tool(diagnostics: &str) -> (missing: bool)
    ensures
        missing == reports_missing_tool(diagnostics@),
{
    let text = chars_of(diagnostics);
    contains(&text, &chars_of("ffmpeg: not found")) || contains(&text, &chars_of("command not found"))
}

/// Classifies the end of a process by its exit and by what it wrote to standard error.
pub fn judge_exit(success: bool, diagnostics: &str) -> (result: Result<(), Failure>)
    ensures
        result is Ok <==> exit_verdict(success, diagnostics@) is None,
        result matches Err(failure) ==> exit_verdict(success, diagnostics@) == Some(
            (failure.kind, failure.message@),
        ),
{
    if success {
        Ok(())
    } else if mentions_missing_tool(diagnostics) {
        Err(
            Failure::new(
                ErrorKind::ToolMissing,
                "ffmpeg is not installed. Please install ffmpeg to compress videos.",
            ),
        )
    } else {
        Err(
            Failure::with_detail(
                ErrorKind::ToolRejectedInput,
                "Video compression failed: ",
                diagnostics,
            ),
        )
    }
}

/// Classifies the outcome of a transcoding run.
pub fn classify_run(run: &Run) -> (result: Result<(), Failure>)
    ensures
        result is Ok <==> verdict(*run) is None,
        result matches Err(failure) ==> verdict(*run) == Some((failure.kind, failure.message@)),
{
    match run {
        Run::NotStarted => Err(
            Failure::new(
                ErrorKind::ToolMissing,
                "ffmpeg is not installed. Please install ffmpeg to compress videos.",
            ),
        ),
        Run::Exited { success, diagnostics } => {
            let text = lossy_text(diagnostics);
            judge_exit(*success, text.as_str())
        },
    }
}

/// Prepares the transcoding of one video.
///
/// `input_exists` is what the caller found on disk. The output keeps the input's extension,
/// since only the streams inside the container are encoded anew.
pub fn plan_video(request: &CompressionRequest, input_exists: bool) -> (result: Result<
    VideoJob,
    Failure,
>)
    ensures
        result is Ok <==> input_exists && parent_or_choice(
            request.input_path@,
            request.output_directory,
        ) && file_stem_of(request.input_path@) is Some,
        result matches Ok(job) ==> job.transcodes(
            request.input_path@,
            text_of(request.output_directory),
        ),
        result matches Err(failure) ==> failure.kind == ErrorKind::NotFound,
{
    match plan_output(request, input_exists) {
        Err(failure) => Err(failure),
        Ok(plan) => {
            let output_file = plan.output_path(plan.extension.as_str());
            let arguments = transcode_arguments(request.input_path.as_str(), output_file.as_str());
            Ok(VideoJob { output_directory: plan.directory.clone(), output_file, arguments })
        },
    }
}

/// What a finished attempt to transcode comes to: the size of the output as measured on disk
/// after a successful run, the failure to measure it, or what the run itself means.
pub open spec fn conclusion(run: Run, measured: Result<u64, String>) -> Result<
    u64,
    (ErrorKind, Seq<char>),
> {
    match verdict(run) {
        Some(failure) => Err(failure),
        None => match measured {
            Ok(size) => Ok(size),
            Err(cause) => Err((ErrorKind::Io, cause@)),
        },
    }
}

/// Concludes the transcoding of one video.
///
/// `measured` is the size of the output file as read from disk, or why it could not be read;
/// it counts only after a successful run.
pub fn conclude_video(run: &Run, measured: Result<u64, String>) -> (result: Result<
    CompressionResult,
    Failure,
>)
    ensures
        result matches Ok(done) ==> conclusion(*run, measured) == Ok::<u64, (ErrorKind, Seq<char>)>(
            done.compressed_size,
        ),
        result matches Err(failure) ==> conclusion(*run, measured) == Err::<
            u64,
            (ErrorKind, Seq<char>),
        >((failure.kind, failure.message@)),
{
    match classify_run(run) {
        Err(failure) => Err(failure),
        Ok(_) => match measured {
            Ok(size) => Ok(CompressionResult { compressed_size: size }),
            Err(cause) => Err(Failure::from_cause(ErrorKind::Io, cause)),
        },
    }
}

/// A run that could not be started reads as "not installed", whatever kept it from starting,
/// and so does a failed run whose diagnostics name the missing executable.
pub proof fn lemma_missing_tool_reads_not_installed(success: bool, diagnostics: Vec<u8>)
    ensures
        verdict(Run::NotStarted) == Some((ErrorKind::ToolMissing, not_installed_text())),
        !success && reports_missing_tool(lossy_text_of(diagnostics@)) ==> verdict(
            Run::Exited { success, diagnostics },
        ) == Some((ErrorKind::ToolMissing, not_installed_text())),
{
}

} // verus!
