//! Provisioning of a transcoding executable and the decisions of a media compression pipeline.
//!
//! The crate decides; its caller touches the disk, the network and other processes. [`manager`]
//! walks the phases that make sure the executable is in place, [`archive`] finds the executable
//! in a downloaded archive, [`video`] builds the transcoding command line and reads its outcome,
//! and [`picture`] compresses a still image held in memory.

use vstd::prelude::*;

pub mod archive;
pub mod error;
pub mod manager;
pub mod paths;
pub mod picture;
pub mod platform;
pub mod text;
pub mod video;

verus! {

/// What is to be compressed, and where the result is wanted. Made for one call and not kept.
#[derive(Debug)]
pub struct CompressionRequest {
    /// The path of the input file.
    pub input_path: String,
    /// The directory for the output; `compressed` beside the input where none is given.
    pub output_directory: Option<String>,
}

/// What a compression hands back: the size in bytes of what was written, as measured on disk.
#[derive(Clone, Copy, Debug, PartialEq, Eq, Structural)]
pub struct CompressionResult {
    pub compressed_size: u64,
}

/// The size of a file in bytes.
#[derive(Clone, Copy, Debug, PartialEq, Eq, Structural)]
pub struct FileInfo {
    pub size: u64,
}

} // verus!
