//! The data model of a batch run.
//!
//! Scores are carried as fixed-point integers: one score point is
//! `SCORE_SCALE` units, so `92_500_000` stands for a score of 92.5. The
//! floating-point value the metric returns is converted to this
//! representation at the boundary, before it enters the verified core.

use vstd::prelude::*;

use crate::enums::{ColourSpace, ColourTransferCharacteristic};

verus! {

/// Fixed-point units per score point.
pub const SCORE_SCALE: i64 = 1_000_000;

/// The score of one frame, keyed by its position in discovery order.
#[derive(Clone, Copy, Debug, PartialEq, Eq, Structural)]
pub struct FrameResult {
    /// Position of the pair in the enumeration order at discovery time.
    pub frame: u32,
    /// The metric's score in fixed-point units of `1 / SCORE_SCALE`.
    pub ssimulacra2: i64,
}

/// The run configuration handed in by the command line.
#[derive(Clone, Debug)]
pub struct Args {
    /// Original unmodified image, or the folder holding the originals.
    pub source: String,
    /// Distorted image, or the folder holding the distorted copies.
    pub distorted: String,
    /// Where to write the tabular report, if anywhere.
    pub out: Option<String>,
    /// How many workers to use; the host's core count when absent.
    pub threads: Option<usize>,
    /// Whether the two input paths are folders to compare file by file.
    pub folders: bool,
    /// Colour primaries of the inputs.
    pub colour_space: ColourSpace,
    /// Transfer characteristic of the inputs.
    pub colour_transfer: ColourTransferCharacteristic,
}

/// One source image and its distorted counterpart, matched by file name.
#[derive(Clone, Debug)]
pub struct FilePair {
    /// The shared file name.
    pub identifier: String,
    /// Full path of the source-side file.
    pub source_path: String,
    /// Full path of the distorted-side file.
    pub distorted_path: String,
}

/// Why scoring a single pair failed. Such a failure is recorded against
/// the pair and never aborts the rest of the batch.
#[derive(Clone, Copy, Debug, PartialEq, Eq, Structural)]
pub enum ScoreError {
    /// A file could not be opened or decoded as an image.
    DecodeError,
    /// The colour conversion rejected the decoded image.
    ConversionError,
    /// The metric rejected the converted inputs.
    MetricError,
    /// The pair's unit of work did not finish in time.
    TimeoutError,
}

/// A batch-level error, outside any single pair's unit of work.
#[derive(Clone, Copy, Debug, PartialEq, Eq, Structural)]
pub enum BatchError {
    /// An input path is not a readable directory.
    DirectoryNotFound,
    /// Statistics were asked of an empty record set.
    EmptyResultSet,
    /// The report file could not be written.
    IoWriteError,
}

/// A recorded per-pair failure: the pair, its discovery position and the
/// kind of error.
#[derive(Clone, Debug)]
pub struct PairFailure {
    /// Position of the pair in discovery order.
    pub frame: u32,
    /// The pair whose scoring failed.
    pub pair: FilePair,
    /// What went wrong.
    pub error: ScoreError,
}

/// Everything a finished batch produced: one entry per submitted pair,
/// either a record or a failure.
#[derive(Clone, Debug)]
pub struct BatchOutcome {
    /// Successful scores, sorted ascending by frame.
    pub records: Vec<FrameResult>,
    /// Per-pair failures, in the order they were recorded.
    pub failures: Vec<PairFailure>,
}

/// Summary statistics over the successful records of a batch.
#[derive(Clone, Copy, Debug, PartialEq, Eq, Structural)]
pub struct SummaryStatistics {
    /// Smallest score, in fixed-point units.
    pub min: i64,
    /// Largest score, in fixed-point units.
    pub max: i64,
    /// Arithmetic mean of the scores, rounded toward zero, in fixed-point
    /// units.
    pub mean: i64,
    /// How many records the statistics cover.
    pub count: usize,
}

impl ScoreError {
    /// A short name of the failure kind, for diagnostics.
    pub fn label(&self) -> (s: String)
        ensures
            s@ == self.label_spec(),
    {
        match self {
            ScoreError::DecodeError => "DecodeError".to_owned(),
            ScoreError::ConversionError => "ConversionError".to_owned(),
            ScoreError::MetricError => "MetricError".to_owned(),
            ScoreError::TimeoutError => "TimeoutError".to_owned(),
        }
    }

    /// What `label` returns for each variant.
    pub open spec fn label_spec(self) -> Seq<char> {
        match self {
            ScoreError::DecodeError => "DecodeError"@,
            ScoreError::ConversionError => "ConversionError"@,
            ScoreError::MetricError => "MetricError"@,
            ScoreError::TimeoutError => "TimeoutError"@,
        }
    }
}

impl BatchError {
    /// A short name of the error, for diagnostics.
    pub fn label(&self) -> (s: String)
        ensures
            s@ == self.label_spec(),
    {
        match self {
            BatchError::DirectoryNotFound => "DirectoryNotFound".to_owned(),
            BatchError::EmptyResultSet => "EmptyResultSet".to_owned(),
            BatchError::IoWriteError => "IoWriteError".to_owned(),
        }
    }

    /// What `label` returns for each variant.
    pub open spec fn label_spec(self) -> Seq<char> {
        match self {
            BatchError::DirectoryNotFound => "DirectoryNotFound"@,
            BatchError::EmptyResultSet => "EmptyResultSet"@,
            BatchError::IoWriteError => "IoWriteError"@,
        }
    }
}

} // verus!
