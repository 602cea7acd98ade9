//! The conditions that end a run.

use crate::text::{decimal, decimal_digits};
use vstd::prelude::*;
use vstd::string::StringExecFns;

verus! {

/// A fatal condition: the run it ends produces no statistics.
#[derive(Debug, Clone, PartialEq, Eq)]
pub enum PipelineError {
    /// The input holds more whole megabytes than the limit allows.
    InputTooLarge { max_mb: usize, actual_mb: u64 },
    /// The input could not be opened or read.
    InputUnreadable { reason: String },
    /// The output could not be created, written or flushed.
    OutputUnwritable { reason: String },
    /// The projection of the record at `index` could not be serialised.
    Serialization { index: usize },
}

/// The message of an oversized input.
pub open spec fn too_large_message(max_mb: nat, actual_mb: nat) -> Seq<char> {
    "File too large. Max allowed: "@ + decimal_digits(max_mb) + "MB, Current: "@ + decimal_digits(
        actual_mb,
    ) + "MB"@
}

impl PipelineError {
    /// The message of this error, as text.
    pub open spec fn message_spec(&self) -> Seq<char> {
        match self {
            PipelineError::InputTooLarge { max_mb, actual_mb } => too_large_message(
                *max_mb as nat,
                *actual_mb as nat,
            ),
            PipelineError::InputUnreadable { reason } => "Input unreadable: "@ + reason@,
            PipelineError::OutputUnwritable { reason } => "Output unwritable: "@ + reason@,
            PipelineError::Serialization { index } => "Cannot serialize the projection of record "@
                + decimal_digits(*index as nat),
        }
    }

    /// The message of this error.
    pub fn message(&self) -> (m: String)
        ensures
            m@ == self.message_spec(),
    {
        match self {
            PipelineError::InputTooLarge { max_mb, actual_mb } => {
                let mut m = String::from_str("File too large. Max allowed: ");
                let limit = decimal(*max_mb as u64);
                m.append(limit.as_str());
                m.append("MB, Current: ");
                let actual = decimal(*actual_mb);
                m.append(actual.as_str());
                m.append("MB");
                m
            },
            PipelineError::InputUnreadable { reason } => {
                let mut m = String::from_str("Input unreadable: ");
                m.append(reason.as_str());
                m
            },
            PipelineError::OutputUnwritable { reason } => {
                let mut m = String::from_str("Output unwritable: ");
                m.append(reason.as_str());
                m
            },
            PipelineError::Serialization { index } => {
                let mut m = String::from_str("Cannot serialize the projection of record ");
                let at = decimal(*index as u64);
                m.append(at.as_str());
                m
            },
        }
    }
}

} // verus!
