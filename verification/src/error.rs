//! The error taxonomy of the library: every fallible operation returns
//! one of these variants, carrying enough context to diagnose the failure
//! without re-running the external tool.

use vstd::prelude::*;

verus! {

/// One error value for every failure the layer can observe.
#[derive(Debug)]
pub enum LvmError {
    /// The external command could not be started at all.
    CouldNotStart { tool: String, detail: String },
    /// The external command ran but exited with a failure status;
    /// `stderr` carries its standard-error text verbatim.
    CommandFailed { tool: String, stderr: String },
    /// The command's standard output was not valid JSON.
    InvalidJson { tool: String },
    /// The JSON was valid but did not have the expected nested shape,
    /// or a row was missing a field; `context` names what was expected.
    BadShape { context: String },
    /// A report field that should be numeric could not be converted;
    /// carries the field name and the malformed text.
    FieldConversion { field: String, value: String },
    /// No row of the volume-group report matched the requested name.
    GroupNotFound { name: String },
    /// A volume was created but the follow-up listing did not show it.
    VolumeNotFound { name: String },
    /// A supplied filesystem path had no extractable final component.
    NoFileName { path: String },
}

impl LvmError {
    /// A human-readable description of the failure, naming the
    /// offending command, field or entity.
    pub fn message(&self) -> (r: String)
        ensures
            match self {
                LvmError::CouldNotStart { tool, detail } => r@ == tool@ + " could not start: "@
                    + detail@,
                LvmError::CommandFailed { tool, stderr } => r@ == tool@ + " failed: "@ + stderr@,
                LvmError::InvalidJson { tool } => r@ == "failed to parse "@ + tool@
                    + " output as json"@,
                LvmError::BadShape { context } => r@ == "unexpected report shape: "@ + context@,
                LvmError::FieldConversion { field, value } => r@ == "cannot convert field "@
                    + field@ + " from "@ + value@,
                LvmError::GroupNotFound { name } => r@ == "unable to get report for vg "@ + name@,
                LvmError::VolumeNotFound { name } => r@ == "unable to find new volume "@ + name@,
                LvmError::NoFileName { path } => r@ == "path has no filename: "@ + path@,
            },
    {
        match self {
            LvmError::CouldNotStart { tool, detail } => {
                let mut m = tool.clone();
                m.append(" could not start: ");
                m.append(detail.as_str());
                m
            },
            LvmError::CommandFailed { tool, stderr } => {
                let mut m = tool.clone();
                m.append(" failed: ");
                m.append(stderr.as_str());
                m
            },
            LvmError::InvalidJson { tool } => {
                let mut m = String::from_str("failed to parse ");
                m.append(tool.as_str());
                m.append(" output as json");
                m
            },
            LvmError::BadShape { context } => {
                let mut m = String::from_str("unexpected report shape: ");
                m.append(context.as_str());
                m
            },
            LvmError::FieldConversion { field, value } => {
                let mut m = String::from_str("cannot convert field ");
                m.append(field.as_str());
                m.append(" from ");
                m.append(value.as_str());
                m
            },
            LvmError::GroupNotFound { name } => {
                let mut m = String::from_str("unable to get report for vg ");
                m.append(name.as_str());
                m
            },
            LvmError::VolumeNotFound { name } => {
                let mut m = String::from_str("unable to find new volume ");
                m.append(name.as_str());
                m
            },
            LvmError::NoFileName { path } => {
                let mut m = String::from_str("path has no filename: ");
                m.append(path.as_str());
                m
            },
        }
    }
}

} // verus!
