//! A typed access layer over a host's logical-volume-management subsystem.
//!
//! The library parses the JSON reports of the external `lvs` and `vgs`
//! tools into typed records, derives volume-group and logical-volume
//! entities from filesystem paths, and decides the outcome of a thin-volume
//! creation from the tool outputs that the caller hands in.  Everything
//! that runs a process lives outside this crate; the functions here work
//! on plain captured output.

pub mod error;
pub mod json;
pub mod parse;
pub mod query;
pub mod volume;

pub use error::LvmError;
pub use query::lvs;
pub use query::vgs;
pub use volume::LogicalVolume;
pub use volume::LogicalVolumeReport;
pub use volume::ToolOutput;
pub use volume::VolumeGroup;
pub use volume::VolumeGroupReport;
