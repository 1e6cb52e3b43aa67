//! Build orchestration for bootable OS images: architecture model, project
//! classification, target resolution, the fail-fast build plan, and the
//! capacity-checked image volume.
pub mod arch;
pub mod error;
pub mod project;
pub mod pipeline;
pub mod image;
