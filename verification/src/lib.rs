//! Reclaims disk space from a game installation: classifies the files of an
//! installation folder into texture quality levels and optional content,
//! decides what a shearing run removes, and searches a volume for
//! installation folders.
//!
//! Every function here works on plain values (names, sizes, listings); the
//! caller reads the disk and carries out the removals that the library
//! decides on.

pub mod helpers;
pub mod job;
pub mod labels;
pub mod names;
pub mod scan;
pub mod settings;
pub mod shears_app;
pub mod types;
pub mod volume;
