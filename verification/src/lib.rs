//! Deployment helper for game-client archives.
//!
//! The library locates archive files by name and extension, maps logical
//! archive names to configuration directories on enumerated volumes,
//! plans the writes that unpacking a ZIP archive performs, and formats
//! the lines of the error log.  Everything that touches the file system,
//! the console or the platform stays outside this crate.

pub mod chars;
pub mod dispatch;
pub mod locator;
pub mod logsink;
pub mod messages;
pub mod paths;
pub mod planner;
pub mod resolver;
pub mod volumes;
pub mod zip_extract;
