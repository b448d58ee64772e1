//! MD5 checksums of byte streams, the conventional checksum-line format, and
//! verification of files against a checksum manifest.
//!
//! - [`digest`]: the digest engine, which is fed a stream chunk by chunk, the
//!   digest of a stream held in memory, and the checksum line of a file.
//! - [`manifest`]: the manifest format, and the reading of one line.
//! - [`verification`]: the outcome and the report line for each line of a
//!   manifest, and the report of a whole manifest.
//! - [`files`]: files held in memory, for the operations that open a path.
//! - [`hex`]: lowercase hexadecimal rendering.
//!
//! Nothing here reads a file or writes to a terminal: callers hand in bytes
//! and lines, and print the lines they get back.

pub mod digest;
pub mod files;
pub mod hex;
pub mod manifest;
pub mod verification;

pub use crate::digest::{compute_md5, format_line, process_file};
pub use crate::verification::verify_checksums;
