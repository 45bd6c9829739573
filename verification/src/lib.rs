//! Cue sheets from music-release metadata.
//!
//! A release spans one or more media (discs). For each medium the library
//! produces one cue sheet: a header block shared by all media of the release,
//! a title line, and one block per track whose `INDEX 01` line carries the
//! track's start, the sum of the lengths of the tracks before it, at CD-frame
//! resolution (75 frames per second).
//!
//! - [`release`]: the metadata of a release, and its mathematical model
//! - [`timecode`]: millisecond offsets as `MM:SS:FF`
//! - [`date`]: release dates and how a cue sheet shows them
//! - [`header`]: the header block of a release
//! - [`cuesheet`]: the cue sheet of a medium, the cue sheets of a release
//! - [`artwork`]: the plan for downloading cover art
//! - [`text`]: numbers as decimal text
//!
//! The library reads its input and builds new text; it writes no file and
//! fetches nothing. Every function is verified against a contract stated over
//! the models; the three calls into `chrono`, in [`date`], are the only code
//! whose contracts are taken on trust.

pub mod artwork;
pub mod cuesheet;
pub mod date;
pub mod header;
pub mod release;
pub mod text;
pub mod timecode;
