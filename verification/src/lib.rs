//! Verified core of a self-updating installer for a multi-year game-client
//! distribution.
//!
//! The library holds the decision pipeline of a bootstrap run: resolving and
//! comparing version tokens, classifying the installation state, the retry
//! policy of the resilient downloader, tolerant planning of an archive
//! extraction, the state machine that sequences a whole run, and the parser
//! for the launch URI. All network and filesystem work stays outside, in the
//! thin shell that drives this library.

pub mod archive;
pub mod bytes;
pub mod config;
pub mod download;
pub mod machine;
pub mod prompt;
pub mod uri;
pub mod version;
