//! Decision logic of a small interactive mod installer.
//!
//! The library holds everything the installer decides or computes: how a
//! version token is read out of a release file name, how the latest release is
//! resolved from a metadata document, which files an install step relocates,
//! when a game-engine installation counts as present, how a manual download is
//! detected as complete, and the step-by-step flow of the interactive session.
//! The surrounding program performs the prompts, network transfers and file
//! operations and feeds their outcomes back into these functions.

pub mod driver;
pub mod engine;
pub mod mods;
pub mod poll;
pub mod text;
pub mod version;
