//! Core of a small audio-download tool: a user picks a removable drive,
//! pastes a video link, and gets an audio file on that drive.  This crate
//! holds the verified logic — link validation, the provisioning plan for the
//! two helper binaries, archive-entry selection, the downloader's argument
//! template, and the orchestration state machine that sequences it all.
//! Network, disk and process work is performed by the surrounding program,
//! which feeds outcomes back in as events.

pub mod archive;
pub mod converter;
pub mod drives;
pub mod link;
pub mod provision;
pub mod text;
pub mod yt;
