//! The core of a terminal editor for the metadata tags of audio files: the
//! file list, the tag fields and their edits, the artwork cache, and the
//! state machine that a front end drives with key presses.

pub mod app;
pub mod artwork;
pub mod fields;
pub mod files;
pub mod keys;
pub mod layout;
pub mod tags;
pub mod text;
