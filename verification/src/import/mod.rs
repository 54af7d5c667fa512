//! Importing a recording from an audio file.
pub mod files;
pub mod dialog;
