//! The logic of a privacy-first meeting recorder: what it records, shows,
//! cleans up, groups, names and notifies about.
//!
//! Everything here works on plain values. Reading files, talking to the
//! database, drawing windows and running models is left to the program that
//! links this library.
pub mod text;
pub mod words;
pub mod numbers;
pub mod recording;
pub mod sorting;
pub mod clock;
pub mod paths;
pub mod text_map;
pub mod whisper;
pub mod settings;
pub mod fonts;
pub mod notifications;
pub mod updates;
pub mod shell;
pub mod tray;
pub mod action_items;
pub mod import;
pub mod onboarding;
pub mod json;
pub mod meeting;
pub mod laws;
