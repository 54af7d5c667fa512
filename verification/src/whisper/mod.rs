//! Speech recognition: the models on disk, the engine that holds one of them,
//! and the clean-up of what it says.
pub mod cleanup;
pub mod decode;
pub mod ellipses;
pub mod lease;
pub mod models;
pub mod engine;
pub mod download;
pub mod commands;
