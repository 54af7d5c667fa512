//! What is promised of each feature, said of what goes into its functions and of
//! what comes out of them.
pub mod frames;
pub mod texts;
pub mod cleaning;
pub mod items;
pub mod sidebar;
pub mod recording;
pub mod copying;
pub mod calendar;
pub mod summary;
pub mod speakers;
pub mod meeting;
pub mod files;
pub mod desktop;
pub mod setup;
pub mod speech;
pub mod settings;
