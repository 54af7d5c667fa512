//! The page of one meeting: its transcript, summary, speakers, notes, action
//! items and calendar event.
pub mod format;
pub mod speaker_chip;
pub mod calendar;
pub mod summary;
pub mod retranscribe;
pub mod speakers;
pub mod notes;
pub mod items;
pub mod page;
