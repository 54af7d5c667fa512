//! Action items: those of all meetings on one page, and those of one meeting.
pub mod grouping;
pub mod items;
pub mod page;
