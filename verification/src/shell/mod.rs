//! The window around the pages: the sidebar's meeting list, and navigation.
pub mod meeting_list;
pub mod navigation;
