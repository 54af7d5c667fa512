//! The recording page: the live transcript, the controls, and what each event
//! of a running recording changes.
pub mod controls;
pub mod devices;
pub mod page;
pub mod rows;
