//! The settings: what is stored, what each page shows of it, and what each
//! change to it does.
pub mod config;
pub mod models;
pub mod integrations;
pub mod cache;
pub mod pages;
