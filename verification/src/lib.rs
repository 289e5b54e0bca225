//! The artifact lifecycle of a website builder: reconciling a template
//! library into records, materialising a site from a template, planning
//! preview renders, and issuing short-lived download tokens.

pub mod assoc;
pub mod config;
pub mod handlers;
pub mod models;
pub mod paths;
pub mod services;
pub mod utils;
