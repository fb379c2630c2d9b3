//! Verified core of a local-first reading and writing application.
//!
//! The library holds the decisions of the application: how the article list
//! reacts to storage results, what the editor produces, how text is measured
//! and previewed, how log lines are cleaned and how the development server
//! configuration is resolved. The browser, the storage engine and the
//! terminal are driven from the application crate around it.

pub mod laws;
pub mod model;
pub mod reading_app;
pub mod serve_config;
pub mod storage;
pub mod text;
