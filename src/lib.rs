//! Favicon generation support: command-line option normalization and the
//! quick-start HTML template keyed by the selected platforms.
pub mod args;
pub mod template;
