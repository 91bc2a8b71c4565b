//! Retroactively dates photos from the date and time written in their file names.
//!
//! The library holds the logic: which dates and times a file name carries, what
//! the tool decides for each asset, and the requests it sends. The program in
//! `app/` performs the HTTP requests and prints what the library reports.

pub mod digits;

pub mod civil;
pub mod pattern;
pub mod extract;
pub mod immich;
pub mod config;
pub mod run;
pub mod laws;
