//! Rewrites files so that only printable ASCII, tabs and line feeds remain,
//! and keeps the state of the window that drives it.
//!
//! Every function here is verified against its contract; what is taken on
//! trust from the standard library stands in `platform`. Reading and
//! writing files, the window itself and the file dialogs are left to the
//! program around this library: it performs the requests that the library
//! hands out and reports back what happened.

pub mod ascii;
pub mod platform;
pub mod fix_file;
pub mod batch;
pub mod gui;
pub mod strip_home;
pub mod descent;
