//! A small library for the native shell of a desktop application.
//!
//! Its one piece of logic is the application-path query: given the path of
//! the running executable (or nothing, when the platform could not resolve
//! it), produce the directory the application lives in, falling back to the
//! current directory `"."` whenever no parent directory can be extracted.

pub mod app_path;
