//! File-system locations used when exporting.
use vstd::prelude::*;

use std::path::PathBuf;

verus! {

#[verifier::external_type_specification]
#[verifier::external_body]
pub struct ExPathBuf(std::path::PathBuf);

/// Relies on `PathBuf::from`: an owned path holding the given text.
#[verifier::external_body]
fn path_from(s: &str) -> (r: PathBuf) {
    PathBuf::from(s)
}

/// Relies on `PathBuf::push`: extends the path by one component.
#[verifier::external_body]
fn path_push(p: &mut PathBuf, s: &str) {
    p.push(s)
}

/// A fixed location for an export file, used while debugging.
pub fn get_writable_path() -> PathBuf {
    let mut path = path_from("C:\\Users\\zephr\\Desktop\\SC");
    path_push(&mut path, "export.csv");
    path
}

} // verus!
