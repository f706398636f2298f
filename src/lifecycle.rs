//! Keeping a temporary file in place, and deriving a second handle to one.
use vstd::prelude::*;
use crate::flags::{attr_normal, normal_attribute, reopen_open_request, reopen_request, ReopenRequest};
use crate::wide::{to_utf16, wide_path};

verus! {

/// A change of the attributes of the file at `path` (null-terminated UTF-16).
pub struct AttributeChange {
    pub path: Vec<u16>,
    pub attributes: u32,
}

/// The change that keeps the temporary file at `path`: its attributes are
/// reset to normal, so nothing marks it temporary any more. The path stays.
pub fn keep(path: &str) -> (r: AttributeChange)
    ensures
        r.path@ == wide_path(path@),
        r.attributes == attr_normal(),
{
    AttributeChange { path: to_utf16(path), attributes: normal_attribute() }
}

/// How to reopen an open file: read and write access to its data, with every
/// kind of sharing allowed so the new handle blocks no later open, delete or
/// rename.
pub fn reopen() -> (r: ReopenRequest)
    ensures
        r == reopen_request(),
{
    reopen_open_request()
}

} // verus!
