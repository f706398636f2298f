//! The Windows flag words that the operations pass to the system, taken from
//! `windows_sys`, and the open requests built from them.
use vstd::prelude::*;
use windows_sys::Win32::Storage::FileSystem::{
    FILE_ATTRIBUTE_NORMAL, FILE_ATTRIBUTE_TEMPORARY, FILE_FLAG_DELETE_ON_CLOSE, FILE_GENERIC_READ,
    FILE_GENERIC_WRITE, FILE_SHARE_DELETE, FILE_SHARE_READ, FILE_SHARE_WRITE,
    MOVEFILE_REPLACE_EXISTING,
};

verus! {

/// Attribute word that marks a file as temporary (ephemeral).
pub open spec fn attr_temporary() -> u32 {
    0x100
}

/// Attribute word that clears every other attribute.
pub open spec fn attr_normal() -> u32 {
    0x80
}

/// Creation flag: the system removes the file once its last handle closes.
pub open spec fn flag_delete_on_close() -> u32 {
    0x0400_0000
}

/// Generic read access to a file's data and attributes.
pub open spec fn access_read() -> u32 {
    0x0012_0089
}

/// Generic write access to a file's data and attributes.
pub open spec fn access_write() -> u32 {
    0x0012_0116
}

/// Share mode: others may read.
pub open spec fn share_read() -> u32 {
    0x1
}

/// Share mode: others may write.
pub open spec fn share_write() -> u32 {
    0x2
}

/// Share mode: others may delete or rename.
pub open spec fn share_delete() -> u32 {
    0x4
}

/// Move flag: the move may replace an existing file at the target.
pub open spec fn move_replace_existing() -> u32 {
    0x1
}

/// Relies on `windows_sys` `FILE_ATTRIBUTE_TEMPORARY`, declared as `256u32`.
#[verifier::external_body]
pub(crate) fn temporary_attribute() -> (r: u32)
    ensures
        r == attr_temporary(),
{
    FILE_ATTRIBUTE_TEMPORARY
}

/// Relies on `windows_sys` `FILE_ATTRIBUTE_NORMAL`, declared as `128u32`.
#[verifier::external_body]
pub(crate) fn normal_attribute() -> (r: u32)
    ensures
        r == attr_normal(),
{
    FILE_ATTRIBUTE_NORMAL
}

/// Relies on `windows_sys` `FILE_FLAG_DELETE_ON_CLOSE`, declared as `67108864u32`.
#[verifier::external_body]
pub(crate) fn delete_on_close_flag() -> (r: u32)
    ensures
        r == flag_delete_on_close(),
{
    FILE_FLAG_DELETE_ON_CLOSE
}

/// Relies on `windows_sys` `FILE_GENERIC_READ`, declared as `1179785u32`.
#[verifier::external_body]
pub(crate) fn generic_read() -> (r: u32)
    ensures
        r == access_read(),
{
    FILE_GENERIC_READ
}

/// Relies on `windows_sys` `FILE_GENERIC_WRITE`, declared as `1179926u32`.
#[verifier::external_body]
pub(crate) fn generic_write() -> (r: u32)
    ensures
        r == access_write(),
{
    FILE_GENERIC_WRITE
}

/// Relies on `windows_sys` `FILE_SHARE_READ`, declared as `1u32`.
#[verifier::external_body]
pub(crate) fn share_read_mode() -> (r: u32)
    ensures
        r == share_read(),
{
    FILE_SHARE_READ
}

/// Relies on `windows_sys` `FILE_SHARE_WRITE`, declared as `2u32`.
#[verifier::external_body]
pub(crate) fn share_write_mode() -> (r: u32)
    ensures
        r == share_write(),
{
    FILE_SHARE_WRITE
}

/// Relies on `windows_sys` `FILE_SHARE_DELETE`, declared as `4u32`.
#[verifier::external_body]
pub(crate) fn share_delete_mode() -> (r: u32)
    ensures
        r == share_delete(),
{
    FILE_SHARE_DELETE
}

/// Relies on `windows_sys` `MOVEFILE_REPLACE_EXISTING`, declared as `1u32`.
#[verifier::external_body]
pub(crate) fn replace_existing_flag() -> (r: u32)
    ensures
        r == move_replace_existing(),
{
    MOVEFILE_REPLACE_EXISTING
}

/// How to open a new file: the options a caller sets on an `OpenOptions`.
#[derive(Debug, Clone, Copy, PartialEq, Eq)]
pub struct OpenRequest {
    /// Fail if the path is already occupied (exclusive create).
    pub create_new: bool,
    pub read: bool,
    pub write: bool,
    /// The share mode to set, or `None` to leave the platform default.
    pub share_mode: Option<u32>,
    /// Attribute and flag word passed at creation.
    pub custom_flags: u32,
}

/// A named temporary file: exclusive create, read and write, marked temporary.
pub open spec fn named_request() -> OpenRequest {
    OpenRequest {
        create_new: true,
        read: true,
        write: true,
        share_mode: None,
        custom_flags: attr_temporary(),
    }
}

/// An anonymous temporary file: as a named one, but unshared and removed by
/// the system when its last handle closes.
pub open spec fn anonymous_request() -> OpenRequest {
    OpenRequest {
        create_new: true,
        read: true,
        write: true,
        share_mode: Some(0),
        custom_flags: attr_temporary() | flag_delete_on_close(),
    }
}

/// The open request for a named temporary file.
pub fn named_open_request() -> (r: OpenRequest)
    ensures
        r == named_request(),
{
    OpenRequest {
        create_new: true,
        read: true,
        write: true,
        share_mode: None,
        custom_flags: temporary_attribute(),
    }
}

/// The open request for an anonymous temporary file.
pub fn anonymous_open_request() -> (r: OpenRequest)
    ensures
        r == anonymous_request(),
{
    OpenRequest {
        create_new: true,
        read: true,
        write: true,
        share_mode: Some(0),
        custom_flags: temporary_attribute() | delete_on_close_flag(),
    }
}

/// How to derive a second handle from an open one.
#[derive(Debug, Clone, Copy, PartialEq, Eq)]
pub struct ReopenRequest {
    pub access: u32,
    pub share_mode: u32,
    pub flags: u32,
}

/// Data access for reading and writing, and the broadest sharing.
pub open spec fn reopen_request() -> ReopenRequest {
    ReopenRequest {
        access: access_read() | access_write(),
        share_mode: share_delete() | share_read() | share_write(),
        flags: 0,
    }
}

/// The request for a second handle to an open file.
pub fn reopen_open_request() -> (r: ReopenRequest)
    ensures
        r == reopen_request(),
{
    ReopenRequest {
        access: generic_read() | generic_write(),
        share_mode: share_delete_mode() | share_read_mode() | share_write_mode(),
        flags: 0,
    }
}

/// Replacing an existing target only where overwriting was asked for.
pub open spec fn move_flags(overwrite: bool) -> u32 {
    if overwrite {
        move_replace_existing()
    } else {
        0
    }
}

/// The flags of the move that `persist` makes.
pub fn persist_move_flags(overwrite: bool) -> (r: u32)
    ensures
        r == move_flags(overwrite),
{
    let mut flags: u32 = 0;
    if overwrite {
        flags = flags | replace_existing_flag();
    }
    assert(0u32 | 1u32 == 1u32) by (bit_vector);
    flags
}

} // verus!
