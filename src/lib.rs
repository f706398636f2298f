//! Lifecycle decisions for self-cleaning temporary files on Windows.
//!
//! The library computes everything that a Windows backend for temporary files
//! decides: how paths are encoded for the wide-character API, which flags a
//! create or reopen asks for, how the random-name retry loop reacts to each
//! outcome, and the two-phase `persist` protocol with its rollback. The calls
//! into the operating system themselves are made by the caller, who hands each
//! outcome back.
pub mod create;
pub mod error;
pub mod flags;
pub mod lifecycle;
pub mod model;
pub mod persist;
pub mod wide;
