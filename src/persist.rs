//! Persisting a temporary file: clear its temporary attribute, move it to its
//! durable name, and put the attribute back if the move fails.
//!
//! The system offers no call that renames and clears the attribute at once,
//! so the protocol is a small state machine. The caller performs the action
//! that [`Persist::action`] names, on [`Persist::old_path`] (and
//! [`Persist::new_path`] for the move), and reports how the call went through
//! [`Persist::advance`], until the action is [`PersistAction::Done`].
use vstd::prelude::*;
use crate::error::{call_result_spec, TempError};
use crate::flags::{
    attr_normal, attr_temporary, move_flags, normal_attribute, persist_move_flags,
    temporary_attribute,
};
use crate::wide::{to_utf16, wide_path};

verus! {

/// Where a persist stands.
#[derive(Debug, PartialEq, Eq)]
pub enum PersistPhase {
    /// Nothing done yet: the file is still marked temporary.
    Ephemeral,
    /// The temporary attribute is cleared; the move is next.
    AttributeCleared,
    /// The move failed with `code`; the attribute is being restored.
    RollingBack { code: i32 },
    /// The protocol is over with `result`.
    Finished { result: Result<(), TempError> },
}

/// The call that the caller makes next.
#[derive(Debug, PartialEq, Eq)]
pub enum PersistAction {
    /// Set the attributes of the file at the old path to `attributes`.
    SetAttributes { attributes: u32 },
    /// Move the old path to the new path with `flags`.
    Move { flags: u32 },
    /// Nothing more to call: report `result`.
    Done { result: Result<(), TempError> },
}

/// The action that each phase asks for.
pub open spec fn action_of(phase: PersistPhase, overwrite: bool) -> PersistAction {
    match phase {
        PersistPhase::Ephemeral => PersistAction::SetAttributes { attributes: attr_normal() },
        PersistPhase::AttributeCleared => PersistAction::Move { flags: move_flags(overwrite) },
        PersistPhase::RollingBack { .. } => PersistAction::SetAttributes {
            attributes: attr_temporary(),
        },
        PersistPhase::Finished { result } => PersistAction::Done { result },
    }
}

/// The phase after the current action's call ended with `outcome`.
///
/// A failure to clear the attribute ends the protocol with that failure and
/// nothing changed. A failed move leads to the rollback, whose own outcome is
/// not reported: the move's failure is.
pub open spec fn next_phase(phase: PersistPhase, outcome: Result<(), i32>) -> PersistPhase {
    match phase {
        PersistPhase::Ephemeral => match outcome {
            Ok(()) => PersistPhase::AttributeCleared,
            Err(_) => PersistPhase::Finished { result: call_result_spec(outcome) },
        },
        PersistPhase::AttributeCleared => match outcome {
            Ok(()) => PersistPhase::Finished { result: Ok(()) },
            Err(code) => PersistPhase::RollingBack { code },
        },
        PersistPhase::RollingBack { code } => PersistPhase::Finished {
            result: Err(TempError::Os { code }),
        },
        PersistPhase::Finished { result } => phase,
    }
}

/// A copy of `r`.
fn copy_result(r: &Result<(), TempError>) -> (c: Result<(), TempError>)
    ensures
        c == *r,
{
    match r {
        Ok(u) => Ok(*u),
        Err(e) => Err(e.duplicate()),
    }
}

/// An ongoing persist of the file at `old_path` to `new_path`.
pub struct Persist {
    /// The temporary file's path, null-terminated UTF-16.
    pub old_path: Vec<u16>,
    /// The durable path, null-terminated UTF-16.
    pub new_path: Vec<u16>,
    /// Whether the move may replace a file already at `new_path`.
    pub overwrite: bool,
    pub phase: PersistPhase,
}

/// Starts persisting the temporary file at `old_path` to `new_path`.
pub fn persist(old_path: &str, new_path: &str, overwrite: bool) -> (r: Persist)
    ensures
        r.old_path@ == wide_path(old_path@),
        r.new_path@ == wide_path(new_path@),
        r.overwrite == overwrite,
        r.phase == PersistPhase::Ephemeral,
{
    Persist {
        old_path: to_utf16(old_path),
        new_path: to_utf16(new_path),
        overwrite,
        phase: PersistPhase::Ephemeral,
    }
}

impl Persist {
    /// The call to make next.
    pub fn action(&self) -> (r: PersistAction)
        ensures
            r == action_of(self.phase, self.overwrite),
    {
        match &self.phase {
            PersistPhase::Ephemeral => PersistAction::SetAttributes {
                attributes: normal_attribute(),
            },
            PersistPhase::AttributeCleared => PersistAction::Move {
                flags: persist_move_flags(self.overwrite),
            },
            PersistPhase::RollingBack { .. } => PersistAction::SetAttributes {
                attributes: temporary_attribute(),
            },
            PersistPhase::Finished { result } => PersistAction::Done { result: copy_result(result) },
        }
    }

    /// Records how the call of [`Persist::action`] ended: `Ok` where it
    /// succeeded, `Err` with the system's error code where it failed.
    pub fn advance(&mut self, outcome: Result<(), i32>)
        requires
            !(old(self).phase is Finished),
        ensures
            final(self).phase == next_phase(old(self).phase, outcome),
            final(self).old_path == old(self).old_path,
            final(self).new_path == old(self).new_path,
            final(self).overwrite == old(self).overwrite,
    {
        let next = match &self.phase {
            PersistPhase::Ephemeral => match outcome {
                Ok(()) => PersistPhase::AttributeCleared,
                Err(code) => PersistPhase::Finished { result: Err(TempError::Os { code }) },
            },
            PersistPhase::AttributeCleared => match outcome {
                Ok(()) => PersistPhase::Finished { result: Ok(()) },
                Err(code) => PersistPhase::RollingBack { code },
            },
            PersistPhase::RollingBack { code } => PersistPhase::Finished {
                result: Err(TempError::Os { code: *code }),
            },
            PersistPhase::Finished { .. } => PersistPhase::Ephemeral,
        };
        self.phase = next;
    }
}

} // verus!
