//! A model of the file-system calls that the operations drive, and the laws
//! that the operations obey when the system behaves as modelled.
//!
//! A volume maps wide paths to files. Setting attributes keeps a file's data
//! and records whether it is marked temporary; a move fails where the source
//! is missing, or where the target is occupied and replacing was not asked
//! for; an exclusive create fails on an occupied path. Closing every handle
//! removes the files created delete-on-close, and the cleanup after a crash
//! may in addition remove any file still marked temporary.
use vstd::prelude::*;
use crate::error::TempError;
use crate::flags::{
    anonymous_request, attr_normal, attr_temporary, flag_delete_on_close, move_flags,
    move_replace_existing, named_request, OpenRequest,
};
use crate::persist::{action_of, next_phase, PersistAction, PersistPhase};

verus! {

/// A file on the volume.
pub struct Entry {
    pub content: Seq<u8>,
    pub temporary: bool,
    pub delete_on_close: bool,
}

/// Sets the attributes of the file at `path`; fails where there is none.
pub open spec fn set_attributes(vol: Map<Seq<u16>, Entry>, path: Seq<u16>, attributes: u32) -> (
    Map<Seq<u16>, Entry>,
    bool,
) {
    if vol.contains_key(path) {
        let e = vol[path];
        (
            vol.insert(
                path,
                Entry {
                    content: e.content,
                    temporary: attributes & attr_temporary() != 0,
                    delete_on_close: e.delete_on_close,
                },
            ),
            true,
        )
    } else {
        (vol, false)
    }
}

/// Moves the file at `from` to `to`.
pub open spec fn move_file(vol: Map<Seq<u16>, Entry>, from: Seq<u16>, to: Seq<u16>, flags: u32) -> (
    Map<Seq<u16>, Entry>,
    bool,
) {
    if !vol.contains_key(from) {
        (vol, false)
    } else if from == to {
        (vol, true)
    } else if vol.contains_key(to) && flags & move_replace_existing() == 0 {
        (vol, false)
    } else {
        (vol.remove(from).insert(to, vol[from]), true)
    }
}

/// Creates an empty file at `path` as `req` asks.
pub open spec fn create_file(vol: Map<Seq<u16>, Entry>, path: Seq<u16>, req: OpenRequest) -> (
    Map<Seq<u16>, Entry>,
    bool,
) {
    if req.create_new && vol.contains_key(path) {
        (vol, false)
    } else {
        (
            vol.insert(
                path,
                Entry {
                    content: Seq::empty(),
                    temporary: req.custom_flags & attr_temporary() != 0,
                    delete_on_close: req.custom_flags & flag_delete_on_close() != 0,
                },
            ),
            true,
        )
    }
}

/// Replaces the data of the file at `path` through an open handle.
pub open spec fn write_content(vol: Map<Seq<u16>, Entry>, path: Seq<u16>, data: Seq<u8>) -> Map<
    Seq<u16>,
    Entry,
> {
    if vol.contains_key(path) {
        let e = vol[path];
        vol.insert(
            path,
            Entry { content: data, temporary: e.temporary, delete_on_close: e.delete_on_close },
        )
    } else {
        vol
    }
}

/// The volume once every handle is closed.
pub open spec fn close_all(vol: Map<Seq<u16>, Entry>) -> Map<Seq<u16>, Entry> {
    Map::new(|p: Seq<u16>| vol.contains_key(p) && !vol[p].delete_on_close, |p: Seq<u16>| vol[p])
}

/// What surely survives the cleanup after the process died with open handles.
pub open spec fn after_crash(vol: Map<Seq<u16>, Entry>) -> Map<Seq<u16>, Entry> {
    Map::new(
        |p: Seq<u16>| vol.contains_key(p) && !vol[p].delete_on_close && !vol[p].temporary,
        |p: Seq<u16>| vol[p],
    )
}

/// A call's outcome as the caller reports it, `code` being the error code.
pub open spec fn outcome(ok: bool, code: i32) -> Result<(), i32> {
    if ok {
        Ok(())
    } else {
        Err(code)
    }
}

/// Performs a persist action on the model.
pub open spec fn perform(
    vol: Map<Seq<u16>, Entry>,
    old_path: Seq<u16>,
    new_path: Seq<u16>,
    action: PersistAction,
) -> (Map<Seq<u16>, Entry>, bool) {
    match action {
        PersistAction::SetAttributes { attributes } => set_attributes(vol, old_path, attributes),
        PersistAction::Move { flags } => move_file(vol, old_path, new_path, flags),
        PersistAction::Done { .. } => (vol, true),
    }
}

/// One round of the persist protocol: perform the action, report the outcome.
pub open spec fn persist_round(
    vol: Map<Seq<u16>, Entry>,
    old_path: Seq<u16>,
    new_path: Seq<u16>,
    overwrite: bool,
    phase: PersistPhase,
    code: i32,
) -> (Map<Seq<u16>, Entry>, PersistPhase) {
    if phase is Finished {
        (vol, phase)
    } else {
        let (v, ok) = perform(vol, old_path, new_path, action_of(phase, overwrite));
        (v, next_phase(phase, outcome(ok, code)))
    }
}

/// The whole persist protocol run against the model from its start; every
/// failing call reports `code`.
pub open spec fn run_persist(
    vol: Map<Seq<u16>, Entry>,
    old_path: Seq<u16>,
    new_path: Seq<u16>,
    overwrite: bool,
    code: i32,
) -> (Map<Seq<u16>, Entry>, PersistPhase) {
    let (v1, p1) = persist_round(vol, old_path, new_path, overwrite, PersistPhase::Ephemeral, code);
    let (v2, p2) = persist_round(v1, old_path, new_path, overwrite, p1, code);
    persist_round(v2, old_path, new_path, overwrite, p2, code)
}

/// The protocol ends within three rounds, and it reports success only where
/// the file left the old path for the new one with no temporary mark.
pub proof fn lemma_persist_success_is_complete(
    vol: Map<Seq<u16>, Entry>,
    old_path: Seq<u16>,
    new_path: Seq<u16>,
    overwrite: bool,
    code: i32,
)
    requires
        old_path != new_path,
    ensures
        run_persist(vol, old_path, new_path, overwrite, code).1 is Finished,
        run_persist(vol, old_path, new_path, overwrite, code).1 == (PersistPhase::Finished {
            result: Ok(()),
        }) ==> ({
            let v = run_persist(vol, old_path, new_path, overwrite, code).0;
            &&& !v.contains_key(old_path)
            &&& v.contains_key(new_path)
            &&& v[new_path].content == vol[old_path].content
            &&& !v[new_path].temporary
        }),
{
    assert(attr_normal() & attr_temporary() == 0) by (bit_vector);
}

/// A named temporary file created at a free path, written, and persisted
/// without overwrite to another free path ends up at that path alone, holding
/// what was written.
pub proof fn lemma_create_write_persist(
    vol: Map<Seq<u16>, Entry>,
    path: Seq<u16>,
    target: Seq<u16>,
    data: Seq<u8>,
    code: i32,
)
    requires
        !vol.contains_key(path),
        !vol.contains_key(target),
        path != target,
    ensures
        create_file(vol, path, named_request()).1,
        ({
            let written = write_content(create_file(vol, path, named_request()).0, path, data);
            let (v, phase) = run_persist(written, path, target, false, code);
            &&& phase == (PersistPhase::Finished { result: Ok(()) })
            &&& !v.contains_key(path)
            &&& v.contains_key(target)
            &&& v[target].content == data
        }),
{
    assert(attr_normal() & attr_temporary() == 0) by (bit_vector);
}

/// Persisting without overwrite onto an occupied path fails with the move's
/// error and leaves the volume as it was: the file stays at its path, still
/// marked temporary.
pub proof fn lemma_persist_no_overwrite_occupied(
    vol: Map<Seq<u16>, Entry>,
    path: Seq<u16>,
    target: Seq<u16>,
    code: i32,
)
    requires
        vol.contains_key(path),
        vol[path].temporary,
        vol.contains_key(target),
        path != target,
    ensures
        run_persist(vol, path, target, false, code).1 == (PersistPhase::Finished {
            result: Err(TempError::Os { code }),
        }),
        run_persist(vol, path, target, false, code).0 == vol,
{
    assert(attr_temporary() & attr_temporary() != 0) by (bit_vector);
    assert(0u32 & move_replace_existing() == 0) by (bit_vector);
    let (v, _) = run_persist(vol, path, target, false, code);
    assert(v =~= vol);
}

/// Persisting with overwrite succeeds whether or not the target is occupied,
/// and the target then holds the file's prior content.
pub proof fn lemma_persist_overwrite(
    vol: Map<Seq<u16>, Entry>,
    path: Seq<u16>,
    target: Seq<u16>,
    code: i32,
)
    requires
        vol.contains_key(path),
        path != target,
    ensures
        ({
            let (v, phase) = run_persist(vol, path, target, true, code);
            &&& phase == (PersistPhase::Finished { result: Ok(()) })
            &&& !v.contains_key(path)
            &&& v.contains_key(target)
            &&& v[target].content == vol[path].content
        }),
{
    assert(move_flags(true) & move_replace_existing() != 0) by (bit_vector)
        requires move_flags(true) == 1u32;
}

/// A named temporary file that is written and then kept survives a crash
/// with its content.
pub proof fn lemma_keep_survives_crash(vol: Map<Seq<u16>, Entry>, path: Seq<u16>, data: Seq<u8>)
    requires
        !vol.contains_key(path),
    ensures
        ({
            let written = write_content(create_file(vol, path, named_request()).0, path, data);
            let (kept, ok) = set_attributes(written, path, attr_normal());
            &&& ok
            &&& after_crash(kept).contains_key(path)
            &&& after_crash(kept)[path].content == data
        }),
{
    assert(attr_normal() & attr_temporary() == 0) by (bit_vector);
    assert(attr_temporary() & flag_delete_on_close() == 0) by (bit_vector);
}

/// An anonymous temporary file is created at a free path, open for reading and
/// writing, and is gone once its handles close, whatever was written to it.
pub proof fn lemma_anonymous_gone_after_close(
    vol: Map<Seq<u16>, Entry>,
    path: Seq<u16>,
    data: Seq<u8>,
)
    requires
        !vol.contains_key(path),
    ensures
        anonymous_request().read && anonymous_request().write,
        named_request().read && named_request().write,
        create_file(vol, path, anonymous_request()).1,
        !close_all(write_content(create_file(vol, path, anonymous_request()).0, path, data)).contains_key(path),
{
    assert((attr_temporary() | flag_delete_on_close()) & flag_delete_on_close() != 0) by (bit_vector);
}

/// Exclusive creates at the candidate paths in turn, as `req` asks: the
/// volume after them and the paths of the creates that succeeded, in order.
pub open spec fn create_each(vol: Map<Seq<u16>, Entry>, paths: Seq<Seq<u16>>, req: OpenRequest) -> (
    Map<Seq<u16>, Entry>,
    Seq<Seq<u16>>,
)
    decreases paths.len(),
{
    if paths.len() == 0 {
        (vol, Seq::empty())
    } else {
        let (v, made) = create_each(vol, paths.drop_last(), req);
        let (v2, ok) = create_file(v, paths.last(), req);
        if ok {
            (v2, made.push(paths.last()))
        } else {
            (v, made)
        }
    }
}

/// However the candidate names of several creators collide, the exclusive
/// creates that succeed are at distinct paths, none of them occupied before,
/// and each holds a file afterwards.
pub proof fn lemma_exclusive_creates_distinct(
    vol: Map<Seq<u16>, Entry>,
    paths: Seq<Seq<u16>>,
    req: OpenRequest,
)
    requires
        req.create_new,
    ensures
        ({
            let (v, made) = create_each(vol, paths, req);
            &&& forall|i: int, j: int| 0 <= i < j < made.len() ==> made[i] != made[j]
            &&& forall|i: int| 0 <= i < made.len() ==> !vol.contains_key(#[trigger] made[i])
            &&& forall|i: int| 0 <= i < made.len() ==> v.contains_key(#[trigger] made[i])
            &&& forall|p: Seq<u16>| vol.contains_key(p) ==> v.contains_key(p)
        }),
    decreases paths.len(),
{
    if paths.len() > 0 {
        lemma_exclusive_creates_distinct(vol, paths.drop_last(), req);
        let (v, made) = create_each(vol, paths.drop_last(), req);
        let (v2, ok) = create_file(v, paths.last(), req);
        if ok {
            let made2 = made.push(paths.last());
            assert(!v.contains_key(paths.last()));
            assert forall|i: int, j: int| 0 <= i < j < made2.len() implies made2[i] != made2[j] by {
                if j == made.len() {
                    assert(v.contains_key(made[i]));
                } else {
                    assert(made2[i] == made[i] && made2[j] == made[j]);
                }
            }
            assert forall|i: int| 0 <= i < made2.len() implies !vol.contains_key(#[trigger] made2[i]) by {
                if i < made.len() {
                    assert(made2[i] == made[i]);
                }
            }
            assert forall|i: int| 0 <= i < made2.len() implies v2.contains_key(#[trigger] made2[i]) by {
                if i < made.len() {
                    assert(made2[i] == made[i]);
                    assert(v.contains_key(made[i]));
                }
            }
        }
    }
}

} // verus!
