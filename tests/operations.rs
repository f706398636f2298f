use wintemp::create::{create, create_named, NameSearch, OpenOutcome, SearchStep, NUM_RAND_CHARS};
use wintemp::error::{call_result, not_supported, TempError};
use wintemp::lifecycle::{keep, reopen};
use wintemp::persist::{persist, Persist, PersistAction, PersistPhase};
use wintemp::wide::to_utf16;

#[test]
fn utf16_ascii_path_is_null_terminated() {
    assert_eq!(to_utf16("C:\\t\\a.tmp"), vec![67, 58, 92, 116, 92, 97, 46, 116, 109, 112, 0]);
}

#[test]
fn utf16_empty_path() {
    assert_eq!(to_utf16(""), vec![0]);
}

#[test]
fn utf16_surrogate_pairs() {
    assert_eq!(to_utf16("\u{e9}\u{1d11e}\u{10ffff}"), vec![0xE9, 0xD834, 0xDD1E, 0xDBFF, 0xDFFF, 0]);
}

#[test]
fn not_supported_carries_message() {
    let r: Result<u8, TempError> = not_supported("no way");
    assert_eq!(r, Err(TempError::Unsupported { msg: "no way".to_string() }));
}

#[test]
fn call_result_maps_codes() {
    assert_eq!(call_result(Ok(())), Ok(()));
    assert_eq!(call_result(Err(5)), Err(TempError::Os { code: 5 }));
}

#[test]
fn create_named_readonly_is_unsupported() {
    match create_named(true) {
        Err(TempError::Unsupported { msg }) => {
            assert_eq!(msg, "changing permissions is not supported on this platform")
        }
        other => panic!("unexpected {:?}", other),
    }
}

#[test]
fn create_named_request() {
    let r = create_named(false).unwrap();
    assert!(r.create_new && r.read && r.write);
    assert_eq!(r.share_mode, None);
    assert_eq!(r.custom_flags, 0x100);
}

#[test]
fn create_anonymous_candidate() {
    let c = create("a1B2c3");
    assert_eq!(c.file_name, ".tmpa1B2c3");
    assert!(c.request.create_new && c.request.read && c.request.write);
    assert_eq!(c.request.share_mode, Some(0));
    assert_eq!(c.request.custom_flags, 0x0400_0100);
    assert_eq!(NUM_RAND_CHARS, 6);
}

#[test]
fn search_retries_occupied_names_until_budget() {
    let mut s = NameSearch::new(3);
    assert_eq!(s.step(), SearchStep::Try);
    assert_eq!(s.record(OpenOutcome::Exists), SearchStep::Try);
    assert_eq!(s.record(OpenOutcome::Exists), SearchStep::Try);
    assert_eq!(
        s.record(OpenOutcome::Exists),
        SearchStep::Finished { result: Err(TempError::Exhausted) }
    );
    assert_eq!(s.attempts, 3);
}

#[test]
fn search_with_no_budget_is_exhausted() {
    let s = NameSearch::new(0);
    assert_eq!(s.step(), SearchStep::Finished { result: Err(TempError::Exhausted) });
}

#[test]
fn search_stops_on_success_or_other_failure() {
    let mut s = NameSearch::new(10);
    assert_eq!(s.record(OpenOutcome::Exists), SearchStep::Try);
    assert_eq!(s.record(OpenOutcome::Opened), SearchStep::Finished { result: Ok(()) });
    let mut t = NameSearch::new(10);
    assert_eq!(
        t.record(OpenOutcome::Failed { code: 5 }),
        SearchStep::Finished { result: Err(TempError::Os { code: 5 }) }
    );
    assert_eq!(t.attempts, 0);
}

#[test]
fn reopen_request_shares_everything() {
    let r = reopen();
    assert_eq!(r.access, 0x0012_019F);
    assert_eq!(r.share_mode, 7);
    assert_eq!(r.flags, 0);
}

#[test]
fn keep_resets_attributes_in_place() {
    let k = keep("a.tmp");
    assert_eq!(k.path, vec![97, 46, 116, 109, 112, 0]);
    assert_eq!(k.attributes, 0x80);
}

fn drive(m: &mut Persist, outcomes: &[Result<(), i32>]) -> (Vec<PersistAction>, Result<(), TempError>) {
    let mut actions = Vec::new();
    let mut i = 0;
    loop {
        match m.action() {
            PersistAction::Done { result } => return (actions, result),
            a => {
                actions.push(a);
                m.advance(outcomes[i]);
                i += 1;
            }
        }
    }
}

#[test]
fn persist_success() {
    let mut m = persist("a", "b", false);
    assert_eq!(m.old_path, vec![97, 0]);
    assert_eq!(m.new_path, vec![98, 0]);
    assert_eq!(m.phase, PersistPhase::Ephemeral);
    let (actions, result) = drive(&mut m, &[Ok(()), Ok(())]);
    assert_eq!(
        actions,
        vec![PersistAction::SetAttributes { attributes: 0x80 }, PersistAction::Move { flags: 0 }]
    );
    assert_eq!(result, Ok(()));
}

#[test]
fn persist_overwrite_sets_replace_flag() {
    let mut m = persist("a", "b", true);
    let (actions, result) = drive(&mut m, &[Ok(()), Ok(())]);
    assert_eq!(actions[1], PersistAction::Move { flags: 1 });
    assert_eq!(result, Ok(()));
}

#[test]
fn persist_stops_when_attribute_cannot_be_cleared() {
    let mut m = persist("a", "b", false);
    let (actions, result) = drive(&mut m, &[Err(2)]);
    assert_eq!(actions, vec![PersistAction::SetAttributes { attributes: 0x80 }]);
    assert_eq!(result, Err(TempError::Os { code: 2 }));
}

#[test]
fn persist_rolls_back_after_failed_move() {
    let mut m = persist("a", "b", false);
    let (actions, result) = drive(&mut m, &[Ok(()), Err(183), Ok(())]);
    assert_eq!(actions[2], PersistAction::SetAttributes { attributes: 0x100 });
    assert_eq!(result, Err(TempError::Os { code: 183 }));
}

#[test]
fn persist_reports_move_error_even_if_rollback_fails() {
    let mut m = persist("a", "b", false);
    let (actions, result) = drive(&mut m, &[Ok(()), Err(183), Err(5)]);
    assert_eq!(actions.len(), 3);
    assert_eq!(result, Err(TempError::Os { code: 183 }));
}
