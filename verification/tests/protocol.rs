use blobstore::protocol::{
    ensure_dir_decision, put_step, write_status, DirOutcome, PutEvent, PutPhase,
};
use blobstore::status::Status;

#[test]
fn a_failed_write_is_an_internal_error() {
    assert_eq!(write_status(Some(42)), Ok(42));
    assert_eq!(write_status(None), Err(Status::InternalError));
}

#[test]
fn directory_races_count_as_success() {
    assert_eq!(ensure_dir_decision(DirOutcome::Created), Ok(()));
    assert_eq!(ensure_dir_decision(DirOutcome::AlreadyExists), Ok(()));
    assert_eq!(ensure_dir_decision(DirOutcome::Failed), Err(Status::InternalError));
}

#[test]
fn happy_path_reaches_promotion() {
    let p = put_step(PutPhase::Start, PutEvent::DirOk);
    assert_eq!(p, PutPhase::DirReady);
    let p = put_step(p, PutEvent::CopyDone);
    assert_eq!(p, PutPhase::Staged);
    let p = put_step(p, PutEvent::RenameOk);
    assert_eq!(p, PutPhase::Promoted);
}

#[test]
fn a_failed_copy_never_promotes() {
    let p = put_step(PutPhase::Start, PutEvent::DirOk);
    let p = put_step(p, PutEvent::CopyFailed);
    assert_eq!(p, PutPhase::Failed);
    let p = put_step(p, PutEvent::RenameOk);
    assert_eq!(p, PutPhase::Failed);
}

#[test]
fn rename_before_staging_fails() {
    let p = put_step(PutPhase::Start, PutEvent::RenameOk);
    assert_eq!(p, PutPhase::Failed);
    let p = put_step(PutPhase::DirReady, PutEvent::RenameOk);
    assert_eq!(p, PutPhase::Failed);
}

#[test]
fn dir_failure_fails_the_put() {
    let p = put_step(PutPhase::Start, PutEvent::DirFailed);
    assert_eq!(p, PutPhase::Failed);
}
