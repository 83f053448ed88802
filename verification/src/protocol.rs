use vstd::prelude::*;
use crate::status::Status;

verus! {

/// Outcome of attempting to create the shard directory.
#[derive(Clone, Copy, Debug, PartialEq, Eq, Structural)]
pub enum DirOutcome {
    /// The directory was created by this request.
    Created,
    /// The directory was already there, possibly made by a concurrent
    /// creator that won the race.
    AlreadyExists,
    /// Creation failed for any other reason.
    Failed,
}

/// The create-directory decision: creation, or losing the creation race to
/// a concurrent writer, both count as success; any other failure is
/// propagated as an internal error. This avoids a check-then-act race
/// without a lock.
pub fn ensure_dir_decision(o: DirOutcome) -> (r: Result<(), Status>)
    ensures
        r is Ok <==> o != DirOutcome::Failed,
        r matches Err(s) ==> s == Status::InternalError,
{
    match o {
        DirOutcome::Failed => Err(Status::InternalError),
        _ => Ok(()),
    }
}

/// The status a PUT reports for the writer's outcome: the byte count on a
/// completed write, `InternalError` on any write failure.
pub fn write_status(bytes: Option<u64>) -> (r: Result<u64, Status>)
    ensures
        r is Ok <==> bytes is Some,
        r matches Ok(n) ==> bytes == Some(n),
        r matches Err(s) ==> s == Status::InternalError,
{
    match bytes {
        Some(n) => Ok(n),
        None => Err(Status::InternalError),
    }
}

/// Phase of one in-flight binary PUT, from arrival to promotion.
#[derive(Clone, Copy, Debug, PartialEq, Eq, Structural)]
pub enum PutPhase {
    /// The request arrived; nothing has touched the filesystem.
    Start,
    /// The shard directory is known to exist.
    DirReady,
    /// The whole body sits in the staging file; the destination is untouched.
    Staged,
    /// The staging file was renamed onto the destination: the write is
    /// fully visible.
    Promoted,
    /// The request failed; the destination was never changed by it.
    Failed,
}

/// Event the transport or the filesystem hands back during a binary PUT.
#[derive(Clone, Copy, Debug, PartialEq, Eq, Structural)]
pub enum PutEvent {
    /// The shard directory exists (created, or already present).
    DirOk,
    /// The shard directory could not be created.
    DirFailed,
    /// Every chunk of the body reached the staging file.
    CopyDone,
    /// The body stream or the staging write failed, or the client went away.
    CopyFailed,
    /// The rename of the staging file onto the destination succeeded.
    RenameOk,
    /// The rename failed.
    RenameFailed,
}

/// One step of the binary PUT protocol.
pub open spec fn spec_put_step(p: PutPhase, e: PutEvent) -> PutPhase {
    match (p, e) {
        (PutPhase::Start, PutEvent::DirOk) => PutPhase::DirReady,
        (PutPhase::DirReady, PutEvent::CopyDone) => PutPhase::Staged,
        (PutPhase::Staged, PutEvent::RenameOk) => PutPhase::Promoted,
        (PutPhase::Promoted, _) => PutPhase::Promoted,
        _ => PutPhase::Failed,
    }
}

/// Advances the binary PUT protocol by one observed event.
///
/// The destination becomes visible only on the step from `Staged` to
/// `Promoted`, and `Staged` is entered only once the whole body has been
/// copied: a half-written body can never be promoted, and every failure
/// leaves the destination as it was.
pub fn put_step(p: PutPhase, e: PutEvent) -> (n: PutPhase)
    ensures
        n == spec_put_step(p, e),
        n == PutPhase::Promoted ==> p == PutPhase::Promoted
            || (p == PutPhase::Staged && e == PutEvent::RenameOk),
        n == PutPhase::Staged ==> p == PutPhase::DirReady && e == PutEvent::CopyDone,
{
    match (p, e) {
        (PutPhase::Start, PutEvent::DirOk) => PutPhase::DirReady,
        (PutPhase::DirReady, PutEvent::CopyDone) => PutPhase::Staged,
        (PutPhase::Staged, PutEvent::RenameOk) => PutPhase::Promoted,
        (PutPhase::Promoted, _) => PutPhase::Promoted,
        _ => PutPhase::Failed,
    }
}

/// The phase after a whole sequence of events.
pub open spec fn run_put(p: PutPhase, evs: Seq<PutEvent>) -> PutPhase
    decreases evs.len(),
{
    if evs.len() == 0 {
        p
    } else {
        run_put(spec_put_step(p, evs[0]), evs.drop_first())
    }
}

/// Promotion requires full staging: a PUT that starts fresh and ends
/// promoted saw the whole body copied, and only then the rename.
pub proof fn lemma_promotion_requires_staging(evs: Seq<PutEvent>)
    requires
        run_put(PutPhase::Start, evs) == PutPhase::Promoted,
    ensures
        exists|i: int, j: int|
            0 <= i < j < evs.len() && evs[i] == PutEvent::CopyDone && evs[j]
                == PutEvent::RenameOk,
    decreases evs.len(),
{
    if evs.len() > 0 {
        let p1 = spec_put_step(PutPhase::Start, evs[0]);
        if p1 == PutPhase::DirReady {
            lemma_promotion_from_dir_ready(evs.drop_first());
            let (i, j): (int, int) = choose|i: int, j: int|
                0 <= i < j < evs.drop_first().len() && evs.drop_first()[i] == PutEvent::CopyDone
                    && evs.drop_first()[j] == PutEvent::RenameOk;
            assert(evs[i + 1] == PutEvent::CopyDone && evs[j + 1] == PutEvent::RenameOk);
        } else {
            lemma_run_put_from_failed(evs.drop_first());
        }
    }
}

/// From `DirReady`, reaching `Promoted` takes a `CopyDone` and then a
/// `RenameOk`.
proof fn lemma_promotion_from_dir_ready(evs: Seq<PutEvent>)
    requires
        run_put(PutPhase::DirReady, evs) == PutPhase::Promoted,
    ensures
        exists|i: int, j: int|
            0 <= i < j < evs.len() && evs[i] == PutEvent::CopyDone && evs[j]
                == PutEvent::RenameOk,
    decreases evs.len(),
{
    if evs.len() > 0 {
        let p1 = spec_put_step(PutPhase::DirReady, evs[0]);
        if p1 == PutPhase::Staged {
            lemma_promotion_from_staged(evs.drop_first());
            let j: int = choose|j: int|
                0 <= j < evs.drop_first().len() && evs.drop_first()[j] == PutEvent::RenameOk;
            assert(evs[0] == PutEvent::CopyDone && evs[j + 1] == PutEvent::RenameOk);
            assert(0 <= 0 < j + 1 < evs.len());
        } else {
            lemma_run_put_from_failed(evs.drop_first());
        }
    }
}

/// From `Staged`, reaching `Promoted` takes a `RenameOk`.
proof fn lemma_promotion_from_staged(evs: Seq<PutEvent>)
    requires
        run_put(PutPhase::Staged, evs) == PutPhase::Promoted,
    ensures
        exists|j: int| 0 <= j < evs.len() && evs[j] == PutEvent::RenameOk,
    decreases evs.len(),
{
    if evs.len() > 0 {
        let p1 = spec_put_step(PutPhase::Staged, evs[0]);
        if p1 == PutPhase::Promoted {
            assert(evs[0] == PutEvent::RenameOk);
        } else {
            lemma_run_put_from_failed(evs.drop_first());
        }
    }
}

/// A failed PUT stays failed: no later event promotes it.
pub proof fn lemma_run_put_from_failed(evs: Seq<PutEvent>)
    ensures
        run_put(PutPhase::Failed, evs) == PutPhase::Failed,
    decreases evs.len(),
{
    if evs.len() > 0 {
        lemma_run_put_from_failed(evs.drop_first());
    }
}

} // verus!
