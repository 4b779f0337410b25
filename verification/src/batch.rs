//! The steps of one handshake's write: staging each file, writing
//! `Books.plist`, the sync, then the cleanup and Books restore that follow
//! every outcome. The caller performs each action on the device and hands
//! back whether it succeeded.

use vstd::prelude::*;
use crate::flasher::BatchPlan;
use crate::text::{decimal, push_decimal, push_str, string_of};

verus! {

/// Where one handshake's write stands.
#[derive(Clone, Copy, PartialEq, Eq, Structural, Debug)]
pub enum BatchPhase {
    /// File `i` is being staged.
    Staging(usize),
    /// `Books.plist` is being written.
    WritingPlist,
    /// The sync is running.
    Syncing,
    /// The staged paths are removed and Books restored; `failed` when a
    /// step before failed.
    CleaningUp { failed: bool },
    /// The write is over.
    Done,
}

/// A handshake's write: its phase, and how many files are fully staged.
#[derive(Clone, Copy, PartialEq, Eq, Structural, Debug)]
pub struct BatchRun {
    pub phase: BatchPhase,
    pub staged: usize,
}

/// How the write ended.
pub enum BatchEnd {
    /// A staging, `Books.plist` or sync step failed: its error is returned.
    WriteFailed,
    /// Everything was written but Books could not be restored.
    RestoreFailed,
    /// Everything was written; these lines are logged.
    Written(Vec<String>),
}

/// What the caller does next.
pub enum BatchAction {
    /// Report progress `(step, total, message)`, then stage file `index`.
    Stage { index: usize, step: usize, total: usize, message: String },
    /// Write `Books.plist` with the handshake's identifiers.
    WritePlist,
    /// Report progress `(step, total, message)`, then sync the handshake's assets.
    Sync { step: usize, total: usize, message: String },
    /// Remove the link destination, Media copy and source of the first
    /// `staged` files, then restore Books.
    CleanUp { staged: usize },
    /// The write is over.
    Finish(BatchEnd),
    /// Nothing is left to do.
    Stop,
}

/// A `BatchEnd` as plain values.
pub enum BatchEndModel {
    WriteFailed,
    RestoreFailed,
    Written(Seq<Seq<char>>),
}

/// A `BatchAction` as plain values.
pub enum BatchActionModel {
    Stage { index: usize, step: usize, total: usize, message: Seq<char> },
    WritePlist,
    Sync { step: usize, total: usize, message: Seq<char> },
    CleanUp { staged: usize },
    Finish(BatchEndModel),
    Stop,
}

impl View for BatchAction {
    type V = BatchActionModel;

    open spec fn view(&self) -> BatchActionModel {
        match self {
            BatchAction::Stage { index, step, total, message } => BatchActionModel::Stage {
                index: *index,
                step: *step,
                total: *total,
                message: message@,
            },
            BatchAction::WritePlist => BatchActionModel::WritePlist,
            BatchAction::Sync { step, total, message } => BatchActionModel::Sync {
                step: *step,
                total: *total,
                message: message@,
            },
            BatchAction::CleanUp { staged } => BatchActionModel::CleanUp { staged: *staged },
            BatchAction::Finish(end) => BatchActionModel::Finish(
                match end {
                    BatchEnd::WriteFailed => BatchEndModel::WriteFailed,
                    BatchEnd::RestoreFailed => BatchEndModel::RestoreFailed,
                    BatchEnd::Written(lines) => BatchEndModel::Written(lines@.map_values(|l: String| l@)),
                },
            ),
            BatchAction::Stop => BatchActionModel::Stop,
        }
    }
}

/// `Staging <leaf><label>...`.
pub open spec fn staging_message(leaf: Seq<char>, label: Seq<char>) -> Seq<char> {
    "Staging "@ + leaf + label + "..."@
}

/// `Synchronizing <n> file(s)<label>...`.
pub open spec fn sync_message(n: nat, label: Seq<char>) -> Seq<char> {
    "Synchronizing "@ + decimal(n) + " file(s)"@ + label + "..."@
}

/// `Successfully written: <leaf>` for each file, in order.
pub open spec fn written_lines(leaves: Seq<Seq<char>>) -> Seq<Seq<char>> {
    leaves.map_values(|l: Seq<char>| "Successfully written: "@ + l)
}

/// The staging of file `i`.
pub open spec fn stage_action(plan: BatchPlan, leaves: Seq<Seq<char>>, i: int) -> BatchActionModel {
    BatchActionModel::Stage {
        index: i as usize,
        step: (plan.start + i + 1) as usize,
        total: plan.progress_total,
        message: staging_message(leaves[i], plan.label@),
    }
}

/// The start of a handshake's write of `leaves`.
pub open spec fn batch_begin_spec(plan: BatchPlan, leaves: Seq<Seq<char>>) -> (BatchRun, BatchActionModel) {
    if leaves.len() > 0 {
        (BatchRun { phase: BatchPhase::Staging(0), staged: 0 }, stage_action(plan, leaves, 0))
    } else {
        (BatchRun { phase: BatchPhase::WritingPlist, staged: 0 }, BatchActionModel::WritePlist)
    }
}

/// The step after the last action, which succeeded when `ok`: the files are
/// staged in order, then `Books.plist` is written and the sync run; a failed
/// step stops the write there. Every path goes through the cleanup of the
/// files fully staged so far and the Books restore (whose result is `ok`
/// in that phase); the write then ends with the first failure, or with a
/// failed restore, or with a line per written file.
pub open spec fn batch_next_spec(plan: BatchPlan, leaves: Seq<Seq<char>>, run: BatchRun, ok: bool) -> (BatchRun, BatchActionModel) {
    match run.phase {
        BatchPhase::Staging(i) => if !ok {
            (
                BatchRun { phase: BatchPhase::CleaningUp { failed: true }, staged: run.staged },
                BatchActionModel::CleanUp { staged: run.staged },
            )
        } else if i + 1 < leaves.len() {
            (
                BatchRun { phase: BatchPhase::Staging((i + 1) as usize), staged: (i + 1) as usize },
                stage_action(plan, leaves, i + 1),
            )
        } else {
            (
                BatchRun { phase: BatchPhase::WritingPlist, staged: (i + 1) as usize },
                BatchActionModel::WritePlist,
            )
        },
        BatchPhase::WritingPlist => if ok {
            (
                BatchRun { phase: BatchPhase::Syncing, staged: run.staged },
                BatchActionModel::Sync {
                    step: plan.sync_step,
                    total: plan.progress_total,
                    message: sync_message(leaves.len(), plan.label@),
                },
            )
        } else {
            (
                BatchRun { phase: BatchPhase::CleaningUp { failed: true }, staged: run.staged },
                BatchActionModel::CleanUp { staged: run.staged },
            )
        },
        BatchPhase::Syncing => (
            BatchRun { phase: BatchPhase::CleaningUp { failed: !ok }, staged: run.staged },
            BatchActionModel::CleanUp { staged: run.staged },
        ),
        BatchPhase::CleaningUp { failed } => (
            BatchRun { phase: BatchPhase::Done, staged: run.staged },
            BatchActionModel::Finish(
                if failed {
                    BatchEndModel::WriteFailed
                } else if !ok {
                    BatchEndModel::RestoreFailed
                } else {
                    BatchEndModel::Written(written_lines(leaves.take(run.staged as int)))
                },
            ),
        ),
        BatchPhase::Done => (run, BatchActionModel::Stop),
    }
}

/// A run that the steps can reach for `n` files.
pub open spec fn batch_run_ok(run: BatchRun, n: nat) -> bool {
    match run.phase {
        BatchPhase::Staging(i) => i < n && run.staged == i,
        BatchPhase::WritingPlist | BatchPhase::Syncing => run.staged == n,
        BatchPhase::CleaningUp { failed } => run.staged <= n && (!failed ==> run.staged == n),
        BatchPhase::Done => run.staged <= n,
    }
}

/// The leaves of a handshake's files as plain values.
pub open spec fn leaves_view(leaves: Seq<String>) -> Seq<Seq<char>> {
    leaves.map_values(|l: String| l@)
}

fn staging_text(leaf: &str, label: &str) -> (r: String)
    ensures
        r@ == staging_message(leaf@, label@),
{
    let mut m = string_of("Staging ");
    push_str(&mut m, leaf);
    push_str(&mut m, label);
    push_str(&mut m, "...");
    m
}

/// The first action of a handshake's write of the files `leaves`.
pub fn batch_begin(plan: &BatchPlan, leaves: &Vec<String>) -> (r: (BatchRun, BatchAction))
    requires
        plan.start + leaves@.len() + 1 <= usize::MAX,
    ensures
        (r.0, r.1@) == batch_begin_spec(*plan, leaves_view(leaves@)),
        batch_run_ok(r.0, leaves@.len()),
{
    let ghost lv = leaves_view(leaves@);
    if leaves.len() > 0 {
        assert(lv[0] == leaves@[0]@);
        let message = staging_text(leaves[0].as_str(), plan.label.as_str());
        (
            BatchRun { phase: BatchPhase::Staging(0), staged: 0 },
            BatchAction::Stage { index: 0, step: plan.start + 1, total: plan.progress_total, message },
        )
    } else {
        (BatchRun { phase: BatchPhase::WritingPlist, staged: 0 }, BatchAction::WritePlist)
    }
}

/// The next action of a handshake's write, after the last one succeeded
/// (`ok`) or failed.
pub fn batch_next(plan: &BatchPlan, leaves: &Vec<String>, run: BatchRun, ok: bool) -> (r: (BatchRun, BatchAction))
    requires
        plan.start + leaves@.len() + 1 <= usize::MAX,
        batch_run_ok(run, leaves@.len()),
    ensures
        (r.0, r.1@) == batch_next_spec(*plan, leaves_view(leaves@), run, ok),
        batch_run_ok(r.0, leaves@.len()),
        !ok && (run.phase is Staging || run.phase is WritingPlist || run.phase is Syncing) ==> r.0.phase
            == (BatchPhase::CleaningUp { failed: true }),
        run.phase == (BatchPhase::CleaningUp { failed: true }) ==> r.1@ == BatchActionModel::Finish(
            BatchEndModel::WriteFailed,
        ),
        r.1@ is Finish ==> run.phase is CleaningUp,
        run.phase == (BatchPhase::CleaningUp { failed: false }) && !ok ==> r.1@ == BatchActionModel::Finish(
            BatchEndModel::RestoreFailed,
        ),
        run.phase == (BatchPhase::CleaningUp { failed: false }) && ok ==> r.1@ == BatchActionModel::Finish(
            BatchEndModel::Written(written_lines(leaves_view(leaves@))),
        ),
        r.1@ is CleanUp ==> r.1@ == (BatchActionModel::CleanUp { staged: run.staged }),
        r.1@ is WritePlist || r.1@ is Sync ==> r.0.staged == leaves@.len(),
        ok && run.phase is Staging ==> r.0.staged == run.staged + 1,
        r.1@ is Sync ==> run.phase == BatchPhase::WritingPlist && ok,
        run.phase == BatchPhase::Done ==> r.0 == run && r.1@ == BatchActionModel::Stop,
{
    let ghost lv = leaves_view(leaves@);
    let n = leaves.len();
    match run.phase {
        BatchPhase::Staging(i) => if !ok {
            (
                BatchRun { phase: BatchPhase::CleaningUp { failed: true }, staged: run.staged },
                BatchAction::CleanUp { staged: run.staged },
            )
        } else if i + 1 < n {
            assert(lv[i + 1] == leaves@[i + 1]@);
            let message = staging_text(leaves[i + 1].as_str(), plan.label.as_str());
            (
                BatchRun { phase: BatchPhase::Staging(i + 1), staged: i + 1 },
                BatchAction::Stage { index: i + 1, step: plan.start + i + 2, total: plan.progress_total, message },
            )
        } else {
            (BatchRun { phase: BatchPhase::WritingPlist, staged: i + 1 }, BatchAction::WritePlist)
        },
        BatchPhase::WritingPlist => if ok {
            let mut message = string_of("Synchronizing ");
            push_decimal(&mut message, n as u64);
            push_str(&mut message, " file(s)");
            push_str(&mut message, plan.label.as_str());
            push_str(&mut message, "...");
            proof {
                assert(message@ =~= sync_message(lv.len(), plan.label@));
            }
            (
                BatchRun { phase: BatchPhase::Syncing, staged: run.staged },
                BatchAction::Sync { step: plan.sync_step, total: plan.progress_total, message },
            )
        } else {
            (
                BatchRun { phase: BatchPhase::CleaningUp { failed: true }, staged: run.staged },
                BatchAction::CleanUp { staged: run.staged },
            )
        },
        BatchPhase::Syncing => (
            BatchRun { phase: BatchPhase::CleaningUp { failed: !ok }, staged: run.staged },
            BatchAction::CleanUp { staged: run.staged },
        ),
        BatchPhase::CleaningUp { failed } => {
            proof {
                if !failed {
                    assert(lv.take(run.staged as int) =~= lv);
                }
            }
            let end = if failed {
                BatchEnd::WriteFailed
            } else if !ok {
                BatchEnd::RestoreFailed
            } else {
                let mut lines: Vec<String> = Vec::new();
                let mut j: usize = 0;
                while j < run.staged
                    invariant
                        run.staged <= n,
                        n == leaves@.len(),
                        lv == leaves_view(leaves@),
                        j <= run.staged,
                        lines@.map_values(|l: String| l@) == written_lines(lv.take(j as int)),
                    decreases run.staged - j,
                {
                    let mut line = string_of("Successfully written: ");
                    push_str(&mut line, leaves[j].as_str());
                    let ghost before = lines@.map_values(|l: String| l@);
                    lines.push(line);
                    proof {
                        assert(lv[j as int] == leaves@[j as int]@);
                        assert(lv.take(j + 1) =~= lv.take(j as int).push(lv[j as int]));
                        assert(lines@.map_values(|l: String| l@) =~= before.push(
                            "Successfully written: "@ + lv[j as int],
                        ));
                        assert(written_lines(lv.take(j + 1)) =~= written_lines(lv.take(j as int)).push(
                            "Successfully written: "@ + lv[j as int],
                        ));
                    }
                    j = j + 1;
                }
                BatchEnd::Written(lines)
            };
            (BatchRun { phase: BatchPhase::Done, staged: run.staged }, BatchAction::Finish(end))
        },
        BatchPhase::Done => (run, BatchAction::Stop),
    }
}

/// Every failed step of a write is followed by the cleanup and Books
/// restore; the write ends only from the cleanup; and success lines are
/// logged only when every step and the restore succeeded, one per file.
pub proof fn lemma_batch_always_cleans_up(plan: BatchPlan, leaves: Seq<Seq<char>>, run: BatchRun, ok: bool)
    requires
        batch_run_ok(run, leaves.len()),
    ensures
        !ok && (run.phase is Staging || run.phase is WritingPlist || run.phase is Syncing)
            ==> batch_next_spec(plan, leaves, run, ok).1 == (BatchActionModel::CleanUp { staged: run.staged }),
        batch_next_spec(plan, leaves, run, ok).1 is Finish ==> run.phase is CleaningUp,
        batch_next_spec(plan, leaves, run, ok).1 matches BatchActionModel::Finish(BatchEndModel::Written(lines))
            ==> ok && lines == written_lines(leaves),
{
    if run.phase matches BatchPhase::CleaningUp { failed } && !failed {
        assert(leaves.take(run.staged as int) =~= leaves);
    }
}

/// The next step of a batched write of `batches` handshakes: the first
/// handshake, or `None` when there is none to write.
pub open spec fn write_begin_spec(batches: nat) -> Option<usize> {
    if batches > 0 {
        Some(0)
    } else {
        None
    }
}

/// What follows handshake `k` of a batched write, which succeeded when
/// `ok`: the next handshake, or the end (`Err(())` after a failure, whose
/// error is returned as it is; `Ok(())` after the last one). No handshake
/// after a failed one is written.
pub open spec fn write_next_spec(batches: nat, k: nat, ok: bool) -> Result<Option<usize>, ()> {
    if !ok {
        Err(())
    } else if k + 1 < batches {
        Ok(Some((k + 1) as usize))
    } else {
        Ok(None)
    }
}

/// The first handshake of a batched write, if any.
pub fn write_begin(batches: usize) -> (r: Option<usize>)
    ensures
        r == write_begin_spec(batches as nat),
        r matches Some(k) ==> k < batches,
{
    if batches > 0 {
        Some(0)
    } else {
        None
    }
}

/// What follows handshake `k` of a batched write.
pub fn write_next(batches: usize, k: usize, ok: bool) -> (r: Result<Option<usize>, ()>)
    requires
        k < batches,
    ensures
        r == write_next_spec(batches as nat, k as nat, ok),
        r matches Ok(Some(j)) ==> j < batches,
{
    if !ok {
        Err(())
    } else if k + 1 < batches {
        Ok(Some(k + 1))
    } else {
        Ok(None)
    }
}

/// A write whose staging, `Books.plist` or sync step fails is marked failed
/// and, once cleaned up, ends in `WriteFailed` whatever the restore gives:
/// a failed step never leads to the success lines. The success lines come
/// only after a cleanup that follows no failure, and then one per file.
pub proof fn lemma_failed_step_fails_write(plan: BatchPlan, leaves: Seq<Seq<char>>, run: BatchRun, restored: bool)
    requires
        batch_run_ok(run, leaves.len()),
        run.phase is Staging || run.phase is WritingPlist || run.phase is Syncing,
    ensures
        ({
            let (after, action) = batch_next_spec(plan, leaves, run, false);
            &&& after.phase == (BatchPhase::CleaningUp { failed: true })
            &&& action == (BatchActionModel::CleanUp { staged: run.staged })
            &&& batch_next_spec(plan, leaves, after, restored).1 == BatchActionModel::Finish(
                BatchEndModel::WriteFailed,
            )
        }),
{
}

} // verus!
