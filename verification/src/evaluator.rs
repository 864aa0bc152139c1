//! The blocking evaluator: decides whether one pipeline's jobs block the
//! push, and why.
//!
//! The decision procedure, evaluated in a fixed order with the first match
//! winning: simple mode blocks unconditionally; then an active job bearing a
//! configured blocking name blocks; then, when a blocking stage is
//! configured, an active job in that stage blocks, an active job in the
//! stage immediately before it blocks once it has run at least the
//! pre-block window, and an active job in the stage immediately after it
//! blocks while it has run less than the post-block window.

use crate::model::{
    is_active_job_status, job_status_active, names_contain, text_eq, Config, ConfigView, Job,
    JobView,
};
use crate::stage_order::{
    dedup_first, derive_stage_order, find_first, find_stage_index, stage_names,
};
use crate::timing::{
    elapsed_seconds_at, elapsed_seconds_spec, now_epoch, MAX_EPOCH_SECONDS, MIN_EPOCH_SECONDS,
};
use vstd::prelude::*;
use vstd::string::StringExecFns;

verus! {

/// Why a pipeline blocks the push.
#[derive(Debug, PartialEq, Eq)]
pub enum BlockingReason {
    /// Simple mode: any active pipeline blocks, no detail.
    SimpleMode,
    /// An active job sits in the configured blocking stage, or in the stage
    /// immediately after it within its post-block window.
    BlockingStageRunning(String),
    /// An explicitly named blocking job is active.
    BlockingJobRunning(String),
    /// A job in the stage immediately before the blocking stage has been
    /// active for at least the pre-block window; the elapsed seconds come
    /// with the stage name.
    PreBlockingStage(String, u64),
}

/// The model of a [`BlockingReason`].
pub enum ReasonView {
    SimpleMode,
    BlockingStageRunning(Seq<char>),
    BlockingJobRunning(Seq<char>),
    PreBlockingStage(Seq<char>, u64),
}

impl View for BlockingReason {
    type V = ReasonView;

    open spec fn view(&self) -> ReasonView {
        match self {
            BlockingReason::SimpleMode => ReasonView::SimpleMode,
            BlockingReason::BlockingStageRunning(s) => ReasonView::BlockingStageRunning(s@),
            BlockingReason::BlockingJobRunning(s) => ReasonView::BlockingJobRunning(s@),
            BlockingReason::PreBlockingStage(s, secs) => ReasonView::PreBlockingStage(s@, *secs),
        }
    }
}

impl DeepView for BlockingReason {
    type V = ReasonView;

    open spec fn deep_view(&self) -> ReasonView {
        self.view()
    }
}

/// Whether a job counts as active for blocking purposes.
pub open spec fn job_active(j: JobView) -> bool {
    is_active_job_status(j.status)
}

/// The elapsed active seconds of a job at instant `now`.
pub open spec fn job_elapsed(j: JobView, now: i64) -> Option<u64> {
    elapsed_seconds_spec(now, j.started_at, j.created_at)
}

/// The named-job check: the first job in list order that is active and bears
/// one of the configured blocking names, as a reason.
pub open spec fn named_job_reason(jobs: Seq<JobView>, blocking_jobs: Seq<Seq<char>>) -> Option<
    ReasonView,
>
    decreases jobs.len(),
{
    if jobs.len() == 0 {
        None
    } else if job_active(jobs[0]) && blocking_jobs.contains(jobs[0].name) {
        Some(ReasonView::BlockingJobRunning(jobs[0].name))
    } else {
        named_job_reason(jobs.drop_first(), blocking_jobs)
    }
}

/// What one job contributes to the stage-based check: an active job in the
/// blocking stage blocks outright; one in the stage immediately before it
/// blocks once its elapsed time reaches the pre-block window; one in the
/// stage immediately after it blocks while its elapsed time is still under
/// the post-block window.  A job without an elapsed value never meets a
/// threshold.
pub open spec fn stage_job_reason(
    j: JobView,
    stages: Seq<Seq<char>>,
    blocking_stage: Seq<char>,
    pre_block: u64,
    post_block: u64,
    now: i64,
) -> Option<ReasonView> {
    if !job_active(j) {
        None
    } else if j.stage == blocking_stage {
        Some(ReasonView::BlockingStageRunning(j.stage))
    } else {
        match (find_first(stages, blocking_stage), find_first(stages, j.stage)) {
            (Some(bi), Some(ci)) => {
                if ci + 1 == bi && job_elapsed(j, now) is Some && job_elapsed(j, now)->0
                    >= pre_block {
                    Some(ReasonView::PreBlockingStage(j.stage, job_elapsed(j, now)->0))
                } else if ci == bi + 1 && job_elapsed(j, now) is Some && job_elapsed(j, now)->0
                    < post_block {
                    Some(ReasonView::BlockingStageRunning(j.stage + " (post-block)"@))
                } else {
                    None
                }
            },
            _ => None,
        }
    }
}

/// The stage-based check over a whole job list: the first job in list order
/// that contributes a reason.
pub open spec fn stage_block_reason(
    jobs: Seq<JobView>,
    stages: Seq<Seq<char>>,
    blocking_stage: Seq<char>,
    pre_block: u64,
    post_block: u64,
    now: i64,
) -> Option<ReasonView>
    decreases jobs.len(),
{
    if jobs.len() == 0 {
        None
    } else {
        match stage_job_reason(jobs[0], stages, blocking_stage, pre_block, post_block, now) {
            Some(r) => Some(r),
            None => stage_block_reason(
                jobs.drop_first(),
                stages,
                blocking_stage,
                pre_block,
                post_block,
                now,
            ),
        }
    }
}

/// The full decision for one pipeline's jobs at instant `now`: simple mode
/// first, then the named-job check, then the stage-based check against the
/// stage order derived from the jobs themselves.
pub open spec fn evaluate_spec(cfg: ConfigView, jobs: Seq<JobView>, now: i64) -> Option<
    ReasonView,
> {
    if cfg.simple_mode {
        Some(ReasonView::SimpleMode)
    } else {
        match named_job_reason(jobs, cfg.blocking_jobs) {
            Some(r) => Some(r),
            None => match cfg.blocking_stage {
                Some(bs) => stage_block_reason(
                    jobs,
                    dedup_first(stage_names(jobs)),
                    bs,
                    cfg.pre_block_duration,
                    cfg.post_block_duration,
                    now,
                ),
                None => None,
            },
        }
    }
}

/// Evaluates one pipeline's jobs at a given instant, exactly as
/// [`evaluate_spec`] decides.
pub fn evaluate_pipeline_at(cfg: &Config, jobs: &Vec<Job>, now: i64) -> (r: Option<BlockingReason>)
    requires
        MIN_EPOCH_SECONDS <= now <= MAX_EPOCH_SECONDS,
    ensures
        r.deep_view() == evaluate_spec(cfg@, jobs.deep_view(), now),
{
    if cfg.simple_mode {
        return Some(BlockingReason::SimpleMode);
    }
    let ghost all = jobs.deep_view();
    proof {
        assert(all.skip(0) =~= all);
    }

    let mut i: usize = 0;
    while i < jobs.len()
        invariant
            i <= jobs.len(),
            all == jobs.deep_view(),
            !cfg@.simple_mode,
            named_job_reason(all.skip(i as int), cfg@.blocking_jobs) == named_job_reason(
                all,
                cfg@.blocking_jobs,
            ),
        decreases jobs.len() - i,
    {
        proof {
            assert(all.skip(i as int)[0] == all[i as int]);
        }
        if job_status_active(&jobs[i].status) && names_contain(&cfg.blocking_jobs, &jobs[i].name) {
            let r = Some(BlockingReason::BlockingJobRunning(jobs[i].name.clone()));
            proof {
                assert(named_job_reason(all.skip(i as int), cfg@.blocking_jobs) == Some(
                    ReasonView::BlockingJobRunning(all[i as int].name),
                ));
                assert(r.deep_view() == Some(ReasonView::BlockingJobRunning(all[i as int].name)));
            }
            return r;
        }
        proof {
            assert(all.skip(i as int).drop_first() =~= all.skip(i as int + 1));
        }
        i += 1;
    }
    proof {
        assert(all.skip(i as int) =~= Seq::<JobView>::empty());
        assert(named_job_reason(all, cfg@.blocking_jobs) is None);
    }

    let blocking_stage = match &cfg.blocking_stage {
        Some(bs) => bs,
        None => {
            return None;
        },
    };

    let stages = derive_stage_order(jobs);
    let ghost stage_seq = stages.deep_view();
    let blocking_idx = find_stage_index(&stages, blocking_stage);
    proof {
        crate::stage_order::lemma_find_first_characterizes(stage_seq, blocking_stage@);
        assert(all.skip(0) =~= all);
    }

    let mut i: usize = 0;
    while i < jobs.len()
        invariant
            i <= jobs.len(),
            all == jobs.deep_view(),
            !cfg@.simple_mode,
            named_job_reason(all, cfg@.blocking_jobs) is None,
            stage_seq == stages.deep_view(),
            stage_seq == dedup_first(stage_names(all)),
            MIN_EPOCH_SECONDS <= now <= MAX_EPOCH_SECONDS,
            cfg@.blocking_stage == Some(blocking_stage@),
            match find_first(stage_seq, blocking_stage@) {
                Some(b) => blocking_idx is Some && blocking_idx->0 as int == b && b
                    < stage_seq.len(),
                None => blocking_idx is None,
            },
            stage_block_reason(
                all.skip(i as int),
                stage_seq,
                blocking_stage@,
                cfg@.pre_block_duration,
                cfg@.post_block_duration,
                now,
            ) == stage_block_reason(
                all,
                stage_seq,
                blocking_stage@,
                cfg@.pre_block_duration,
                cfg@.post_block_duration,
                now,
            ),
        decreases jobs.len() - i,
    {
        proof {
            assert(all.skip(i as int)[0] == all[i as int]);
        }
        let ghost this_reason = stage_job_reason(
            all[i as int],
            stage_seq,
            blocking_stage@,
            cfg@.pre_block_duration,
            cfg@.post_block_duration,
            now,
        );
        if job_status_active(&jobs[i].status) {
            if text_eq(&jobs[i].stage, blocking_stage.as_str()) {
                let r = Some(BlockingReason::BlockingStageRunning(jobs[i].stage.clone()));
                proof {
                    assert(this_reason == Some(ReasonView::BlockingStageRunning(
                        all[i as int].stage,
                    )));
                }
                return r;
            }
            let current_idx = find_stage_index(&stages, &jobs[i].stage);
            proof {
                crate::stage_order::lemma_find_first_characterizes(stage_seq, all[i as int].stage);
            }
            if let (Some(bi), Some(ci)) = (blocking_idx, current_idx) {
                if bi >= 1 && ci == bi - 1 {
                    match elapsed_seconds_at(now, &jobs[i].started_at, &jobs[i].created_at) {
                        Some(elapsed) => {
                            if elapsed >= cfg.pre_block_duration {
                                let r = Some(
                                    BlockingReason::PreBlockingStage(
                                        jobs[i].stage.clone(),
                                        elapsed,
                                    ),
                                );
                                proof {
                                    assert(this_reason == Some(ReasonView::PreBlockingStage(
                                        all[i as int].stage,
                                        elapsed,
                                    )));
                                }
                                return r;
                            }
                        },
                        None => {},
                    }
                } else if ci >= 1 && ci - 1 == bi {
                    match elapsed_seconds_at(now, &jobs[i].started_at, &jobs[i].created_at) {
                        Some(elapsed) => {
                            if elapsed < cfg.post_block_duration {
                                let r = Some(
                                    BlockingReason::BlockingStageRunning(
                                        jobs[i].stage.clone().concat(" (post-block)"),
                                    ),
                                );
                                proof {
                                    assert(this_reason == Some(ReasonView::BlockingStageRunning(
                                        all[i as int].stage + " (post-block)"@,
                                    )));
                                }
                                return r;
                            }
                        },
                        None => {},
                    }
                }
            }
        }
        proof {
            assert(this_reason is None);
            assert(all.skip(i as int).drop_first() =~= all.skip(i as int + 1));
        }
        i += 1;
    }
    proof {
        assert(all.skip(i as int) =~= Seq::<JobView>::empty());
    }
    None
}

/// Evaluates one pipeline's jobs against the configuration at the present
/// instant.  The clock is read once; whatever it reported, the result is the
/// decision of [`evaluate_spec`] at that instant.
pub fn evaluate_pipeline(cfg: &Config, jobs: &Vec<Job>) -> (r: Option<BlockingReason>)
    ensures
        exists|now: i64|
            #![auto]
            MIN_EPOCH_SECONDS <= now <= MAX_EPOCH_SECONDS && r.deep_view() == evaluate_spec(
                cfg@,
                jobs.deep_view(),
                now,
            ),
        cfg@.simple_mode ==> r.deep_view() == Some(ReasonView::SimpleMode),
{
    let now = now_epoch();
    let r = evaluate_pipeline_at(cfg, jobs, now);
    proof {
        assert(MIN_EPOCH_SECONDS <= now <= MAX_EPOCH_SECONDS && r.deep_view() == evaluate_spec(
            cfg@,
            jobs.deep_view(),
            now,
        ));
    }
    r
}

/// Simple mode blocks unconditionally: whatever the jobs and the instant,
/// the evaluation returns the blanket reason, independent of any blocking
/// stage or blocking jobs the configuration carries.
pub proof fn lemma_simple_mode_always_blocks(cfg: ConfigView, jobs: Seq<JobView>, now: i64)
    requires
        cfg.simple_mode,
    ensures
        evaluate_spec(cfg, jobs, now) == Some(ReasonView::SimpleMode),
{
}

/// Helper for the named-job check: some job that is active and named makes
/// the scan return a named-job reason.
proof fn lemma_named_job_reason_some(jobs: Seq<JobView>, blocking_jobs: Seq<Seq<char>>, i: int)
    requires
        0 <= i < jobs.len(),
        job_active(jobs[i]),
        blocking_jobs.contains(jobs[i].name),
    ensures
        named_job_reason(jobs, blocking_jobs) is Some,
        named_job_reason(jobs, blocking_jobs)->0 is BlockingJobRunning,
    decreases jobs.len(),
{
    if job_active(jobs[0]) && blocking_jobs.contains(jobs[0].name) {
    } else {
        assert(jobs.drop_first()[i - 1] == jobs[i]);
        lemma_named_job_reason_some(jobs.drop_first(), blocking_jobs, i - 1);
    }
}

/// A job named in the blocking jobs and active triggers a named-job reason:
/// in advanced mode the evaluation returns one.
pub proof fn lemma_named_job_blocks(cfg: ConfigView, jobs: Seq<JobView>, now: i64, i: int)
    requires
        !cfg.simple_mode,
        0 <= i < jobs.len(),
        job_active(jobs[i]),
        cfg.blocking_jobs.contains(jobs[i].name),
    ensures
        evaluate_spec(cfg, jobs, now) is Some,
        evaluate_spec(cfg, jobs, now)->0 is BlockingJobRunning,
{
    lemma_named_job_reason_some(jobs, cfg.blocking_jobs, i);
}

/// Helper: when no job is both active and named, the named-job scan finds
/// nothing.
proof fn lemma_named_job_reason_none(jobs: Seq<JobView>, blocking_jobs: Seq<Seq<char>>)
    requires
        forall|i: int|
            0 <= i < jobs.len() ==> !(job_active(#[trigger] jobs[i]) && blocking_jobs.contains(
                jobs[i].name,
            )),
    ensures
        named_job_reason(jobs, blocking_jobs) is None,
    decreases jobs.len(),
{
    if jobs.len() == 0 {
    } else {
        assert(forall|i: int|
            0 <= i < jobs.drop_first().len() ==> jobs.drop_first()[i] == jobs[i + 1]);
        lemma_named_job_reason_none(jobs.drop_first(), blocking_jobs);
    }
}

/// Helper: the stage-based check never produces a named-job reason.
proof fn lemma_stage_block_reason_not_named(
    jobs: Seq<JobView>,
    stages: Seq<Seq<char>>,
    blocking_stage: Seq<char>,
    pre_block: u64,
    post_block: u64,
    now: i64,
)
    ensures
        !(stage_block_reason(jobs, stages, blocking_stage, pre_block, post_block, now) matches Some(
            r,
        ) && r is BlockingJobRunning),
    decreases jobs.len(),
{
    if jobs.len() == 0 {
    } else {
        lemma_stage_block_reason_not_named(
            jobs.drop_first(),
            stages,
            blocking_stage,
            pre_block,
            post_block,
            now,
        );
    }
}

/// A job that is not both active and named never triggers a named-job
/// reason: when no job is, the evaluation returns anything but one.
pub proof fn lemma_no_named_job_reason(cfg: ConfigView, jobs: Seq<JobView>, now: i64)
    requires
        forall|i: int|
            0 <= i < jobs.len() ==> !(job_active(#[trigger] jobs[i]) && cfg.blocking_jobs.contains(
                jobs[i].name,
            )),
    ensures
        !(evaluate_spec(cfg, jobs, now) matches Some(r) && r is BlockingJobRunning),
{
    if cfg.simple_mode {
    } else {
        lemma_named_job_reason_none(jobs, cfg.blocking_jobs);
        if cfg.blocking_stage is Some {
            lemma_stage_block_reason_not_named(
                jobs,
                dedup_first(stage_names(jobs)),
                cfg.blocking_stage->0,
                cfg.pre_block_duration,
                cfg.post_block_duration,
                now,
            );
        }
    }
}

/// Pre-block boundary, reached: an active job in the stage immediately
/// preceding the blocking stage, with elapsed seconds exactly the pre-block
/// window, triggers the pre-blocking reason.
pub proof fn lemma_pre_block_at_threshold(
    j: JobView,
    stages: Seq<Seq<char>>,
    blocking_stage: Seq<char>,
    pre_block: u64,
    post_block: u64,
    now: i64,
    bi: int,
    ci: int,
)
    requires
        job_active(j),
        find_first(stages, blocking_stage) == Some(bi),
        find_first(stages, j.stage) == Some(ci),
        ci + 1 == bi,
        job_elapsed(j, now) == Some(pre_block),
    ensures
        stage_job_reason(j, stages, blocking_stage, pre_block, post_block, now) == Some(
            ReasonView::PreBlockingStage(j.stage, pre_block),
        ),
{
    assert(j.stage != blocking_stage);
}

/// Pre-block boundary, missed: the same job with elapsed seconds one short
/// of the pre-block window triggers nothing.
pub proof fn lemma_pre_block_below_threshold(
    j: JobView,
    stages: Seq<Seq<char>>,
    blocking_stage: Seq<char>,
    pre_block: u64,
    post_block: u64,
    now: i64,
    bi: int,
    ci: int,
)
    requires
        job_active(j),
        find_first(stages, blocking_stage) == Some(bi),
        find_first(stages, j.stage) == Some(ci),
        ci + 1 == bi,
        pre_block >= 1,
        job_elapsed(j, now) == Some((pre_block - 1) as u64),
    ensures
        stage_job_reason(j, stages, blocking_stage, pre_block, post_block, now) is None,
{
    assert(j.stage != blocking_stage);
}

/// Post-block boundary, inside the window: an active job in the stage
/// immediately following the blocking stage, with elapsed seconds one less
/// than the post-block window, still triggers a blocking reason.
pub proof fn lemma_post_block_within_window(
    j: JobView,
    stages: Seq<Seq<char>>,
    blocking_stage: Seq<char>,
    pre_block: u64,
    post_block: u64,
    now: i64,
    bi: int,
    ci: int,
)
    requires
        job_active(j),
        find_first(stages, blocking_stage) == Some(bi),
        find_first(stages, j.stage) == Some(ci),
        ci == bi + 1,
        post_block >= 1,
        job_elapsed(j, now) == Some((post_block - 1) as u64),
    ensures
        stage_job_reason(j, stages, blocking_stage, pre_block, post_block, now) == Some(
            ReasonView::BlockingStageRunning(j.stage + " (post-block)"@),
        ),
{
    assert(j.stage != blocking_stage);
}

/// Post-block boundary, expired: the same job with elapsed seconds exactly
/// the post-block window triggers nothing.
pub proof fn lemma_post_block_at_window_end(
    j: JobView,
    stages: Seq<Seq<char>>,
    blocking_stage: Seq<char>,
    pre_block: u64,
    post_block: u64,
    now: i64,
    bi: int,
    ci: int,
)
    requires
        job_active(j),
        find_first(stages, blocking_stage) == Some(bi),
        find_first(stages, j.stage) == Some(ci),
        ci == bi + 1,
        job_elapsed(j, now) == Some(post_block),
    ensures
        stage_job_reason(j, stages, blocking_stage, pre_block, post_block, now) is None,
{
    assert(j.stage != blocking_stage);
}

} // verus!

