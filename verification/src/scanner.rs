//! The active-pipeline scanner: filters the fetched pipelines of a branch to
//! the active ones and runs the evaluator over each, collecting every
//! blocking result in order.
//!
//! The caller fetches; the scanner decides.  Each candidate pipeline arrives
//! paired with its job list, and the scan is the single source of truth both
//! the orchestrator and the poll loop consult.

use crate::evaluator::{evaluate_pipeline_at, evaluate_spec, BlockingReason, ReasonView};
use crate::model::{
    is_active_pipeline_status, pipeline_status_active, Config, ConfigView, Job, JobView, Pipeline,
    PipelineView,
};
use crate::timing::{now_epoch, MAX_EPOCH_SECONDS, MIN_EPOCH_SECONDS};
use vstd::prelude::*;

verus! {

/// One candidate pipeline together with its fetched jobs.
pub struct PipelineJobs {
    pub pipeline: Pipeline,
    pub jobs: Vec<Job>,
}

/// The model of a [`PipelineJobs`].
pub struct PipelineJobsView {
    pub pipeline: PipelineView,
    pub jobs: Seq<JobView>,
}

impl View for PipelineJobs {
    type V = PipelineJobsView;

    open spec fn view(&self) -> PipelineJobsView {
        PipelineJobsView { pipeline: self.pipeline@, jobs: self.jobs.deep_view() }
    }
}

impl DeepView for PipelineJobs {
    type V = PipelineJobsView;

    open spec fn deep_view(&self) -> PipelineJobsView {
        self.view()
    }
}

/// A pipeline that blocks the push, with its reason.
#[derive(Debug)]
pub struct BlockingPipeline {
    pub pipeline: Pipeline,
    pub reason: BlockingReason,
}

/// The model of a [`BlockingPipeline`].
pub struct BlockingPipelineView {
    pub pipeline: PipelineView,
    pub reason: ReasonView,
}

impl View for BlockingPipeline {
    type V = BlockingPipelineView;

    open spec fn view(&self) -> BlockingPipelineView {
        BlockingPipelineView { pipeline: self.pipeline@, reason: self.reason@ }
    }
}

impl DeepView for BlockingPipeline {
    type V = BlockingPipelineView;

    open spec fn deep_view(&self) -> BlockingPipelineView {
        self.view()
    }
}

/// The scan decision over fully fetched data at instant `now`: keep, in the
/// order received, each entry whose pipeline status is active and whose
/// evaluation produces a reason, paired with that reason.
pub open spec fn scan_spec(cfg: ConfigView, entries: Seq<PipelineJobsView>, now: i64) -> Seq<
    BlockingPipelineView,
>
    decreases entries.len(),
{
    if entries.len() == 0 {
        Seq::empty()
    } else {
        let rest = scan_spec(cfg, entries.drop_first(), now);
        let e = entries[0];
        if is_active_pipeline_status(e.pipeline.status) && evaluate_spec(cfg, e.jobs, now)
            is Some {
            seq![
                BlockingPipelineView {
                    pipeline: e.pipeline,
                    reason: evaluate_spec(cfg, e.jobs, now)->0,
                },
            ] + rest
        } else {
            rest
        }
    }
}

/// Every pipeline the scan reports was in an active status: inert pipelines
/// never appear in the blocking list.
pub proof fn lemma_scan_reports_active_only(
    cfg: ConfigView,
    entries: Seq<PipelineJobsView>,
    now: i64,
)
    ensures
        forall|k: int|
            0 <= k < scan_spec(cfg, entries, now).len() ==> is_active_pipeline_status(
                (#[trigger] scan_spec(cfg, entries, now)[k]).pipeline.status,
            ),
    decreases entries.len(),
{
    if entries.len() == 0 {
    } else {
        lemma_scan_reports_active_only(cfg, entries.drop_first(), now);
    }
}

/// Under simple mode every reported reason is the blanket one: an active
/// pipeline blocks for no more specific cause than that it runs.
pub proof fn lemma_simple_mode_scan_reasons(
    cfg: ConfigView,
    entries: Seq<PipelineJobsView>,
    now: i64,
)
    requires
        cfg.simple_mode,
    ensures
        forall|k: int|
            0 <= k < scan_spec(cfg, entries, now).len() ==> (#[trigger] scan_spec(
                cfg,
                entries,
                now,
            )[k]).reason is SimpleMode,
    decreases entries.len(),
{
    if entries.len() == 0 {
    } else {
        lemma_simple_mode_scan_reasons(cfg, entries.drop_first(), now);
    }
}

/// Scans the given candidate pipelines at a given instant, exactly as
/// [`scan_spec`] decides.
pub fn scan_pipelines_at(cfg: &Config, entries: &Vec<PipelineJobs>, now: i64) -> (r: Vec<
    BlockingPipeline,
>)
    requires
        MIN_EPOCH_SECONDS <= now <= MAX_EPOCH_SECONDS,
    ensures
        r.deep_view() == scan_spec(cfg@, entries.deep_view(), now),
{
    let ghost all = entries.deep_view();
    proof {
        assert(all.skip(0) =~= all);
    }
    let mut out: Vec<BlockingPipeline> = Vec::new();
    let mut i: usize = 0;
    while i < entries.len()
        invariant
            i <= entries.len(),
            all == entries.deep_view(),
            MIN_EPOCH_SECONDS <= now <= MAX_EPOCH_SECONDS,
            out.deep_view() + scan_spec(cfg@, all.skip(i as int), now) == scan_spec(
                cfg@,
                all,
                now,
            ),
        decreases entries.len() - i,
    {
        proof {
            assert(all.skip(i as int)[0] == all[i as int]);
            assert(all.skip(i as int).drop_first() =~= all.skip(i as int + 1));
        }
        let ghost step = scan_spec(cfg@, all.skip(i as int), now);
        let ghost rest = scan_spec(cfg@, all.skip(i as int + 1), now);
        if pipeline_status_active(&entries[i].pipeline.status) {
            match evaluate_pipeline_at(cfg, &entries[i].jobs, now) {
                Some(reason) => {
                    let ghost old_out = out.deep_view();
                    let ghost kept = BlockingPipelineView {
                        pipeline: all[i as int].pipeline,
                        reason: evaluate_spec(cfg@, all[i as int].jobs, now)->0,
                    };
                    let entry = BlockingPipeline {
                        pipeline: entries[i].pipeline.duplicate(),
                        reason,
                    };
                    proof {
                        assert(entry.deep_view() == kept);
                        assert(step == seq![kept] + rest);
                    }
                    out.push(entry);
                    proof {
                        assert(out.deep_view() =~= old_out.push(kept));
                        assert(old_out.push(kept) + rest =~= old_out + (seq![kept] + rest));
                    }
                },
                None => {},
            }
        }
        i += 1;
    }
    proof {
        assert(all.skip(i as int) =~= Seq::<PipelineJobsView>::empty());
        assert(out.deep_view() + Seq::<BlockingPipelineView>::empty() =~= out.deep_view());
    }
    out
}

/// Scans the given candidate pipelines at the present instant.  The clock is
/// read once; whatever it reported, the result is the decision of
/// [`scan_spec`] at that instant.  No candidates means nothing blocks.
pub fn scan_pipelines(cfg: &Config, entries: &Vec<PipelineJobs>) -> (r: Vec<BlockingPipeline>)
    ensures
        exists|now: i64|
            #![auto]
            MIN_EPOCH_SECONDS <= now <= MAX_EPOCH_SECONDS && r.deep_view() == scan_spec(
                cfg@,
                entries.deep_view(),
                now,
            ),
        entries@.len() == 0 ==> r.deep_view() == Seq::<BlockingPipelineView>::empty(),
{
    let now = now_epoch();
    let r = scan_pipelines_at(cfg, entries, now);
    proof {
        assert(MIN_EPOCH_SECONDS <= now <= MAX_EPOCH_SECONDS && r.deep_view() == scan_spec(
            cfg@,
            entries.deep_view(),
            now,
        ));
    }
    r
}

} // verus!
