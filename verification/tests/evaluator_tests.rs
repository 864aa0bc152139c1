use gitlab_safe_push::evaluator::{evaluate_pipeline, evaluate_pipeline_at, BlockingReason};
use gitlab_safe_push::model::{Config, Job};

// 2024-01-01T00:00:00Z as epoch seconds.
const BASE: i64 = 1704067200;

fn job(id: u64, name: &str, stage: &str, status: &str, started_secs_ago: Option<i64>, now: i64) -> Job {
    let started_at = started_secs_ago.map(|ago| rfc3339(now - ago));
    Job {
        id,
        name: String::from(name),
        stage: String::from(stage),
        status: String::from(status),
        started_at,
        created_at: rfc3339(now - 3600),
    }
}

// Renders BASE-relative instants; enough for the instants these tests use.
fn rfc3339(epoch: i64) -> String {
    let offset = epoch - BASE;
    assert!((0..86400).contains(&offset), "instant outside the covered day");
    let (h, m, s) = (offset / 3600, (offset % 3600) / 60, offset % 60);
    format!("2024-01-01T{:02}:{:02}:{:02}Z", h, m, s)
}

fn advanced_config(blocking_stage: &str, pre: u64, post: u64) -> Config {
    Config::new(
        false,
        Some(String::from(blocking_stage)),
        Vec::new(),
        pre,
        post,
        30,
    )
}

// The four-stage pipeline of the walkthrough scenario: build, test, deploy,
// verify, with every job inert except the one under test.
fn scenario_jobs(active_stage: &str, active_for: i64, now: i64) -> Vec<Job> {
    let stages = ["build", "test", "deploy", "verify"];
    stages
        .iter()
        .enumerate()
        .map(|(i, stage)| {
            if *stage == active_stage {
                job(i as u64, &format!("{}-job", stage), stage, "running", Some(active_for), now)
            } else {
                job(i as u64, &format!("{}-job", stage), stage, "success", None, now)
            }
        })
        .collect()
}

#[test]
fn config_with_blocking_stage_forces_advanced_mode() {
    let cfg = Config::new(
        true,
        Some(String::from("deploy")),
        Vec::new(),
        15,
        5,
        30,
    );
    assert!(!cfg.simple_mode);
}

#[test]
fn config_with_blocking_jobs_forces_advanced_mode() {
    let cfg = Config::new(true, None, vec![String::from("terraform:dev")], 15, 5, 30);
    assert!(!cfg.simple_mode);
}

#[test]
fn config_without_blocking_settings_keeps_simple_mode() {
    let cfg = Config::new(true, None, Vec::new(), 15, 5, 30);
    assert!(cfg.simple_mode);
}

#[test]
fn simple_mode_blocks_whatever_the_jobs_say() {
    let cfg = Config::new(true, None, Vec::new(), 15, 5, 30);
    let no_jobs: Vec<Job> = Vec::new();
    assert_eq!(
        evaluate_pipeline_at(&cfg, &no_jobs, BASE),
        Some(BlockingReason::SimpleMode)
    );
    let now = BASE + 7200;
    let finished = scenario_jobs("none", 0, now);
    assert_eq!(
        evaluate_pipeline_at(&cfg, &finished, now),
        Some(BlockingReason::SimpleMode)
    );
    // The clock-sampling entry point decides the same way.
    assert_eq!(
        evaluate_pipeline(&cfg, &no_jobs),
        Some(BlockingReason::SimpleMode)
    );
}

#[test]
fn named_job_running_blocks() {
    let cfg = Config::new(false, None, vec![String::from("terraform:dev")], 15, 5, 30);
    let now = BASE + 7200;
    let jobs = vec![job(1, "terraform:dev", "deploy", "running", Some(3), now)];
    assert_eq!(
        evaluate_pipeline_at(&cfg, &jobs, now),
        Some(BlockingReason::BlockingJobRunning(String::from(
            "terraform:dev"
        )))
    );
}

#[test]
fn named_job_pending_blocks() {
    let cfg = Config::new(false, None, vec![String::from("terraform:dev")], 15, 5, 30);
    let now = BASE + 7200;
    let jobs = vec![job(1, "terraform:dev", "deploy", "pending", None, now)];
    assert_eq!(
        evaluate_pipeline_at(&cfg, &jobs, now),
        Some(BlockingReason::BlockingJobRunning(String::from(
            "terraform:dev"
        )))
    );
}

#[test]
fn named_job_succeeded_does_not_block() {
    let cfg = Config::new(false, None, vec![String::from("terraform:dev")], 15, 5, 30);
    let now = BASE + 7200;
    let jobs = vec![job(1, "terraform:dev", "deploy", "success", Some(3), now)];
    assert_eq!(evaluate_pipeline_at(&cfg, &jobs, now), None);
}

#[test]
fn pre_block_triggers_at_exact_window() {
    let cfg = advanced_config("deploy", 15, 5);
    let now = BASE + 7200;
    let jobs = scenario_jobs("test", 15, now);
    assert_eq!(
        evaluate_pipeline_at(&cfg, &jobs, now),
        Some(BlockingReason::PreBlockingStage(String::from("test"), 15))
    );
}

#[test]
fn pre_block_does_not_trigger_one_second_early() {
    let cfg = advanced_config("deploy", 15, 5);
    let now = BASE + 7200;
    let jobs = scenario_jobs("test", 14, now);
    assert_eq!(evaluate_pipeline_at(&cfg, &jobs, now), None);
}

#[test]
fn post_block_triggers_inside_window() {
    let cfg = advanced_config("deploy", 15, 5);
    let now = BASE + 7200;
    let jobs = scenario_jobs("verify", 4, now);
    assert_eq!(
        evaluate_pipeline_at(&cfg, &jobs, now),
        Some(BlockingReason::BlockingStageRunning(String::from(
            "verify (post-block)"
        )))
    );
}

#[test]
fn post_block_expires_at_exact_window() {
    let cfg = advanced_config("deploy", 15, 5);
    let now = BASE + 7200;
    let jobs = scenario_jobs("verify", 5, now);
    assert_eq!(evaluate_pipeline_at(&cfg, &jobs, now), None);
}

#[test]
fn scenario_walkthrough() {
    let cfg = advanced_config("deploy", 15, 5);
    let now = BASE + 7200;

    let test_active = scenario_jobs("test", 20, now);
    assert_eq!(
        evaluate_pipeline_at(&cfg, &test_active, now),
        Some(BlockingReason::PreBlockingStage(String::from("test"), 20))
    );

    let deploy_active = scenario_jobs("deploy", 1, now);
    assert_eq!(
        evaluate_pipeline_at(&cfg, &deploy_active, now),
        Some(BlockingReason::BlockingStageRunning(String::from("deploy")))
    );
    let deploy_active_long = scenario_jobs("deploy", 500, now);
    assert_eq!(
        evaluate_pipeline_at(&cfg, &deploy_active_long, now),
        Some(BlockingReason::BlockingStageRunning(String::from("deploy")))
    );

    let verify_young = scenario_jobs("verify", 3, now);
    assert_eq!(
        evaluate_pipeline_at(&cfg, &verify_young, now),
        Some(BlockingReason::BlockingStageRunning(String::from(
            "verify (post-block)"
        )))
    );

    let verify_settled = scenario_jobs("verify", 6, now);
    assert_eq!(evaluate_pipeline_at(&cfg, &verify_settled, now), None);
}

#[test]
fn absent_blocking_stage_skips_stage_checks() {
    let cfg = advanced_config("release", 15, 5);
    let now = BASE + 7200;
    let jobs = scenario_jobs("test", 500, now);
    assert_eq!(evaluate_pipeline_at(&cfg, &jobs, now), None);
}

#[test]
fn build_stage_far_from_blocking_stage_never_blocks() {
    let cfg = advanced_config("deploy", 15, 5);
    let now = BASE + 7200;
    let jobs = scenario_jobs("build", 500, now);
    assert_eq!(evaluate_pipeline_at(&cfg, &jobs, now), None);
}

#[test]
fn unparseable_timestamps_degrade_to_no_block() {
    let cfg = advanced_config("deploy", 15, 5);
    let now = BASE + 7200;
    let mut jobs = scenario_jobs("test", 500, now);
    for j in jobs.iter_mut() {
        j.started_at = Some(String::from("garbled"));
        j.created_at = String::from("garbled");
    }
    // The pre-block threshold cannot be met without an elapsed value.
    assert_eq!(evaluate_pipeline_at(&cfg, &jobs, now), None);
}

#[test]
fn blocking_stage_itself_needs_no_elapsed_value() {
    let cfg = advanced_config("deploy", 15, 5);
    let now = BASE + 7200;
    let mut jobs = scenario_jobs("deploy", 1, now);
    for j in jobs.iter_mut() {
        j.started_at = None;
        j.created_at = String::from("garbled");
    }
    assert_eq!(
        evaluate_pipeline_at(&cfg, &jobs, now),
        Some(BlockingReason::BlockingStageRunning(String::from("deploy")))
    );
}
