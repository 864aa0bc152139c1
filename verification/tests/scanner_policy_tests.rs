use gitlab_safe_push::evaluator::BlockingReason;
use gitlab_safe_push::model::{Config, FetchError, Job, Pipeline};
use gitlab_safe_push::orchestrate::{initial_decision, poll_decision, PollDecision, PushDecision};
use gitlab_safe_push::scanner::{scan_pipelines, scan_pipelines_at, BlockingPipeline, PipelineJobs};

// 2024-01-01T00:00:00Z as epoch seconds.
const BASE: i64 = 1704067200;

fn pipeline(id: u64, status: &str) -> Pipeline {
    Pipeline {
        id,
        status: String::from(status),
        ref_name: String::from("main"),
        created_at: String::from("2024-01-01T00:00:00Z"),
    }
}

fn simple_config() -> Config {
    Config::new(true, None, Vec::new(), 15, 5, 30)
}

fn entry(id: u64, status: &str) -> PipelineJobs {
    PipelineJobs { pipeline: pipeline(id, status), jobs: Vec::new() }
}

fn http_error() -> FetchError {
    FetchError::Http { status: 500, body: String::from("internal error") }
}

#[test]
fn scan_of_no_pipelines_blocks_nothing() {
    let cfg = simple_config();
    let entries: Vec<PipelineJobs> = Vec::new();
    let blocking = scan_pipelines(&cfg, &entries);
    assert!(blocking.is_empty());
    // ... and an empty blocking list authorizes the push.
    assert!(matches!(
        initial_decision(Ok(blocking), false),
        PushDecision::Proceed
    ));
}

#[test]
fn scan_keeps_only_active_pipelines() {
    let cfg = simple_config();
    let entries = vec![
        entry(1, "success"),
        entry(2, "running"),
        entry(3, "failed"),
        entry(4, "pending"),
        entry(5, "created"),
        entry(6, "canceled"),
    ];
    let blocking = scan_pipelines_at(&cfg, &entries, BASE);
    let ids: Vec<u64> = blocking.iter().map(|b| b.pipeline.id).collect();
    assert_eq!(ids, vec![2, 4, 5]);
    for b in &blocking {
        assert_eq!(b.reason, BlockingReason::SimpleMode);
    }
}

#[test]
fn scan_applies_the_evaluator_to_each_active_pipeline() {
    let cfg = Config::new(false, None, vec![String::from("deploy:prod")], 15, 5, 30);
    let blocked_job = Job {
        id: 7,
        name: String::from("deploy:prod"),
        stage: String::from("deploy"),
        status: String::from("running"),
        started_at: None,
        created_at: String::from("2024-01-01T00:00:00Z"),
    };
    let idle_job = Job {
        id: 8,
        name: String::from("deploy:prod"),
        stage: String::from("deploy"),
        status: String::from("success"),
        started_at: None,
        created_at: String::from("2024-01-01T00:00:00Z"),
    };
    let entries = vec![
        PipelineJobs { pipeline: pipeline(1, "running"), jobs: vec![idle_job] },
        PipelineJobs { pipeline: pipeline(2, "running"), jobs: vec![blocked_job] },
    ];
    let blocking = scan_pipelines_at(&cfg, &entries, BASE + 60);
    assert_eq!(blocking.len(), 1);
    assert_eq!(blocking[0].pipeline.id, 2);
    assert_eq!(
        blocking[0].reason,
        BlockingReason::BlockingJobRunning(String::from("deploy:prod"))
    );
}

#[test]
fn poll_clears_on_empty_scan() {
    assert!(matches!(poll_decision(Ok(Vec::new())), PollDecision::Cleared));
}

#[test]
fn poll_keeps_waiting_on_first_blocking_pipeline() {
    let list = vec![
        BlockingPipeline { pipeline: pipeline(9, "running"), reason: BlockingReason::SimpleMode },
        BlockingPipeline { pipeline: pipeline(10, "pending"), reason: BlockingReason::SimpleMode },
    ];
    match poll_decision(Ok(list)) {
        PollDecision::KeepWaiting(b) => {
            assert_eq!(b.pipeline.id, 9);
            assert_eq!(b.reason, BlockingReason::SimpleMode);
        }
        other => panic!("expected to keep waiting, got {:?}", other),
    }
}

#[test]
fn poll_fetch_error_aborts_the_wait() {
    match poll_decision(Err(http_error())) {
        PollDecision::Abort(e) => assert_eq!(e, http_error()),
        other => panic!("expected an abort, got {:?}", other),
    }
}

#[test]
fn initial_fetch_error_fails_open_with_warning() {
    match initial_decision(Err(http_error()), true) {
        PushDecision::ProceedWithWarning(e) => {
            assert_eq!(e, FetchError::Http { status: 500, body: String::from("internal error") });
        }
        other => panic!("expected a warned push, got {:?}", other),
    }
    assert!(matches!(
        initial_decision(Err(http_error()), false),
        PushDecision::ProceedWithWarning(_)
    ));
}

#[test]
fn initial_blocking_without_wait_cancels_the_push() {
    let list = vec![BlockingPipeline {
        pipeline: pipeline(11, "running"),
        reason: BlockingReason::SimpleMode,
    }];
    match initial_decision(Ok(list), false) {
        PushDecision::Cancel(l) => {
            assert_eq!(l.len(), 1);
            assert_eq!(l[0].pipeline.id, 11);
        }
        other => panic!("expected a cancelled push, got {:?}", other),
    }
}

#[test]
fn initial_blocking_with_wait_enters_the_wait() {
    let list = vec![BlockingPipeline {
        pipeline: pipeline(12, "running"),
        reason: BlockingReason::SimpleMode,
    }];
    match initial_decision(Ok(list), true) {
        PushDecision::Wait(l) => {
            assert_eq!(l.len(), 1);
            assert_eq!(l[0].pipeline.id, 12);
        }
        other => panic!("expected a wait, got {:?}", other),
    }
}

#[test]
fn transport_error_variant_carries_its_message() {
    let e = FetchError::Transport { message: String::from("connection refused") };
    match poll_decision(Err(e)) {
        PollDecision::Abort(FetchError::Transport { message }) => {
            assert_eq!(message, "connection refused");
        }
        other => panic!("expected a transport abort, got {:?}", other),
    }
}
