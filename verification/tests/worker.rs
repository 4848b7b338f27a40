use jobqu::{
    worker_step, Job, JobStore, JobquError, LoopAction, LoopEvent, LoopState, MemoryStore,
    Worker, WorkerBuilder,
};

#[derive(Debug, PartialEq, Eq, Clone)]
struct ReportJob {
    week: u64,
}

impl Job for ReportJob {
    fn job_type() -> String {
        "report".to_string()
    }

    fn serialize(&self) -> String {
        self.week.to_string()
    }

    fn deserialize(payload: &str) -> jobqu::JobquResult<Self> {
        match serde_json::from_str::<u64>(payload) {
            Ok(week) => Ok(ReportJob { week }),
            Err(e) => Err(JobquError::SerdeError(e)),
        }
    }
}

#[test]
fn wake_without_shutdown_polls() {
    let (state, action) = worker_step(
        LoopState::Sleeping,
        LoopEvent::Wake { shutdown: false },
        false,
    );
    assert_eq!(state, LoopState::Polling);
    assert_eq!(action, LoopAction::Dequeue);
}

#[test]
fn wake_with_shutdown_stops() {
    let (state, action) = worker_step(
        LoopState::Sleeping,
        LoopEvent::Wake { shutdown: true },
        false,
    );
    assert_eq!(state, LoopState::Stopped);
    assert_eq!(action, LoopAction::Exit);

    let (state, action) = worker_step(LoopState::Idle, LoopEvent::Wake { shutdown: true }, true);
    assert_eq!(state, LoopState::Stopped);
    assert_eq!(action, LoopAction::Exit);
}

#[test]
fn stopped_is_terminal() {
    for event in [
        LoopEvent::Wake { shutdown: false },
        LoopEvent::PollEmpty,
        LoopEvent::PollItem,
        LoopEvent::HandleOk,
    ] {
        let (state, action) = worker_step(LoopState::Stopped, event, false);
        assert_eq!(state, LoopState::Stopped);
        assert_eq!(action, LoopAction::Exit);
    }
}

#[test]
fn empty_poll_rests_then_sleeps() {
    let (state, action) = worker_step(LoopState::Polling, LoopEvent::PollEmpty, false);
    assert_eq!(state, LoopState::Idle);
    assert_eq!(action, LoopAction::Rest);
}

#[test]
fn found_item_dispatches_and_failure_policy_applies() {
    let (state, action) = worker_step(LoopState::Polling, LoopEvent::PollItem, false);
    assert_eq!(state, LoopState::Dispatching);
    assert_eq!(action, LoopAction::Dispatch);

    let (state, _) = worker_step(LoopState::Dispatching, LoopEvent::HandleFailed, false);
    assert_eq!(state, LoopState::Sleeping);

    let (state, action) = worker_step(LoopState::Dispatching, LoopEvent::HandleFailed, true);
    assert_eq!(state, LoopState::Stopped);
    assert_eq!(action, LoopAction::Exit);
}

#[test]
fn builder_defaults_and_setters() {
    let builder = WorkerBuilder::new();
    assert_eq!(builder.worker_count, 1);
    assert_eq!(builder.polling_interval, 1000);
    assert!(!builder.abort_on_error);

    let builder = builder.worker_count(4).polling_interval(250).abort_on_error(true);
    assert_eq!(builder.worker_count, 4);
    assert_eq!(builder.polling_interval, 250);
    assert!(builder.abort_on_error);
}

#[test]
fn process_on_empty_store_returns_nothing() {
    let builder = Worker::<MemoryStore>::builder().register::<ReportJob>();
    let mut worker = Worker {
        store: MemoryStore::builder().build(),
        registry: builder.registry,
    };
    let outcome = worker.process::<ReportJob>().unwrap();
    assert!(outcome.is_none());
}

#[test]
fn process_dispatches_earliest_item() {
    let builder = WorkerBuilder::new().register::<ReportJob>();
    let mut store = MemoryStore::builder().build();
    store.enqueue("report", "3").unwrap();
    store.enqueue("report", "4").unwrap();
    let mut worker = Worker {
        store,
        registry: builder.registry,
    };
    let first = worker.process::<ReportJob>().unwrap().unwrap();
    assert_eq!(first, ReportJob { week: 3 });
    let second = worker.process::<ReportJob>().unwrap().unwrap();
    assert_eq!(second, ReportJob { week: 4 });
    assert!(worker.process::<ReportJob>().unwrap().is_none());
}

#[test]
fn failed_item_is_not_redelivered() {
    let builder = WorkerBuilder::new().register::<ReportJob>();
    let mut store = MemoryStore::builder().build();
    store.enqueue("unknown", "3").unwrap();
    let mut worker = Worker {
        store,
        registry: builder.registry,
    };
    let result = worker.process::<ReportJob>();
    match result {
        Err(JobquError::JobNotRegistered { job_type }) => assert_eq!(job_type, "unknown"),
        other => panic!("expected JobNotRegistered, got ok={}", other.is_ok()),
    }
    // The failing item left the store before its failure surfaced.
    assert!(worker.process::<ReportJob>().unwrap().is_none());
}
