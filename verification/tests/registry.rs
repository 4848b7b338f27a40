use jobqu::{Job, JobRegistry, JobquError, QueueItem};

#[derive(Debug, PartialEq, Eq, Clone)]
struct PingJob {
    n: u64,
}

impl Job for PingJob {
    fn job_type() -> String {
        "ping".to_string()
    }

    fn serialize(&self) -> String {
        self.n.to_string()
    }

    fn deserialize(payload: &str) -> jobqu::JobquResult<Self> {
        match serde_json::from_str::<u64>(payload) {
            Ok(n) => Ok(PingJob { n }),
            Err(e) => Err(JobquError::SerdeError(e)),
        }
    }
}

fn item(job_type: &str, payload: &str) -> QueueItem {
    QueueItem {
        id: 0,
        job_type: job_type.to_string(),
        payload: payload.to_string(),
        created_at: 0,
    }
}

#[test]
fn register_fresh_then_duplicate() {
    let mut registry = JobRegistry::new();
    assert!(registry.register("ping"));
    assert!(!registry.register("ping"));
    assert!(registry.register("email"));
}

#[test]
fn contains_tracks_registration() {
    let mut registry = JobRegistry::new();
    assert!(!registry.contains("ping"));
    registry.register("ping");
    assert!(registry.contains("ping"));
    assert!(!registry.contains("email"));
}

#[test]
fn unregistered_type_gives_job_not_registered() {
    let registry = JobRegistry::new();
    let result = registry.create::<PingJob>(&item("ping", "7"));
    match result {
        Err(JobquError::JobNotRegistered { job_type }) => assert_eq!(job_type, "ping"),
        other => panic!("expected JobNotRegistered, got {:?}", other.is_ok()),
    }
}

#[test]
fn roundtrip_reconstructs_job() {
    let mut registry = JobRegistry::new();
    registry.register("ping");
    let job = PingJob { n: 42 };
    let rebuilt = registry
        .create::<PingJob>(&item("ping", job.serialize().as_str()))
        .unwrap();
    assert_eq!(rebuilt, job);
}

#[test]
fn create_serialized_reconstructs_job() {
    let mut registry = JobRegistry::new();
    registry.register("ping");
    let job = PingJob { n: 7 };
    let rebuilt = registry.create_serialized(&job).unwrap();
    assert_eq!(rebuilt, job);
}

#[test]
fn bad_payload_gives_serde_error() {
    let mut registry = JobRegistry::new();
    registry.register("ping");
    let result = registry.create::<PingJob>(&item("ping", "not a number"));
    assert!(matches!(result, Err(JobquError::SerdeError(_))));
}

#[test]
fn mismatched_tag_is_refused() {
    let mut registry = JobRegistry::new();
    registry.register("email");
    let result = registry.create::<PingJob>(&item("email", "7"));
    match result {
        Err(JobquError::JobNotRegistered { job_type }) => assert_eq!(job_type, "email"),
        other => panic!("expected JobNotRegistered, got {:?}", other.is_ok()),
    }
}
