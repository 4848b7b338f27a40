use jobqu::JobquError;

#[test]
fn describe_names_the_missing_tag() {
    let err = JobquError::JobNotRegistered {
        job_type: "cleanup".to_string(),
    };
    assert_eq!(err.describe(), "Job not registered: cleanup");
}

#[test]
fn describe_covers_every_backend_failure() {
    assert_eq!(
        JobquError::SqlxError(sqlx::Error::RowNotFound).describe(),
        "Sqlx error"
    );
    assert_eq!(
        JobquError::SqlxFailedToConnect(sqlx::Error::RowNotFound).describe(),
        "Failed to connect to database"
    );
    assert_eq!(
        JobquError::SqlxFailedToInitialize(sqlx::Error::RowNotFound).describe(),
        "Failed to initialize database"
    );
}

#[test]
fn serde_failures_convert_into_serde_error() {
    let serde_err = serde_json::from_str::<u64>("not a number").unwrap_err();
    let err = JobquError::from(serde_err);
    assert!(matches!(err, JobquError::SerdeError(_)));
    assert_eq!(err.describe(), "Serde error");
}

#[test]
fn sqlx_failures_convert_into_sqlx_error() {
    let err = JobquError::from(sqlx::Error::RowNotFound);
    assert!(matches!(err, JobquError::SqlxError(_)));
}
