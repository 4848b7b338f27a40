use vstd::prelude::*;
use vstd::string::StringExecFns;

verus! {

/// Declares serde_json's error type so values of it can ride inside
/// [`JobquError`]. The type is opaque here; only the crate that produced a
/// value can look inside it.
#[verifier::external_type_specification]
#[verifier::external_body]
pub struct ExSerdeJsonError(serde_json::Error);

/// Declares sqlx's error type so values of it can ride inside
/// [`JobquError`]. The type is opaque here; only the crate that produced a
/// value can look inside it.
#[verifier::external_type_specification]
#[verifier::external_body]
pub struct ExSqlxError(sqlx::Error);

/// Every failure a store, a registry or a serializer reports.
#[derive(Debug)]
pub enum JobquError {
    /// A query against the durable backend failed.
    SqlxError(sqlx::Error),
    /// The durable backend could not be reached.
    SqlxFailedToConnect(sqlx::Error),
    /// The durable backend's schema could not be created.
    SqlxFailedToInitialize(sqlx::Error),
    /// A payload could not be encoded or decoded.
    SerdeError(serde_json::Error),
    /// A dequeued item names a job type with no registered factory.
    JobNotRegistered { job_type: String },
}

pub type JobquResult<T> = Result<T, JobquError>;

impl From<serde_json::Error> for JobquError {
    fn from(err: serde_json::Error) -> Self {
        JobquError::SerdeError(err)
    }
}

impl vstd::std_specs::convert::FromSpecImpl<serde_json::Error> for JobquError {
    open spec fn obeys_from_spec() -> bool {
        true
    }

    open spec fn from_spec(t: serde_json::Error) -> Self {
        JobquError::SerdeError(t)
    }
}

impl From<sqlx::Error> for JobquError {
    fn from(err: sqlx::Error) -> Self {
        JobquError::SqlxError(err)
    }
}

impl vstd::std_specs::convert::FromSpecImpl<sqlx::Error> for JobquError {
    open spec fn obeys_from_spec() -> bool {
        true
    }

    open spec fn from_spec(t: sqlx::Error) -> Self {
        JobquError::SqlxError(t)
    }
}

impl JobquError {
    /// Whether this failure came from a store backend: its connection, its
    /// initialization, or a query. Stores report only such failures; a
    /// missing factory or a payload that does not decode is reported by the
    /// registry, never by a store.
    pub open spec fn is_backend(&self) -> bool {
        match self {
            JobquError::SqlxError(_) => true,
            JobquError::SqlxFailedToConnect(_) => true,
            JobquError::SqlxFailedToInitialize(_) => true,
            JobquError::SerdeError(_) => false,
            JobquError::JobNotRegistered { .. } => false,
        }
    }

    /// One line describing the failure, suitable for a log.
    pub fn describe(&self) -> (r: String)
        ensures
            self matches JobquError::SqlxError(_) ==> r@ == "Sqlx error"@,
            self matches JobquError::SqlxFailedToConnect(_) ==> r@ == "Failed to connect to database"@,
            self matches JobquError::SqlxFailedToInitialize(_) ==> r@ == "Failed to initialize database"@,
            self matches JobquError::SerdeError(_) ==> r@ == "Serde error"@,
            self matches JobquError::JobNotRegistered { job_type } ==> r@ == "Job not registered: "@ + job_type@,
    {
        match self {
            JobquError::SqlxError(_) => "Sqlx error".to_owned(),
            JobquError::SqlxFailedToConnect(_) => "Failed to connect to database".to_owned(),
            JobquError::SqlxFailedToInitialize(_) => "Failed to initialize database".to_owned(),
            JobquError::SerdeError(_) => "Serde error".to_owned(),
            JobquError::JobNotRegistered { job_type } => {
                let mut line = "Job not registered: ".to_owned();
                line.append(job_type.as_str());
                line
            },
        }
    }
}

} // verus!
