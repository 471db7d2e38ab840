//! Why a job failed, and whether running it again can help.

use vstd::prelude::*;
use vstd::std_specs::convert::FromSpecImpl;
use crate::messages::RenderError;
use crate::primitives::NotificationChannel;
use crate::primitives::SettingsValidationError;

verus! {

/// `sqlx::Error`: what the settings store reports when it cannot be reached
/// or a query fails.  The library carries it and never looks inside.
#[verifier::external_type_specification]
#[verifier::external_body]
pub struct ExSqlxError(sqlx::Error);

/// A delivery provider turned a message down.
#[derive(Debug)]
pub struct ExecutorError {
    pub channel: NotificationChannel,
    /// The provider will turn the same delivery down again, as it does for a
    /// device token that is no longer valid.
    pub permanent: bool,
    pub detail: String,
}

/// Any failure of a job.
#[derive(Debug)]
pub enum JobError {
    /// The settings store could not be reached or queried.
    Sqlx(sqlx::Error),
    /// A text that the message needs is in the catalog for neither the
    /// locale nor the default locale.
    Render(RenderError),
    /// The delivery provider failed.
    Executor(ExecutorError),
    /// A channel or category name at the boundary named none.
    SettingsValidation(SettingsValidationError),
}

impl JobError {
    /// Whether running the job again can succeed.  Storage failures are
    /// transient; a missing text and an invalid name are defects that a retry
    /// does not mend; for a provider's failure the provider says.
    pub open spec fn retryable(self) -> bool {
        match self {
            JobError::Sqlx(_) => true,
            JobError::Render(_) => false,
            JobError::Executor(e) => !e.permanent,
            JobError::SettingsValidation(_) => false,
        }
    }

    pub fn is_retryable(&self) -> (retryable: bool)
        ensures
            retryable == self.retryable(),
    {
        match self {
            JobError::Sqlx(_) => true,
            JobError::Render(_) => false,
            JobError::Executor(e) => !e.permanent,
            JobError::SettingsValidation(_) => false,
        }
    }
}

impl From<sqlx::Error> for JobError {
    fn from(e: sqlx::Error) -> (error: JobError) {
        JobError::Sqlx(e)
    }
}

impl FromSpecImpl<sqlx::Error> for JobError {
    open spec fn obeys_from_spec() -> bool {
        true
    }

    open spec fn from_spec(e: sqlx::Error) -> JobError {
        JobError::Sqlx(e)
    }
}

impl From<RenderError> for JobError {
    fn from(e: RenderError) -> (error: JobError) {
        JobError::Render(e)
    }
}

impl FromSpecImpl<RenderError> for JobError {
    open spec fn obeys_from_spec() -> bool {
        true
    }

    open spec fn from_spec(e: RenderError) -> JobError {
        JobError::Render(e)
    }
}

impl From<ExecutorError> for JobError {
    fn from(e: ExecutorError) -> (error: JobError) {
        JobError::Executor(e)
    }
}

impl FromSpecImpl<ExecutorError> for JobError {
    open spec fn obeys_from_spec() -> bool {
        true
    }

    open spec fn from_spec(e: ExecutorError) -> JobError {
        JobError::Executor(e)
    }
}

impl From<SettingsValidationError> for JobError {
    fn from(e: SettingsValidationError) -> (error: JobError) {
        JobError::SettingsValidation(e)
    }
}

impl FromSpecImpl<SettingsValidationError> for JobError {
    open spec fn obeys_from_spec() -> bool {
        true
    }

    open spec fn from_spec(e: SettingsValidationError) -> JobError {
        JobError::SettingsValidation(e)
    }
}

} // verus!
