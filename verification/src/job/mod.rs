//! The bridge from a plan to jobs: one independently retryable job per
//! planned channel.
//!
//! A job carries the event, not the rendered message.  When it runs, the
//! decision is taken and the message rendered afresh, so that a change of
//! settings or of translations since the job was queued is honoured.

pub mod error;

use std::collections::HashMap;
use vstd::prelude::*;
use crate::dispatch::delivers;
use crate::dispatch::effective_settings;
use crate::dispatch::permitted;
use crate::dispatch::settings_view;
use crate::dispatch::SendPlan;
use crate::messages::email_text;
use crate::messages::missing_resource;
use crate::messages::rendered;
use crate::messages::LocalizedEmail;
use crate::messages::LocalizedInAppMessage;
use crate::messages::LocalizedPushMessage;
use crate::messages::MessageText;
use crate::messages::RenderError;
use crate::notification_event::NotificationEvent;
use crate::notification_event::NotificationEventPayload;
use crate::primitives::GaloyLocale;
use crate::primitives::GaloyUserId;
use crate::primitives::NotificationChannel;
use crate::settings::NotificationSettings;
use crate::settings::SettingsView;
use crate::translations::Catalog;
use crate::translations::Translations;
pub use error::ExecutorError;
pub use error::JobError;

verus! {

/// `serde_json::Value`: any JSON value.  The values of a job's tracing data
/// are of this type; the library carries them and never looks inside.
#[verifier::external_type_specification]
#[verifier::external_body]
pub struct ExJsonValue(serde_json::Value);

/// The delivery of one event to one recipient on one channel.
#[derive(Debug)]
pub struct Job {
    pub user_id: GaloyUserId,
    pub payload: NotificationEventPayload,
    pub channel: NotificationChannel,
    /// Correlation data that ties the job to the request that queued it.  It
    /// travels with the job and is not looked into.
    pub tracing_data: HashMap<String, serde_json::Value>,
}

/// A message on its way to a channel's delivery provider.
#[derive(Debug)]
pub enum Delivery {
    Push(LocalizedPushMessage),
    Email(LocalizedEmail),
    InApp(LocalizedInAppMessage),
}

/// What a running job has to do next.
#[derive(Debug)]
pub enum JobAction {
    /// Hand the message to the channel's delivery provider.
    Deliver(Delivery),
    /// Nothing goes out: the event does not go out on the job's channel
    /// under the settings as they are now.
    Skip,
}

/// How a job ended, as reported to the job queue.
#[derive(Copy, Clone, PartialEq, Eq, Debug, Structural)]
pub enum JobResult {
    /// The job is done and is not run again.
    Complete,
    /// The job failed in a way that may pass; the queue runs it again.
    Retry,
    /// The job failed for good; the failure goes to the operators.
    Failed,
}

/// What an action comes to: the channel and the texts of the message to
/// deliver, or nothing to do.
pub enum ActionView {
    Deliver(NotificationChannel, MessageText),
    Skip,
}

impl View for JobAction {
    type V = ActionView;

    open spec fn view(&self) -> ActionView {
        match self {
            JobAction::Deliver(Delivery::Push(message)) => ActionView::Deliver(
                NotificationChannel::Push,
                message@,
            ),
            JobAction::Deliver(Delivery::Email(message)) => ActionView::Deliver(
                NotificationChannel::Email,
                message@,
            ),
            JobAction::Deliver(Delivery::InApp(message)) => ActionView::Deliver(
                NotificationChannel::InApp,
                message@,
            ),
            JobAction::Skip => ActionView::Skip,
        }
    }
}

/// What a job for `event` on `channel` comes to under `settings`: nothing to
/// send where the event does not go out on the channel, the key of the
/// missing text where an email cannot be rendered, the message otherwise (an
/// email laid out as HTML).
pub open spec fn decided<E: NotificationEvent>(
    event: &E,
    channel: NotificationChannel,
    settings: SettingsView,
    catalog: Catalog,
    locale: Seq<char>,
) -> Result<ActionView, Seq<char>> {
    if !delivers(event, settings, channel) {
        Ok(ActionView::Skip)
    } else if channel == NotificationChannel::Email && missing_resource(
        event.spec_template(),
        catalog,
        locale,
    ) is Some {
        Err(missing_resource(event.spec_template(), catalog, locale)->0)
    } else if channel == NotificationChannel::Email {
        Ok(ActionView::Deliver(channel, email_text(rendered(event.spec_template(), catalog, locale))))
    } else {
        Ok(ActionView::Deliver(channel, rendered(event.spec_template(), catalog, locale)))
    }
}

/// The outcome of a decision with the texts in place of the strings, and
/// the missing key in place of the error.
pub open spec fn action_view(action: Result<JobAction, RenderError>) -> Result<ActionView, Seq<char>> {
    match action {
        Ok(a) => Ok(a@),
        Err(e) => Err(e.key@),
    }
}

impl Job {
    pub fn new(user_id: GaloyUserId, payload: NotificationEventPayload, channel: NotificationChannel) -> (job:
        Job)
        ensures
            job.user_id == user_id,
            job.payload == payload,
            job.channel == channel,
            job.tracing_data@ == Map::<String, serde_json::Value>::empty(),
    {
        Job { user_id, payload, channel, tracing_data: HashMap::new() }
    }

    /// The job with `tracing_data` attached.
    pub fn with_tracing_data(self, tracing_data: HashMap<String, serde_json::Value>) -> (job: Job)
        ensures
            job.user_id == self.user_id,
            job.payload == self.payload,
            job.channel == self.channel,
            job.tracing_data == tracing_data,
    {
        Job {
            user_id: self.user_id,
            payload: self.payload,
            channel: self.channel,
            tracing_data,
        }
    }

    /// Decides what the job does now: under the settings as loaded for this
    /// run, with the message rendered from the catalog as it is now.  The
    /// only failure is an email that cannot be rendered.
    pub fn next_action(
        &self,
        locale: &GaloyLocale,
        translations: &Translations,
        account_settings: Option<&NotificationSettings>,
        user_settings: Option<&NotificationSettings>,
    ) -> (action: Result<JobAction, RenderError>)
        ensures
            action_view(action) == decided(
                &self.payload,
                self.channel,
                effective_settings(settings_view(account_settings), settings_view(user_settings)),
                translations@,
                locale@,
            ),
    {
        let category = self.payload.category();
        if !permitted(account_settings, user_settings, self.channel, category) {
            return Ok(JobAction::Skip);
        }
        match self.channel {
            NotificationChannel::Push => Ok(
                JobAction::Deliver(
                    Delivery::Push(self.payload.to_localized_push_msg(locale.clone(), translations)),
                ),
            ),
            NotificationChannel::Email => match self.payload.to_localized_email(
                locale.clone(),
                translations,
            ) {
                Ok(Some(message)) => Ok(JobAction::Deliver(Delivery::Email(message))),
                Ok(None) => Ok(JobAction::Skip),
                Err(e) => Err(e),
            },
            NotificationChannel::InApp => match self.payload.to_localized_in_app_msg(
                locale.clone(),
                translations,
            ) {
                Some(message) => Ok(JobAction::Deliver(Delivery::InApp(message))),
                None => Ok(JobAction::Skip),
            },
        }
    }
}

/// One job for each channel of the plan, in the order push, email, in-app,
/// each for the same recipient and event.
pub fn jobs_for(plan: &SendPlan, user_id: &GaloyUserId, payload: &NotificationEventPayload) -> (jobs:
    Vec<Job>)
    ensures
        jobs@.len() == plan@.channels().len(),
        forall|i: int|
            0 <= i < jobs@.len() ==> {
                &&& (#[trigger] jobs@[i]).channel == plan@.channels()[i]
                &&& jobs@[i].user_id == *user_id
                &&& jobs@[i].payload == *payload
                &&& jobs@[i].tracing_data@ == Map::<String, serde_json::Value>::empty()
            },
{
    let channels = plan.channels();
    let mut jobs: Vec<Job> = Vec::new();
    let mut i: usize = 0;
    while i < channels.len()
        invariant
            i <= channels.len(),
            channels@ == plan@.channels(),
            jobs@.len() == i,
            forall|j: int|
                0 <= j < i ==> {
                    &&& (#[trigger] jobs@[j]).channel == channels@[j]
                    &&& jobs@[j].user_id == *user_id
                    &&& jobs@[j].payload == *payload
                    &&& jobs@[j].tracing_data@ == Map::<String, serde_json::Value>::empty()
                },
        decreases channels.len() - i,
    {
        jobs.push(Job::new(user_id.clone(), payload.clone(), channels[i]));
        i = i + 1;
    }
    jobs
}

/// How a job ends, given how its delivery went: complete on success, to be
/// run again after a failure that may pass, failed for good otherwise.
pub open spec fn result_of(outcome: Result<(), JobError>) -> JobResult {
    match outcome {
        Ok(_) => JobResult::Complete,
        Err(e) => if e.retryable() {
            JobResult::Retry
        } else {
            JobResult::Failed
        },
    }
}

/// Classifies the end of a job for the job queue, which owns the retry
/// schedule.
pub fn job_result(outcome: &Result<(), JobError>) -> (result: JobResult)
    ensures
        result == result_of(*outcome),
{
    match outcome {
        Ok(_) => JobResult::Complete,
        Err(e) => if e.is_retryable() {
            JobResult::Retry
        } else {
            JobResult::Failed
        },
    }
}

} // verus!
