use std::collections::HashMap;

use notifications::dispatch::plan;
use notifications::job::job_result;
use notifications::job::jobs_for;
use notifications::job::Delivery;
use notifications::job::ExecutorError;
use notifications::job::Job;
use notifications::job::JobAction;
use notifications::job::JobError;
use notifications::job::JobResult;
use notifications::messages::RenderError;
use notifications::notification_event::IdentityVerificationApproved;
use notifications::notification_event::IdentityVerificationReviewStarted;
use notifications::notification_event::CircleThresholdReached;
use notifications::notification_event::NotificationEventPayload;
use notifications::primitives::CircleTimeFrame;
use notifications::primitives::CircleType;
use notifications::primitives::GaloyLocale;
use notifications::primitives::GaloyUserId;
use notifications::primitives::NotificationChannel;
use notifications::primitives::SettingsValidationError;
use notifications::primitives::UserNotificationCategory;
use notifications::settings::NotificationSettings;
use notifications::translations::Translations;

fn locale() -> GaloyLocale {
    GaloyLocale::new("en".to_string())
}

fn user() -> GaloyUserId {
    GaloyUserId::new("user-7".to_string())
}

fn catalog() -> Translations {
    let mut t = Translations::new();
    t.add("en", "identity_verification_approved.title", "Verified");
    t.add("en", "identity_verification_approved.body", "You are verified.");
    t.add("en", "identity_verification_review_started.title", "Review started");
    t.add("en", "identity_verification_review_started.body", "We are on it.");
    t.add("en", "circle_threshold_reached.outer.title", "Outer circle");
    t.add("en", "circle_threshold_reached.outer.body", "%{threshold} %{time_frame}");
    t.add("en", "circle_time_frame.all_time", "ever");
    t
}

fn approved() -> NotificationEventPayload {
    NotificationEventPayload::IdentityVerificationApproved(IdentityVerificationApproved {})
}

fn review_started() -> NotificationEventPayload {
    NotificationEventPayload::IdentityVerificationReviewStarted(IdentityVerificationReviewStarted {})
}

fn threshold_reached() -> NotificationEventPayload {
    NotificationEventPayload::CircleThresholdReached(CircleThresholdReached {
        user_id: user(),
        circle_type: CircleType::Outer,
        time_frame: CircleTimeFrame::AllTime,
        threshold: 50,
    })
}

#[test]
fn one_job_per_planned_channel() {
    let payload = review_started();
    let planned = plan(&payload, &locale(), &catalog(), None, None);
    let jobs = jobs_for(&planned, &user(), &payload);
    assert_eq!(jobs.len(), 2);
    assert_eq!(jobs[0].channel, NotificationChannel::Push);
    assert_eq!(jobs[1].channel, NotificationChannel::InApp);
    for job in &jobs {
        assert_eq!(job.user_id.as_str(), "user-7");
        assert!(matches!(job.payload, NotificationEventPayload::IdentityVerificationReviewStarted(_)));
        assert!(job.tracing_data.is_empty());
    }
}

#[test]
fn jobs_carry_the_event_with_its_data() {
    let payload = threshold_reached();
    let planned = plan(&payload, &locale(), &catalog(), None, None);
    let jobs = jobs_for(&planned, &user(), &payload);
    assert_eq!(jobs.len(), 1);
    assert_eq!(jobs[0].channel, NotificationChannel::Push);
    match &jobs[0].payload {
        NotificationEventPayload::CircleThresholdReached(event) => {
            assert_eq!(event.user_id.as_str(), "user-7");
            assert_eq!(event.circle_type, CircleType::Outer);
            assert_eq!(event.time_frame, CircleTimeFrame::AllTime);
            assert_eq!(event.threshold, 50);
        }
        other => panic!("unexpected payload {:?}", other),
    }
}

#[test]
fn empty_plan_gives_no_job() {
    let mut settings = NotificationSettings::new();
    settings.disable_channel(NotificationChannel::Push);
    let payload = threshold_reached();
    let planned = plan(&payload, &locale(), &catalog(), Some(&settings), None);
    assert!(jobs_for(&planned, &user(), &payload).is_empty());
}

#[test]
fn email_job_is_queued_even_when_the_email_cannot_be_rendered() {
    let payload = approved();
    let planned = plan(&payload, &locale(), &Translations::new(), None, None);
    let jobs = jobs_for(&planned, &user(), &payload);
    assert_eq!(jobs.len(), 2);
    assert_eq!(jobs[0].channel, NotificationChannel::Push);
    assert_eq!(jobs[1].channel, NotificationChannel::Email);
}

#[test]
fn tracing_data_travels_with_the_job() {
    let job = Job::new(user(), approved(), NotificationChannel::Email);
    assert!(job.tracing_data.is_empty());
    let mut data = HashMap::new();
    data.insert(
        "traceparent".to_string(),
        serde_json::Value::String("00-abc-def-01".to_string()),
    );
    data.insert("sampled".to_string(), serde_json::Value::Bool(true));
    let job = job.with_tracing_data(data.clone());
    assert_eq!(job.tracing_data, data);
    assert_eq!(job.channel, NotificationChannel::Email);
    assert_eq!(job.user_id.as_str(), "user-7");
    assert!(matches!(job.payload, NotificationEventPayload::IdentityVerificationApproved(_)));
}

#[test]
fn push_job_delivers_the_push_message() {
    let job = Job::new(user(), threshold_reached(), NotificationChannel::Push);
    match job.next_action(&locale(), &catalog(), None, None) {
        Ok(JobAction::Deliver(Delivery::Push(message))) => {
            assert_eq!(message.title, "Outer circle");
            assert_eq!(message.body, "50 ever");
        }
        other => panic!("unexpected action {:?}", other),
    }
}

#[test]
fn email_job_delivers_the_email() {
    let job = Job::new(user(), approved(), NotificationChannel::Email);
    match job.next_action(&locale(), &catalog(), None, None) {
        Ok(JobAction::Deliver(Delivery::Email(message))) => {
            assert_eq!(message.subject, "Verified");
            assert_eq!(
                message.body,
                "<!DOCTYPE html><html><head><meta charset=\"utf-8\"><title>Verified</title></head><body><h1>Verified</h1><p>You are verified.</p></body></html>"
            );
        }
        other => panic!("unexpected action {:?}", other),
    }
}

#[test]
fn in_app_job_delivers_the_in_app_message() {
    let job = Job::new(user(), review_started(), NotificationChannel::InApp);
    match job.next_action(&locale(), &catalog(), None, None) {
        Ok(JobAction::Deliver(Delivery::InApp(message))) => {
            assert_eq!(message.title, "Review started");
            assert_eq!(message.body, "We are on it.");
        }
        other => panic!("unexpected action {:?}", other),
    }
}

#[test]
fn job_renders_from_the_catalog_as_it_is_when_it_runs() {
    let job = Job::new(user(), review_started(), NotificationChannel::Push);
    let mut translations = catalog();
    translations.add("en", "identity_verification_review_started.title", "Under review");
    match job.next_action(&locale(), &translations, None, None) {
        Ok(JobAction::Deliver(Delivery::Push(message))) => assert_eq!(message.title, "Under review"),
        other => panic!("unexpected action {:?}", other),
    }
}

#[test]
fn job_is_skipped_when_the_event_does_not_go_out_on_its_channel() {
    let email = Job::new(user(), review_started(), NotificationChannel::Email);
    assert!(matches!(email.next_action(&locale(), &catalog(), None, None), Ok(JobAction::Skip)));
    assert!(matches!(email.next_action(&locale(), &Translations::new(), None, None), Ok(JobAction::Skip)));
    let in_app = Job::new(user(), approved(), NotificationChannel::InApp);
    assert!(matches!(in_app.next_action(&locale(), &catalog(), None, None), Ok(JobAction::Skip)));
}

#[test]
fn job_is_skipped_when_the_settings_no_longer_permit_it() {
    let job = Job::new(user(), approved(), NotificationChannel::Email);
    let mut disabled = NotificationSettings::new();
    disabled.disable_channel(NotificationChannel::Email);
    let mut suppressed = NotificationSettings::new();
    suppressed.disable_category(NotificationChannel::Email, UserNotificationCategory::AdminNotification);
    let enabled = NotificationSettings::new();
    assert!(matches!(job.next_action(&locale(), &catalog(), Some(&disabled), None), Ok(JobAction::Skip)));
    assert!(matches!(job.next_action(&locale(), &catalog(), None, Some(&suppressed)), Ok(JobAction::Skip)));
    assert!(matches!(
        job.next_action(&locale(), &catalog(), Some(&disabled), Some(&enabled)),
        Ok(JobAction::Deliver(Delivery::Email(_)))
    ));
    assert!(matches!(
        job.next_action(&locale(), &Translations::new(), Some(&disabled), None),
        Ok(JobAction::Skip)
    ));
}

#[test]
fn email_job_fails_when_the_email_cannot_be_rendered() {
    let job = Job::new(user(), approved(), NotificationChannel::Email);
    let mut translations = Translations::new();
    translations.add("en", "identity_verification_approved.title", "Verified");
    match job.next_action(&locale(), &translations, None, None) {
        Err(e) => {
            assert_eq!(e, RenderError { key: "identity_verification_approved.body" });
            let error = JobError::from(e);
            assert!(!error.is_retryable());
            assert_eq!(job_result(&Err(error)), JobResult::Failed);
        }
        other => panic!("unexpected action {:?}", other),
    }
}

#[test]
fn push_job_never_fails_to_render() {
    let job = Job::new(user(), approved(), NotificationChannel::Push);
    match job.next_action(&locale(), &Translations::new(), None, None) {
        Ok(JobAction::Deliver(Delivery::Push(message))) => {
            assert_eq!(message.title, "identity_verification_approved.title");
            assert_eq!(message.body, "identity_verification_approved.body");
        }
        other => panic!("unexpected action {:?}", other),
    }
}

#[test]
fn successful_delivery_completes_the_job() {
    assert_eq!(job_result(&Ok(())), JobResult::Complete);
}

#[test]
fn storage_errors_are_retried() {
    let error = JobError::Sqlx(sqlx::Error::PoolTimedOut);
    assert!(error.is_retryable());
    assert_eq!(job_result(&Err(error)), JobResult::Retry);
    let error = JobError::from(sqlx::Error::Protocol("connection reset".to_string()));
    assert!(matches!(error, JobError::Sqlx(sqlx::Error::Protocol(_))));
    assert!(error.is_retryable());
}

#[test]
fn render_errors_are_fatal() {
    let error = JobError::Render(RenderError { key: "some.key" });
    assert!(!error.is_retryable());
    assert_eq!(job_result(&Err(error)), JobResult::Failed);
}

#[test]
fn executor_errors_are_retried_unless_permanent() {
    let transient = JobError::from(ExecutorError {
        channel: NotificationChannel::Push,
        permanent: false,
        detail: "timeout".to_string(),
    });
    assert!(matches!(transient, JobError::Executor(_)));
    assert!(transient.is_retryable());
    assert_eq!(job_result(&Err(transient)), JobResult::Retry);
    let permanent = JobError::Executor(ExecutorError {
        channel: NotificationChannel::Push,
        permanent: true,
        detail: "invalid device token".to_string(),
    });
    assert!(!permanent.is_retryable());
    assert_eq!(job_result(&Err(permanent)), JobResult::Failed);
}

#[test]
fn validation_errors_are_never_retried() {
    let error = JobError::from(NotificationChannel::parse("carrier_pigeon").unwrap_err());
    assert!(matches!(error, JobError::SettingsValidation(SettingsValidationError::UnknownChannel)));
    assert!(!error.is_retryable());
    assert_eq!(job_result(&Err(error)), JobResult::Failed);
    let error = JobError::from(UserNotificationCategory::parse("gossip").unwrap_err());
    assert!(matches!(error, JobError::SettingsValidation(SettingsValidationError::UnknownCategory)));
    assert!(!error.is_retryable());
}

#[test]
fn a_failed_channel_leaves_the_other_jobs_alone() {
    let payload = approved();
    let planned = plan(&payload, &locale(), &Translations::new(), None, None);
    let jobs = jobs_for(&planned, &user(), &payload);
    let push = jobs[0].next_action(&locale(), &Translations::new(), None, None);
    let email = jobs[1].next_action(&locale(), &Translations::new(), None, None);
    assert!(matches!(push, Ok(JobAction::Deliver(Delivery::Push(_)))));
    assert!(email.is_err());
}
