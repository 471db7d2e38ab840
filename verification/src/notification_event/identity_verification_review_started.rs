//! The review of a user's identity verification has started.

use vstd::prelude::*;
use crate::messages::MessageTemplate;
use crate::messages::TemplateView;
use crate::notification_event::DeepLink;
use crate::notification_event::NotificationEvent;
use crate::primitives::UserNotificationCategory;

verus! {

#[derive(Copy, Clone, Debug)]
pub struct IdentityVerificationReviewStarted {}

impl NotificationEvent for IdentityVerificationReviewStarted {
    open spec fn spec_category(&self) -> UserNotificationCategory {
        UserNotificationCategory::AdminNotification
    }

    open spec fn spec_deep_link(&self) -> Option<DeepLink> {
        None
    }

    open spec fn sends_email(&self) -> bool {
        false
    }

    open spec fn sends_in_app_msg(&self) -> bool {
        true
    }

    open spec fn spec_template(&self) -> TemplateView {
        TemplateView::plain(
            "identity_verification_review_started.title"@,
            "identity_verification_review_started.body"@,
        )
    }

    fn category(&self) -> UserNotificationCategory {
        UserNotificationCategory::AdminNotification
    }

    fn deep_link(&self) -> Option<DeepLink> {
        None
    }

    fn should_send_email(&self) -> bool {
        false
    }

    fn should_send_in_app_msg(&self) -> bool {
        true
    }

    fn template(&self) -> MessageTemplate {
        MessageTemplate::new(
            "identity_verification_review_started.title",
            "identity_verification_review_started.body",
        )
    }
}

} // verus!
