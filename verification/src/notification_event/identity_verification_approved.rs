//! A user's identity verification has been approved.

use vstd::prelude::*;
use crate::messages::MessageTemplate;
use crate::messages::TemplateView;
use crate::notification_event::DeepLink;
use crate::notification_event::NotificationEvent;
use crate::primitives::UserNotificationCategory;

verus! {

#[derive(Copy, Clone, Debug)]
pub struct IdentityVerificationApproved {}

impl NotificationEvent for IdentityVerificationApproved {
    open spec fn spec_category(&self) -> UserNotificationCategory {
        UserNotificationCategory::AdminNotification
    }

    open spec fn spec_deep_link(&self) -> Option<DeepLink> {
        None
    }

    open spec fn sends_email(&self) -> bool {
        true
    }

    open spec fn sends_in_app_msg(&self) -> bool {
        false
    }

    open spec fn spec_template(&self) -> TemplateView {
        TemplateView::plain(
            "identity_verification_approved.title"@,
            "identity_verification_approved.body"@,
        )
    }

    fn category(&self) -> UserNotificationCategory {
        UserNotificationCategory::AdminNotification
    }

    fn deep_link(&self) -> Option<DeepLink> {
        None
    }

    fn should_send_email(&self) -> bool {
        true
    }

    fn should_send_in_app_msg(&self) -> bool {
        false
    }

    fn template(&self) -> MessageTemplate {
        MessageTemplate::new(
            "identity_verification_approved.title",
            "identity_verification_approved.body",
        )
    }
}

} // verus!
