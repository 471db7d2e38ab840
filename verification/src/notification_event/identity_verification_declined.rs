//! A user's identity verification has been declined.

use vstd::prelude::*;
use crate::messages::ArgumentView;
use crate::messages::MessageTemplate;
use crate::messages::TemplateArgument;
use crate::messages::TemplateView;
use crate::notification_event::DeepLink;
use crate::notification_event::NotificationEvent;
use crate::primitives::UserNotificationCategory;

verus! {

/// Why a verification was declined.
#[derive(Copy, Clone, PartialEq, Eq, Debug, Structural)]
pub enum IdentityVerificationDeclinedReason {
    DocumentsNotClear,
    SelfieNotClear,
    DocumentsNotSupported,
    DocumentsExpired,
    DocumentsDoNotMatch,
    Other,
}

#[derive(Copy, Clone, Debug)]
pub struct IdentityVerificationDeclined {
    pub declined_reason: IdentityVerificationDeclinedReason,
}

/// The catalog key of the wording of a reason.
pub open spec fn declined_reason_key(reason: IdentityVerificationDeclinedReason) -> Seq<char> {
    match reason {
        IdentityVerificationDeclinedReason::DocumentsNotClear =>
            "identity_verification_declined.reason.documents_not_clear"@,
        IdentityVerificationDeclinedReason::SelfieNotClear =>
            "identity_verification_declined.reason.selfie_not_clear"@,
        IdentityVerificationDeclinedReason::DocumentsNotSupported =>
            "identity_verification_declined.reason.documents_not_supported"@,
        IdentityVerificationDeclinedReason::DocumentsExpired =>
            "identity_verification_declined.reason.documents_expired"@,
        IdentityVerificationDeclinedReason::DocumentsDoNotMatch =>
            "identity_verification_declined.reason.documents_do_not_match"@,
        IdentityVerificationDeclinedReason::Other => "identity_verification_declined.reason.other"@,
    }
}

impl IdentityVerificationDeclinedReason {
    pub fn key(&self) -> (key: &'static str)
        ensures
            key@ == declined_reason_key(*self),
    {
        match self {
            IdentityVerificationDeclinedReason::DocumentsNotClear =>
                "identity_verification_declined.reason.documents_not_clear",
            IdentityVerificationDeclinedReason::SelfieNotClear =>
                "identity_verification_declined.reason.selfie_not_clear",
            IdentityVerificationDeclinedReason::DocumentsNotSupported =>
                "identity_verification_declined.reason.documents_not_supported",
            IdentityVerificationDeclinedReason::DocumentsExpired =>
                "identity_verification_declined.reason.documents_expired",
            IdentityVerificationDeclinedReason::DocumentsDoNotMatch =>
                "identity_verification_declined.reason.documents_do_not_match",
            IdentityVerificationDeclinedReason::Other =>
                "identity_verification_declined.reason.other",
        }
    }
}

impl NotificationEvent for IdentityVerificationDeclined {
    open spec fn spec_category(&self) -> UserNotificationCategory {
        UserNotificationCategory::AdminNotification
    }

    open spec fn spec_deep_link(&self) -> Option<DeepLink> {
        None
    }

    open spec fn sends_email(&self) -> bool {
        true
    }

    open spec fn sends_in_app_msg(&self) -> bool {
        false
    }

    open spec fn spec_template(&self) -> TemplateView {
        TemplateView::plain(
            "identity_verification_declined.title"@,
            "identity_verification_declined.body"@,
        ).with("reason"@, ArgumentView::Translated(declined_reason_key(self.declined_reason)))
    }

    fn category(&self) -> UserNotificationCategory {
        UserNotificationCategory::AdminNotification
    }

    fn deep_link(&self) -> Option<DeepLink> {
        None
    }

    fn should_send_email(&self) -> bool {
        true
    }

    fn should_send_in_app_msg(&self) -> bool {
        false
    }

    fn template(&self) -> MessageTemplate {
        MessageTemplate::new(
            "identity_verification_declined.title",
            "identity_verification_declined.body",
        ).with("reason", TemplateArgument::Translated(self.declined_reason.key()))
    }
}

} // verus!
