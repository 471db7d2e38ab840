//! A user's circle has grown.

use vstd::prelude::*;
use crate::messages::ArgumentView;
use crate::messages::MessageTemplate;
use crate::messages::TemplateArgument;
use crate::messages::TemplateView;
use crate::notification_event::DeepLink;
use crate::notification_event::NotificationEvent;
use crate::primitives::CircleType;
use crate::primitives::GaloyUserId;
use crate::primitives::UserNotificationCategory;

verus! {

#[derive(Debug)]
pub struct CircleGrew {
    pub user_id: GaloyUserId,
    pub circle_type: CircleType,
    pub this_month_circle_size: u32,
    pub all_time_circle_size: u32,
}

impl Clone for CircleGrew {
    fn clone(&self) -> (copy: CircleGrew)
        ensures
            copy == *self,
    {
        CircleGrew {
            user_id: self.user_id.clone(),
            circle_type: self.circle_type,
            this_month_circle_size: self.this_month_circle_size,
            all_time_circle_size: self.all_time_circle_size,
        }
    }
}

impl CircleGrew {
    pub fn user_id(&self) -> (user_id: &GaloyUserId)
        ensures
            *user_id == self.user_id,
    {
        &self.user_id
    }
}

impl NotificationEvent for CircleGrew {
    open spec fn spec_category(&self) -> UserNotificationCategory {
        UserNotificationCategory::Circles
    }

    open spec fn spec_deep_link(&self) -> Option<DeepLink> {
        Some(DeepLink::Circles)
    }

    open spec fn sends_email(&self) -> bool {
        false
    }

    open spec fn sends_in_app_msg(&self) -> bool {
        false
    }

    open spec fn spec_template(&self) -> TemplateView {
        match self.circle_type {
            CircleType::Inner => TemplateView::plain(
                "circle_grew.inner.title"@,
                "circle_grew.inner.body"@,
            ),
            CircleType::Outer => TemplateView::plain(
                "circle_grew.outer.title"@,
                "circle_grew.outer.body"@,
            ),
        }.with(
            "this_month_circle_size"@,
            ArgumentView::Number(self.this_month_circle_size as nat),
        ).with("all_time_circle_size"@, ArgumentView::Number(self.all_time_circle_size as nat))
    }

    fn category(&self) -> UserNotificationCategory {
        UserNotificationCategory::Circles
    }

    fn deep_link(&self) -> Option<DeepLink> {
        Some(DeepLink::Circles)
    }

    fn should_send_email(&self) -> bool {
        false
    }

    fn should_send_in_app_msg(&self) -> bool {
        false
    }

    fn template(&self) -> MessageTemplate {
        let keys = match self.circle_type {
            CircleType::Inner => MessageTemplate::new(
                "circle_grew.inner.title",
                "circle_grew.inner.body",
            ),
            CircleType::Outer => MessageTemplate::new(
                "circle_grew.outer.title",
                "circle_grew.outer.body",
            ),
        };
        keys.with(
            "this_month_circle_size",
            TemplateArgument::Number(self.this_month_circle_size as u64),
        ).with("all_time_circle_size", TemplateArgument::Number(self.all_time_circle_size as u64))
    }
}

} // verus!
