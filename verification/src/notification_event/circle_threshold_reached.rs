//! A user's circle has reached a size threshold.

use vstd::prelude::*;
use crate::messages::ArgumentView;
use crate::messages::MessageTemplate;
use crate::messages::TemplateArgument;
use crate::messages::TemplateView;
use crate::notification_event::DeepLink;
use crate::notification_event::NotificationEvent;
use crate::primitives::CircleTimeFrame;
use crate::primitives::CircleType;
use crate::primitives::GaloyUserId;
use crate::primitives::UserNotificationCategory;

verus! {

#[derive(Debug)]
pub struct CircleThresholdReached {
    pub user_id: GaloyUserId,
    pub circle_type: CircleType,
    pub time_frame: CircleTimeFrame,
    pub threshold: u32,
}

impl Clone for CircleThresholdReached {
    fn clone(&self) -> (copy: CircleThresholdReached)
        ensures
            copy == *self,
    {
        CircleThresholdReached {
            user_id: self.user_id.clone(),
            circle_type: self.circle_type,
            time_frame: self.time_frame,
            threshold: self.threshold,
        }
    }
}

/// The catalog key of the name of a time frame.
pub open spec fn time_frame_key(time_frame: CircleTimeFrame) -> Seq<char> {
    match time_frame {
        CircleTimeFrame::Month => "circle_time_frame.month"@,
        CircleTimeFrame::AllTime => "circle_time_frame.all_time"@,
    }
}

impl CircleThresholdReached {
    pub fn user_id(&self) -> (user_id: &GaloyUserId)
        ensures
            *user_id == self.user_id,
    {
        &self.user_id
    }
}

impl NotificationEvent for CircleThresholdReached {
    open spec fn spec_category(&self) -> UserNotificationCategory {
        UserNotificationCategory::Circles
    }

    open spec fn spec_deep_link(&self) -> Option<DeepLink> {
        Some(DeepLink::Circles)
    }

    open spec fn sends_email(&self) -> bool {
        false
    }

    open spec fn sends_in_app_msg(&self) -> bool {
        false
    }

    open spec fn spec_template(&self) -> TemplateView {
        match self.circle_type {
            CircleType::Inner => TemplateView::plain(
                "circle_threshold_reached.inner.title"@,
                "circle_threshold_reached.inner.body"@,
            ),
            CircleType::Outer => TemplateView::plain(
                "circle_threshold_reached.outer.title"@,
                "circle_threshold_reached.outer.body"@,
            ),
        }.with("threshold"@, ArgumentView::Number(self.threshold as nat)).with(
            "time_frame"@,
            ArgumentView::Translated(time_frame_key(self.time_frame)),
        )
    }

    fn category(&self) -> UserNotificationCategory {
        UserNotificationCategory::Circles
    }

    fn deep_link(&self) -> Option<DeepLink> {
        Some(DeepLink::Circles)
    }

    fn should_send_email(&self) -> bool {
        false
    }

    fn should_send_in_app_msg(&self) -> bool {
        false
    }

    fn template(&self) -> MessageTemplate {
        let keys = match self.circle_type {
            CircleType::Inner => MessageTemplate::new(
                "circle_threshold_reached.inner.title",
                "circle_threshold_reached.inner.body",
            ),
            CircleType::Outer => MessageTemplate::new(
                "circle_threshold_reached.outer.title",
                "circle_threshold_reached.outer.body",
            ),
        };
        let time_frame = match self.time_frame {
            CircleTimeFrame::Month => "circle_time_frame.month",
            CircleTimeFrame::AllTime => "circle_time_frame.all_time",
        };
        keys.with("threshold", TemplateArgument::Number(self.threshold as u64)).with(
            "time_frame",
            TemplateArgument::Translated(time_frame),
        )
    }
}

} // verus!
