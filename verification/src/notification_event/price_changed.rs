//! The price of bitcoin has moved.

use vstd::prelude::*;
use crate::messages::ArgumentView;
use crate::messages::MessageTemplate;
use crate::messages::TemplateArgument;
use crate::messages::TemplateView;
use crate::notification_event::DeepLink;
use crate::notification_event::NotificationEvent;
use crate::primitives::UserNotificationCategory;

verus! {

#[derive(Copy, Clone, PartialEq, Eq, Debug, Structural)]
pub enum PriceChangeDirection {
    Up,
    Down,
}

#[derive(Copy, Clone, Debug)]
pub struct PriceChanged {
    /// The price of one bitcoin, in US cents.
    pub price_of_one_bitcoin: u64,
    pub direction: PriceChangeDirection,
    /// The size of the move, in hundredths of a percent.
    pub change_in_basis_points: u32,
}

impl NotificationEvent for PriceChanged {
    open spec fn spec_category(&self) -> UserNotificationCategory {
        UserNotificationCategory::Price
    }

    open spec fn spec_deep_link(&self) -> Option<DeepLink> {
        None
    }

    open spec fn sends_email(&self) -> bool {
        false
    }

    open spec fn sends_in_app_msg(&self) -> bool {
        false
    }

    open spec fn spec_template(&self) -> TemplateView {
        match self.direction {
            PriceChangeDirection::Up => TemplateView::plain(
                "price_changed.up.title"@,
                "price_changed.up.body"@,
            ),
            PriceChangeDirection::Down => TemplateView::plain(
                "price_changed.down.title"@,
                "price_changed.down.body"@,
            ),
        }.with("price_in_cents"@, ArgumentView::Number(self.price_of_one_bitcoin as nat)).with(
            "change_in_basis_points"@,
            ArgumentView::Number(self.change_in_basis_points as nat),
        )
    }

    fn category(&self) -> UserNotificationCategory {
        UserNotificationCategory::Price
    }

    fn deep_link(&self) -> Option<DeepLink> {
        None
    }

    fn should_send_email(&self) -> bool {
        false
    }

    fn should_send_in_app_msg(&self) -> bool {
        false
    }

    fn template(&self) -> MessageTemplate {
        let keys = match self.direction {
            PriceChangeDirection::Up => MessageTemplate::new(
                "price_changed.up.title",
                "price_changed.up.body",
            ),
            PriceChangeDirection::Down => MessageTemplate::new(
                "price_changed.down.title",
                "price_changed.down.body",
            ),
        };
        keys.with("price_in_cents", TemplateArgument::Number(self.price_of_one_bitcoin)).with(
            "change_in_basis_points",
            TemplateArgument::Number(self.change_in_basis_points as u64),
        )
    }
}

} // verus!
