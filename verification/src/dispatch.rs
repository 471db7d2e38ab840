//! The dispatch decision: which channels an event goes out on for one
//! recipient, and the message for each.
//!
//! Where the recipient has a settings record of their own, it alone decides;
//! otherwise the account's record does; with neither, everything is enabled.
//! A channel is planned exactly when the event supports it, the settings have
//! it enabled, and the event's category is not suppressed on it.

use vstd::prelude::*;
use crate::messages::email_text;
use crate::messages::missing_resource;
use crate::messages::rendered;
use crate::messages::LocalizedEmail;
use crate::messages::LocalizedInAppMessage;
use crate::messages::LocalizedPushMessage;
use crate::messages::MessageText;
use crate::messages::RenderError;
use crate::notification_event::NotificationEvent;
use crate::primitives::GaloyLocale;
use crate::primitives::NotificationChannel;
use crate::primitives::UserNotificationCategory;
use crate::settings::NotificationSettings;
use crate::settings::SettingsView;
use crate::translations::Catalog;
use crate::translations::Translations;

verus! {

/// Whether the event itself can go out on `channel`.  Every event can be
/// pushed; email and in-app display are for the event to say.
pub open spec fn event_supports<E: NotificationEvent>(event: &E, channel: NotificationChannel) -> bool {
    match channel {
        NotificationChannel::Push => true,
        NotificationChannel::Email => event.sends_email(),
        NotificationChannel::InApp => event.sends_in_app_msg(),
    }
}

/// What a record says, where there is one.
pub open spec fn settings_view(settings: Option<&NotificationSettings>) -> Option<SettingsView> {
    match settings {
        Some(s) => Some(s@),
        None => None,
    }
}

/// The settings that govern a delivery: the user's where the user has a
/// record, else the account's, else the all-enabled default.
pub open spec fn effective_settings(account: Option<SettingsView>, user: Option<SettingsView>) -> SettingsView {
    match user {
        Some(settings) => settings,
        None => match account {
            Some(settings) => settings,
            None => SettingsView::all_enabled(),
        },
    }
}

/// Whether `event` goes out on `channel` under `settings`.
pub open spec fn delivers<E: NotificationEvent>(
    event: &E,
    settings: SettingsView,
    channel: NotificationChannel,
) -> bool {
    event_supports(event, channel) && settings.permits(channel, event.spec_category())
}

/// What a plan holds: for each channel either nothing, or the message.  For
/// the email channel the place of the message may be taken by the catalog key
/// for want of which it could not be rendered.
pub struct PlanView {
    pub push: Option<MessageText>,
    pub email: Option<Result<MessageText, Seq<char>>>,
    pub in_app: Option<MessageText>,
}

impl PlanView {
    pub open spec fn includes(self, channel: NotificationChannel) -> bool {
        match channel {
            NotificationChannel::Push => self.push is Some,
            NotificationChannel::Email => self.email is Some,
            NotificationChannel::InApp => self.in_app is Some,
        }
    }

    /// The planned channels, in the order push, email, in-app.
    pub open spec fn channels(self) -> Seq<NotificationChannel> {
        (if self.push is Some {
            seq![NotificationChannel::Push]
        } else {
            Seq::empty()
        }) + (if self.email is Some {
            seq![NotificationChannel::Email]
        } else {
            Seq::empty()
        }) + (if self.in_app is Some {
            seq![NotificationChannel::InApp]
        } else {
            Seq::empty()
        })
    }
}

/// The plan for `event` under `settings`, rendered for `locale`.
pub open spec fn planned<E: NotificationEvent>(
    event: &E,
    settings: SettingsView,
    catalog: Catalog,
    locale: Seq<char>,
) -> PlanView {
    PlanView {
        push: if delivers(event, settings, NotificationChannel::Push) {
            Some(rendered(event.spec_template(), catalog, locale))
        } else {
            None
        },
        email: if delivers(event, settings, NotificationChannel::Email) {
            Some(
                match missing_resource(event.spec_template(), catalog, locale) {
                    Some(key) => Err(key),
                    None => Ok(email_text(rendered(event.spec_template(), catalog, locale))),
                },
            )
        } else {
            None
        },
        in_app: if delivers(event, settings, NotificationChannel::InApp) {
            Some(rendered(event.spec_template(), catalog, locale))
        } else {
            None
        },
    }
}

/// The channels on which one event is delivered to one recipient, each with
/// its message.  A plan is computed afresh for every delivery attempt.
#[derive(Debug, PartialEq, Eq)]
pub struct SendPlan {
    pub push: Option<LocalizedPushMessage>,
    /// The email, or the reason it could not be rendered: the channel is
    /// planned either way, so that the failure surfaces with its job.
    pub email: Option<Result<LocalizedEmail, RenderError>>,
    pub in_app: Option<LocalizedInAppMessage>,
}

impl View for SendPlan {
    type V = PlanView;

    open spec fn view(&self) -> PlanView {
        PlanView {
            push: match self.push {
                Some(message) => Some(message@),
                None => None,
            },
            email: match self.email {
                Some(Ok(message)) => Some(Ok(message@)),
                Some(Err(e)) => Some(Err(e.key@)),
                None => None,
            },
            in_app: match self.in_app {
                Some(message) => Some(message@),
                None => None,
            },
        }
    }
}

impl SendPlan {
    pub fn includes(&self, channel: NotificationChannel) -> (included: bool)
        ensures
            included == self@.includes(channel),
    {
        match channel {
            NotificationChannel::Push => self.push.is_some(),
            NotificationChannel::Email => self.email.is_some(),
            NotificationChannel::InApp => self.in_app.is_some(),
        }
    }

    /// The planned channels, in the order push, email, in-app.
    pub fn channels(&self) -> (channels: Vec<NotificationChannel>)
        ensures
            channels@ == self@.channels(),
    {
        let mut channels: Vec<NotificationChannel> = Vec::new();
        if self.push.is_some() {
            channels.push(NotificationChannel::Push);
        }
        if self.email.is_some() {
            channels.push(NotificationChannel::Email);
        }
        if self.in_app.is_some() {
            channels.push(NotificationChannel::InApp);
        }
        assert(channels@ =~= self@.channels());
        channels
    }
}

/// Whether the governing settings let `category` through on `channel`.
pub fn permitted(
    account_settings: Option<&NotificationSettings>,
    user_settings: Option<&NotificationSettings>,
    channel: NotificationChannel,
    category: UserNotificationCategory,
) -> (permitted: bool)
    ensures
        permitted == effective_settings(
            settings_view(account_settings),
            settings_view(user_settings),
        ).permits(channel, category),
{
    match user_settings {
        Some(settings) => settings.should_send_notification(channel, category),
        None => match account_settings {
            Some(settings) => settings.should_send_notification(channel, category),
            None => true,
        },
    }
}

/// Plans the delivery of `event` to a recipient who asks for `locale`.
pub fn plan<E: NotificationEvent>(
    event: &E,
    locale: &GaloyLocale,
    translations: &Translations,
    account_settings: Option<&NotificationSettings>,
    user_settings: Option<&NotificationSettings>,
) -> (plan: SendPlan)
    ensures
        plan@ == planned(
            event,
            effective_settings(settings_view(account_settings), settings_view(user_settings)),
            translations@,
            locale@,
        ),
{
    let category = event.category();
    let push = if permitted(account_settings, user_settings, NotificationChannel::Push, category) {
        Some(event.to_localized_push_msg(locale.clone(), translations))
    } else {
        None
    };
    let email = if permitted(
        account_settings,
        user_settings,
        NotificationChannel::Email,
        category,
    ) {
        match event.to_localized_email(locale.clone(), translations) {
            Ok(Some(message)) => Some(Ok(message)),
            Ok(None) => None,
            Err(e) => Some(Err(e)),
        }
    } else {
        None
    };
    let in_app = if permitted(
        account_settings,
        user_settings,
        NotificationChannel::InApp,
        category,
    ) {
        event.to_localized_in_app_msg(locale.clone(), translations)
    } else {
        None
    };
    SendPlan { push, email, in_app }
}

/// A plan includes a channel exactly when the event goes out on it.
pub proof fn lemma_plan_includes_what_delivers<E: NotificationEvent>(
    event: &E,
    settings: SettingsView,
    catalog: Catalog,
    locale: Seq<char>,
    channel: NotificationChannel,
)
    ensures
        planned(event, settings, catalog, locale).includes(channel) == delivers(
            event,
            settings,
            channel,
        ),
{
}

/// Under the all-enabled default, and so for a recipient without any
/// settings record, a plan includes every channel the event supports and no
/// other.
pub proof fn lemma_default_settings_plan_what_the_event_supports<E: NotificationEvent>(
    event: &E,
    catalog: Catalog,
    locale: Seq<char>,
    channel: NotificationChannel,
)
    ensures
        effective_settings(None, None) == SettingsView::all_enabled(),
        planned(event, SettingsView::all_enabled(), catalog, locale).includes(channel)
            == event_supports(event, channel),
{
}

/// A channel that the settings have disabled is in no plan, whatever the
/// event supports.
pub proof fn lemma_disabled_channel_is_never_planned<E: NotificationEvent>(
    event: &E,
    settings: SettingsView,
    catalog: Catalog,
    locale: Seq<char>,
    channel: NotificationChannel,
)
    requires
        !settings.channel_enabled(channel),
    ensures
        !planned(event, settings, catalog, locale).includes(channel),
{
}

/// Suppressing a category on a channel keeps events of that category off
/// that channel, and changes nothing else: the other channels are planned as
/// before, and so is that channel for events of any other category.
pub proof fn lemma_suppressed_category_is_excluded_from_its_channel_only<E: NotificationEvent>(
    event: &E,
    settings: SettingsView,
    catalog: Catalog,
    locale: Seq<char>,
    channel: NotificationChannel,
    category: UserNotificationCategory,
)
    ensures
        event.spec_category() == category ==> !planned(
            event,
            settings.disable_category(channel, category),
            catalog,
            locale,
        ).includes(channel),
        event.spec_category() != category ==> planned(
            event,
            settings.disable_category(channel, category),
            catalog,
            locale,
        ) == planned(event, settings, catalog, locale),
        forall|other: NotificationChannel|
            other != channel ==> #[trigger] planned(
                event,
                settings.disable_category(channel, category),
                catalog,
                locale,
            ).includes(other) == planned(event, settings, catalog, locale).includes(other),
{
}

} // verus!
