//! Notification settings: which channels a recipient has switched off, and
//! which categories are suppressed on each channel.
//!
//! A record holds overrides only.  A recipient without a record is treated
//! exactly as one whose record holds no override: everything is enabled.

use vstd::prelude::*;
use crate::primitives::NotificationChannel;
use crate::primitives::UserNotificationCategory;

verus! {

/// What a settings record says: the channels switched off, and the categories
/// suppressed on each channel.
#[verifier::ext_equal]
pub struct SettingsView {
    pub disabled_channels: Set<NotificationChannel>,
    pub disabled_categories: Set<(NotificationChannel, UserNotificationCategory)>,
}

/// One change a recipient can make to a settings record.
#[derive(Copy, Clone, PartialEq, Eq, Debug, Structural)]
pub enum SettingsChange {
    DisableChannel(NotificationChannel),
    EnableChannel(NotificationChannel),
    DisableCategory(NotificationChannel, UserNotificationCategory),
    EnableCategory(NotificationChannel, UserNotificationCategory),
}

impl SettingsView {
    /// The settings of a recipient who has changed nothing.
    pub open spec fn all_enabled() -> SettingsView {
        SettingsView { disabled_channels: Set::empty(), disabled_categories: Set::empty() }
    }

    pub open spec fn channel_enabled(self, channel: NotificationChannel) -> bool {
        !self.disabled_channels.contains(channel)
    }

    pub open spec fn category_suppressed(
        self,
        channel: NotificationChannel,
        category: UserNotificationCategory,
    ) -> bool {
        self.disabled_categories.contains((channel, category))
    }

    /// The categories suppressed on `channel`.
    pub open spec fn suppressed_on(self, channel: NotificationChannel) -> Set<UserNotificationCategory> {
        Set::new(|category: UserNotificationCategory| self.category_suppressed(channel, category))
    }

    /// Whether the settings let a notification of `category` through on
    /// `channel`: the channel is enabled and the category is not suppressed
    /// there.
    pub open spec fn permits(
        self,
        channel: NotificationChannel,
        category: UserNotificationCategory,
    ) -> bool {
        self.channel_enabled(channel) && !self.category_suppressed(channel, category)
    }

    pub open spec fn disable_channel(self, channel: NotificationChannel) -> SettingsView {
        SettingsView { disabled_channels: self.disabled_channels.insert(channel), ..self }
    }

    pub open spec fn enable_channel(self, channel: NotificationChannel) -> SettingsView {
        SettingsView { disabled_channels: self.disabled_channels.remove(channel), ..self }
    }

    pub open spec fn disable_category(
        self,
        channel: NotificationChannel,
        category: UserNotificationCategory,
    ) -> SettingsView {
        SettingsView {
            disabled_categories: self.disabled_categories.insert((channel, category)),
            ..self
        }
    }

    pub open spec fn enable_category(
        self,
        channel: NotificationChannel,
        category: UserNotificationCategory,
    ) -> SettingsView {
        SettingsView {
            disabled_categories: self.disabled_categories.remove((channel, category)),
            ..self
        }
    }

    pub open spec fn apply(self, change: SettingsChange) -> SettingsView {
        match change {
            SettingsChange::DisableChannel(channel) => self.disable_channel(channel),
            SettingsChange::EnableChannel(channel) => self.enable_channel(channel),
            SettingsChange::DisableCategory(channel, category) => self.disable_category(
                channel,
                category,
            ),
            SettingsChange::EnableCategory(channel, category) => self.enable_category(
                channel,
                category,
            ),
        }
    }
}

/// What a stored record, or the lack of one, says.
pub open spec fn view_or_default(found: Option<NotificationSettings>) -> SettingsView {
    match found {
        Some(settings) => settings@,
        None => SettingsView::all_enabled(),
    }
}

/// The preferences for one channel.
struct ChannelPreferences {
    enabled: bool,
    suppressed: Vec<UserNotificationCategory>,
}

impl ChannelPreferences {
    #[verifier::type_invariant]
    spec fn no_category_twice(self) -> bool {
        self.suppressed@.no_duplicates()
    }

    spec fn suppresses(self, category: UserNotificationCategory) -> bool {
        self.suppressed@.contains(category)
    }

    fn new() -> (prefs: ChannelPreferences)
        ensures
            prefs.enabled,
            forall|category: UserNotificationCategory| !prefs.suppresses(category),
    {
        ChannelPreferences { enabled: true, suppressed: Vec::new() }
    }

    fn set_enabled(&mut self, enabled: bool)
        ensures
            final(self).enabled == enabled,
            final(self).suppressed == old(self).suppressed,
    {
        proof {
            use_type_invariant(&*self);
        }
        self.enabled = enabled;
    }

    fn is_suppressed(&self, category: UserNotificationCategory) -> (found: bool)
        ensures
            found == self.suppresses(category),
    {
        let mut i: usize = 0;
        while i < self.suppressed.len()
            invariant
                i <= self.suppressed.len(),
                forall|j: int| 0 <= j < i ==> self.suppressed@[j] != category,
            decreases self.suppressed.len() - i,
        {
            if self.suppressed[i] == category {
                return true;
            }
            i = i + 1;
        }
        false
    }

    fn suppress(&mut self, category: UserNotificationCategory)
        ensures
            final(self).enabled == old(self).enabled,
            forall|c: UserNotificationCategory|
                final(self).suppresses(c) == (c == category || old(self).suppresses(c)),
    {
        proof {
            use_type_invariant(&*self);
        }
        if !self.is_suppressed(category) {
            let ghost before = self.suppressed@;
            let mut extended: Vec<UserNotificationCategory> = Vec::new();
            std::mem::swap(&mut self.suppressed, &mut extended);
            extended.push(category);
            assert forall|c: UserNotificationCategory|
                extended@.contains(c) == (c == category || before.contains(c)) by {
                if before.contains(c) {
                    let j = choose|j: int| 0 <= j < before.len() && before[j] == c;
                    assert(extended@[j] == c);
                }
                assert(extended@[before.len() as int] == category);
            }
            self.suppressed = extended;
        }
    }

    fn unsuppress(&mut self, category: UserNotificationCategory)
        ensures
            final(self).enabled == old(self).enabled,
            forall|c: UserNotificationCategory|
                final(self).suppresses(c) == (c != category && old(self).suppresses(c)),
    {
        proof {
            use_type_invariant(&*self);
        }
        let mut kept: Vec<UserNotificationCategory> = Vec::new();
        let mut i: usize = 0;
        while i < self.suppressed.len()
            invariant
                i <= self.suppressed.len(),
                self.suppressed@.no_duplicates(),
                kept@.no_duplicates(),
                forall|k: int|
                    0 <= k < kept.len() ==> kept@[k] != category && exists|j: int|
                        0 <= j < i && self.suppressed@[j] == #[trigger] kept@[k],
                forall|j: int|
                    0 <= j < i && self.suppressed@[j] != category ==> kept@.contains(
                        #[trigger] self.suppressed@[j],
                    ),
            decreases self.suppressed.len() - i,
        {
            let c = self.suppressed[i];
            if c != category {
                let ghost before = kept@;
                kept.push(c);
                assert forall|j: int|
                    0 <= j < i + 1 && self.suppressed@[j] != category implies kept@.contains(
                    #[trigger] self.suppressed@[j],
                ) by {
                    if j < i {
                        let k = choose|k: int| 0 <= k < before.len() && before[k] == self.suppressed@[j];
                        assert(kept@[k] == self.suppressed@[j]);
                    } else {
                        assert(kept@[before.len() as int] == c);
                    }
                }
            }
            i = i + 1;
        }
        self.suppressed = kept;
    }
}

/// The notification settings of one account or of one user.
pub struct NotificationSettings {
    push: ChannelPreferences,
    email: ChannelPreferences,
    in_app: ChannelPreferences,
}

impl View for NotificationSettings {
    type V = SettingsView;

    closed spec fn view(&self) -> SettingsView {
        SettingsView {
            disabled_channels: Set::new(|channel: NotificationChannel| !self.prefs(channel).enabled),
            disabled_categories: Set::new(
                |pair: (NotificationChannel, UserNotificationCategory)|
                    self.prefs(pair.0).suppresses(pair.1),
            ),
        }
    }
}

impl NotificationSettings {
    spec fn prefs(self, channel: NotificationChannel) -> ChannelPreferences {
        match channel {
            NotificationChannel::Push => self.push,
            NotificationChannel::Email => self.email,
            NotificationChannel::InApp => self.in_app,
        }
    }

    fn prefs_of(&self, channel: NotificationChannel) -> (prefs: &ChannelPreferences)
        ensures
            *prefs == self.prefs(channel),
    {
        match channel {
            NotificationChannel::Push => &self.push,
            NotificationChannel::Email => &self.email,
            NotificationChannel::InApp => &self.in_app,
        }
    }

    /// The record of a recipient who has changed nothing: every channel
    /// enabled, no category suppressed.
    pub fn new() -> (settings: NotificationSettings)
        ensures
            settings@ == SettingsView::all_enabled(),
    {
        let settings = NotificationSettings {
            push: ChannelPreferences::new(),
            email: ChannelPreferences::new(),
            in_app: ChannelPreferences::new(),
        };
        assert(settings@ =~= SettingsView::all_enabled());
        settings
    }

    pub fn is_channel_enabled(&self, channel: NotificationChannel) -> (enabled: bool)
        ensures
            enabled == self@.channel_enabled(channel),
    {
        self.prefs_of(channel).enabled
    }

    pub fn is_category_suppressed(
        &self,
        channel: NotificationChannel,
        category: UserNotificationCategory,
    ) -> (suppressed: bool)
        ensures
            suppressed == self@.category_suppressed(channel, category),
    {
        self.prefs_of(channel).is_suppressed(category)
    }

    /// Whether a notification of `category` may go out on `channel`.
    pub fn should_send_notification(
        &self,
        channel: NotificationChannel,
        category: UserNotificationCategory,
    ) -> (send: bool)
        ensures
            send == self@.permits(channel, category),
    {
        self.is_channel_enabled(channel) && !self.is_category_suppressed(channel, category)
    }

    /// The categories suppressed on `channel`, each listed once.
    pub fn disabled_categories_for(&self, channel: NotificationChannel) -> (categories: Vec<
        UserNotificationCategory,
    >)
        ensures
            categories@.no_duplicates(),
            categories@.to_set() == self@.suppressed_on(channel),
    {
        let prefs = self.prefs_of(channel);
        proof {
            use_type_invariant(prefs);
        }
        let mut categories: Vec<UserNotificationCategory> = Vec::new();
        let mut i: usize = 0;
        while i < prefs.suppressed.len()
            invariant
                i <= prefs.suppressed.len(),
                categories@ == prefs.suppressed@.subrange(0, i as int),
            decreases prefs.suppressed.len() - i,
        {
            categories.push(prefs.suppressed[i]);
            assert(categories@ =~= prefs.suppressed@.subrange(0, i + 1));
            i = i + 1;
        }
        assert(categories@ =~= prefs.suppressed@);
        assert(categories@.to_set() =~= self@.suppressed_on(channel));
        categories
    }

    pub fn disable_channel(&mut self, channel: NotificationChannel)
        ensures
            final(self)@ == old(self)@.disable_channel(channel),
    {
        match channel {
            NotificationChannel::Push => {
                self.push.set_enabled(false);
            },
            NotificationChannel::Email => {
                self.email.set_enabled(false);
            },
            NotificationChannel::InApp => {
                self.in_app.set_enabled(false);
            },
        }
        assert(self@ =~= old(self)@.disable_channel(channel));
    }

    pub fn enable_channel(&mut self, channel: NotificationChannel)
        ensures
            final(self)@ == old(self)@.enable_channel(channel),
    {
        match channel {
            NotificationChannel::Push => {
                self.push.set_enabled(true);
            },
            NotificationChannel::Email => {
                self.email.set_enabled(true);
            },
            NotificationChannel::InApp => {
                self.in_app.set_enabled(true);
            },
        }
        assert(self@ =~= old(self)@.enable_channel(channel));
    }

    /// Suppresses `category` on `channel`; the channel's own state stays as
    /// it is.
    pub fn disable_category(
        &mut self,
        channel: NotificationChannel,
        category: UserNotificationCategory,
    )
        ensures
            final(self)@ == old(self)@.disable_category(channel, category),
    {
        match channel {
            NotificationChannel::Push => {
                self.push.suppress(category);
            },
            NotificationChannel::Email => {
                self.email.suppress(category);
            },
            NotificationChannel::InApp => {
                self.in_app.suppress(category);
            },
        }
        assert(self@ =~= old(self)@.disable_category(channel, category));
    }

    /// Lifts the suppression of `category` on `channel`; the channel's own
    /// state stays as it is.
    pub fn enable_category(
        &mut self,
        channel: NotificationChannel,
        category: UserNotificationCategory,
    )
        ensures
            final(self)@ == old(self)@.enable_category(channel, category),
    {
        match channel {
            NotificationChannel::Push => {
                self.push.unsuppress(category);
            },
            NotificationChannel::Email => {
                self.email.unsuppress(category);
            },
            NotificationChannel::InApp => {
                self.in_app.unsuppress(category);
            },
        }
        assert(self@ =~= old(self)@.enable_category(channel, category));
    }

    pub fn apply(&mut self, change: SettingsChange)
        ensures
            final(self)@ == old(self)@.apply(change),
    {
        match change {
            SettingsChange::DisableChannel(channel) => self.disable_channel(channel),
            SettingsChange::EnableChannel(channel) => self.enable_channel(channel),
            SettingsChange::DisableCategory(channel, category) => self.disable_category(
                channel,
                category,
            ),
            SettingsChange::EnableCategory(channel, category) => self.enable_category(
                channel,
                category,
            ),
        }
    }

    /// The stored record, or the all-enabled record where none is stored.
    pub fn or_default(found: Option<NotificationSettings>) -> (settings: NotificationSettings)
        ensures
            settings@ == view_or_default(found),
    {
        match found {
            Some(settings) => settings,
            None => NotificationSettings::new(),
        }
    }

    /// The record to persist after `change`: the stored record, or the
    /// all-enabled one where none is stored, with the change applied.
    pub fn updated(found: Option<NotificationSettings>, change: SettingsChange) -> (settings:
        NotificationSettings)
        ensures
            settings@ == view_or_default(found).apply(change),
    {
        let mut settings = NotificationSettings::or_default(found);
        settings.apply(change);
        settings
    }
}

/// Every change is idempotent: made twice in a row, it leaves the settings
/// as making it once does.  In particular, enabling a channel twice is the
/// same as enabling it once.
pub proof fn lemma_change_is_idempotent(settings: SettingsView, change: SettingsChange)
    ensures
        settings.apply(change).apply(change) == settings.apply(change),
        forall|channel: NotificationChannel|
            settings.enable_channel(channel).enable_channel(channel) == #[trigger] settings.enable_channel(
                channel,
            ),
{
    assert(settings.apply(change).apply(change) =~= settings.apply(change));
    assert forall|channel: NotificationChannel|
        settings.enable_channel(channel).enable_channel(channel) == #[trigger] settings.enable_channel(
            channel,
        ) by {
        assert(settings.enable_channel(channel).enable_channel(channel) =~= settings.enable_channel(
            channel,
        ));
    }
}

/// Disabling a channel that was enabled and enabling it again gives back the
/// settings as they were.
pub proof fn lemma_disable_then_enable_restores(settings: SettingsView, channel: NotificationChannel)
    requires
        settings.channel_enabled(channel),
    ensures
        settings.disable_channel(channel).enable_channel(channel) == settings,
{
    assert(settings.disable_channel(channel).enable_channel(channel) =~= settings);
}

/// Disabling a channel and enabling it again leaves it enabled, whatever it
/// was before, and touches neither another channel nor any category.
pub proof fn lemma_channel_toggle_is_local(settings: SettingsView, channel: NotificationChannel)
    ensures
        settings.disable_channel(channel).enable_channel(channel).channel_enabled(channel),
        forall|other: NotificationChannel|
            other != channel ==> settings.disable_channel(channel).enable_channel(
                channel,
            ).channel_enabled(other) == #[trigger] settings.channel_enabled(other),
        settings.disable_channel(channel).enable_channel(channel).disabled_categories
            == settings.disabled_categories,
{
}

/// Suppressing or releasing a category leaves every channel's own state as
/// it was, and touches no other category and no other channel.
pub proof fn lemma_category_change_is_local(
    settings: SettingsView,
    channel: NotificationChannel,
    category: UserNotificationCategory,
)
    ensures
        settings.disable_category(channel, category).disabled_channels == settings.disabled_channels,
        settings.enable_category(channel, category).disabled_channels == settings.disabled_channels,
        settings.disable_category(channel, category).category_suppressed(channel, category),
        !settings.enable_category(channel, category).category_suppressed(channel, category),
        forall|c: NotificationChannel, k: UserNotificationCategory|
            (c, k) != (channel, category) ==> {
                &&& settings.disable_category(channel, category).category_suppressed(c, k)
                    == #[trigger] settings.category_suppressed(c, k)
                &&& settings.enable_category(channel, category).category_suppressed(c, k)
                    == settings.category_suppressed(c, k)
            },
{
}

} // verus!
