//! The plain values that events, settings and jobs are made of.

use vstd::prelude::*;
use vstd::string::*;
use crate::text::same_text;
use crate::translations::DEFAULT_LOCALE;

verus! {

/// A delivery medium.
#[derive(Copy, Clone, PartialEq, Eq, Hash, Debug, Structural)]
pub enum NotificationChannel {
    Push,
    Email,
    InApp,
}

/// The label by which users suppress notifications within a channel.  Every
/// event belongs to exactly one category.
#[derive(Copy, Clone, PartialEq, Eq, Hash, Debug, Structural)]
pub enum UserNotificationCategory {
    Circles,
    AdminNotification,
    Price,
    Transaction,
}

/// A channel or category name that names none, met where text enters the
/// system.
#[derive(Copy, Clone, PartialEq, Eq, Debug, Structural)]
pub enum SettingsValidationError {
    UnknownChannel,
    UnknownCategory,
}

impl NotificationChannel {
    /// The name by which the channel is written.
    pub open spec fn name(self) -> Seq<char> {
        match self {
            NotificationChannel::Push => "push"@,
            NotificationChannel::Email => "email"@,
            NotificationChannel::InApp => "in_app"@,
        }
    }

    /// The channel that `name` spells, if it spells one.
    pub open spec fn named(name: Seq<char>) -> Option<NotificationChannel> {
        if name == "push"@ {
            Some(NotificationChannel::Push)
        } else if name == "email"@ {
            Some(NotificationChannel::Email)
        } else if name == "in_app"@ {
            Some(NotificationChannel::InApp)
        } else {
            None
        }
    }

    pub fn as_str(&self) -> (name: &'static str)
        ensures
            name@ == self.name(),
    {
        match self {
            NotificationChannel::Push => "push",
            NotificationChannel::Email => "email",
            NotificationChannel::InApp => "in_app",
        }
    }

    /// Reads a channel from its name; any other text is a validation error.
    pub fn parse(name: &str) -> (parsed: Result<NotificationChannel, SettingsValidationError>)
        ensures
            match parsed {
                Ok(channel) => Self::named(name@) == Some(channel),
                Err(e) => Self::named(name@) is None && e == SettingsValidationError::UnknownChannel,
            },
    {
        if same_text(name, "push") {
            Ok(NotificationChannel::Push)
        } else if same_text(name, "email") {
            Ok(NotificationChannel::Email)
        } else if same_text(name, "in_app") {
            Ok(NotificationChannel::InApp)
        } else {
            Err(SettingsValidationError::UnknownChannel)
        }
    }
}

impl UserNotificationCategory {
    /// The name by which the category is written.
    pub open spec fn name(self) -> Seq<char> {
        match self {
            UserNotificationCategory::Circles => "circles"@,
            UserNotificationCategory::AdminNotification => "admin_notification"@,
            UserNotificationCategory::Price => "price"@,
            UserNotificationCategory::Transaction => "transaction"@,
        }
    }

    /// The category that `name` spells, if it spells one.
    pub open spec fn named(name: Seq<char>) -> Option<UserNotificationCategory> {
        if name == "circles"@ {
            Some(UserNotificationCategory::Circles)
        } else if name == "admin_notification"@ {
            Some(UserNotificationCategory::AdminNotification)
        } else if name == "price"@ {
            Some(UserNotificationCategory::Price)
        } else if name == "transaction"@ {
            Some(UserNotificationCategory::Transaction)
        } else {
            None
        }
    }

    pub fn as_str(&self) -> (name: &'static str)
        ensures
            name@ == self.name(),
    {
        match self {
            UserNotificationCategory::Circles => "circles",
            UserNotificationCategory::AdminNotification => "admin_notification",
            UserNotificationCategory::Price => "price",
            UserNotificationCategory::Transaction => "transaction",
        }
    }

    /// Reads a category from its name; any other text is a validation error.
    pub fn parse(name: &str) -> (parsed: Result<UserNotificationCategory, SettingsValidationError>)
        ensures
            match parsed {
                Ok(category) => Self::named(name@) == Some(category),
                Err(e) => Self::named(name@) is None && e == SettingsValidationError::UnknownCategory,
            },
    {
        if same_text(name, "circles") {
            Ok(UserNotificationCategory::Circles)
        } else if same_text(name, "admin_notification") {
            Ok(UserNotificationCategory::AdminNotification)
        } else if same_text(name, "price") {
            Ok(UserNotificationCategory::Price)
        } else if same_text(name, "transaction") {
            Ok(UserNotificationCategory::Transaction)
        } else {
            Err(SettingsValidationError::UnknownCategory)
        }
    }
}

/// The locale in which a recipient asks to be addressed.
#[derive(Debug)]
pub struct GaloyLocale {
    tag: String,
}

impl View for GaloyLocale {
    type V = Seq<char>;

    closed spec fn view(&self) -> Seq<char> {
        self.tag@
    }
}

impl GaloyLocale {
    pub fn new(tag: String) -> (locale: GaloyLocale)
        ensures
            locale@ == tag@,
    {
        GaloyLocale { tag }
    }

    pub fn as_str(&self) -> (tag: &str)
        ensures
            tag@ == self@,
    {
        self.tag.as_str()
    }
}

impl Default for GaloyLocale {
    /// The default locale.
    fn default() -> (locale: GaloyLocale)
        ensures
            locale@ == DEFAULT_LOCALE@,
    {
        GaloyLocale { tag: DEFAULT_LOCALE.to_owned() }
    }
}

impl Clone for GaloyLocale {
    fn clone(&self) -> (copy: GaloyLocale)
        ensures
            copy == *self,
    {
        GaloyLocale { tag: self.tag.clone() }
    }
}

/// The user to whom a notification is addressed.
#[derive(Debug)]
pub struct GaloyUserId {
    id: String,
}

impl View for GaloyUserId {
    type V = Seq<char>;

    closed spec fn view(&self) -> Seq<char> {
        self.id@
    }
}

impl GaloyUserId {
    pub fn new(id: String) -> (user_id: GaloyUserId)
        ensures
            user_id@ == id@,
    {
        GaloyUserId { id }
    }

    pub fn as_str(&self) -> (id: &str)
        ensures
            id@ == self@,
    {
        self.id.as_str()
    }
}

impl Clone for GaloyUserId {
    fn clone(&self) -> (copy: GaloyUserId)
        ensures
            copy == *self,
    {
        GaloyUserId { id: self.id.clone() }
    }
}

/// Which of a user's circles an event is about.
#[derive(Copy, Clone, PartialEq, Eq, Debug, Structural)]
pub enum CircleType {
    Inner,
    Outer,
}

/// The period over which a circle's size is counted.
#[derive(Copy, Clone, PartialEq, Eq, Debug, Structural)]
pub enum CircleTimeFrame {
    Month,
    AllTime,
}

} // verus!
