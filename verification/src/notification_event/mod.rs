//! The notification events: what each is about, where it links to, on which
//! channels it can go out, and how it is rendered.
//!
//! All policy that depends on the kind of event lives in the event's own
//! implementation of [`NotificationEvent`]; dispatch never looks at the kind.

pub mod circle_grew;
pub mod circle_threshold_reached;
pub mod identity_verification_approved;
pub mod identity_verification_declined;
pub mod identity_verification_review_started;
pub mod price_changed;
pub mod transaction_info;

use vstd::prelude::*;
use vstd::std_specs::convert::FromSpecImpl;
use crate::messages::email_text;
use crate::messages::missing_resource;
use crate::messages::rendered;
use crate::messages::EmailFormatter;
use crate::messages::LocalizedEmail;
use crate::messages::LocalizedInAppMessage;
use crate::messages::LocalizedPushMessage;
use crate::messages::MessageTemplate;
use crate::messages::MessageText;
use crate::messages::RenderError;
use crate::messages::TemplateView;
use crate::primitives::GaloyLocale;
use crate::primitives::UserNotificationCategory;
use crate::messages::lemma_template_renders_as_default;
use crate::translations::supports_locale;
use crate::translations::Catalog;
use crate::translations::DEFAULT_LOCALE;
use crate::translations::Translations;
pub use circle_grew::CircleGrew;
pub use circle_threshold_reached::CircleThresholdReached;
pub use identity_verification_approved::IdentityVerificationApproved;
pub use identity_verification_declined::IdentityVerificationDeclined;
pub use identity_verification_review_started::IdentityVerificationReviewStarted;
pub use price_changed::PriceChanged;
pub use transaction_info::TransactionInfo;

verus! {

/// A place in the application that a notification can take the user to.
#[derive(Copy, Clone, PartialEq, Eq, Debug, Structural)]
pub enum DeepLink {
    Circles,
}

/// What rendering an email comes to: no email for an event that sends none,
/// the key of the missing text where the catalog lacks one, the message laid
/// out as HTML otherwise.
pub open spec fn rendered_email(
    sends_email: bool,
    template: TemplateView,
    catalog: Catalog,
    locale: Seq<char>,
) -> Result<Option<MessageText>, Seq<char>> {
    if !sends_email {
        Ok(None)
    } else {
        match missing_resource(template, catalog, locale) {
            Some(key) => Err(key),
            None => Ok(Some(email_text(rendered(template, catalog, locale)))),
        }
    }
}

/// What rendering an in-app message comes to: none for an event that shows
/// none, the message otherwise.
pub open spec fn rendered_in_app(
    sends_in_app_msg: bool,
    template: TemplateView,
    catalog: Catalog,
    locale: Seq<char>,
) -> Option<MessageText> {
    if sends_in_app_msg {
        Some(rendered(template, catalog, locale))
    } else {
        None
    }
}

/// What rendering an email returned, with the texts in place of the strings
/// and the missing key in place of the error.
pub open spec fn email_view(email: Result<Option<LocalizedEmail>, RenderError>) -> Result<
    Option<MessageText>,
    Seq<char>,
> {
    match email {
        Ok(Some(message)) => Ok(Some(message@)),
        Ok(None) => Ok(None),
        Err(e) => Err(e.key@),
    }
}

/// What rendering an in-app message returned, with the texts in place of
/// the strings.
pub open spec fn in_app_view(message: Option<LocalizedInAppMessage>) -> Option<MessageText> {
    match message {
        Some(m) => Some(m@),
        None => None,
    }
}

/// What every kind of event knows about itself.
pub trait NotificationEvent: Sized {
    /// The one category the event belongs to.
    spec fn spec_category(&self) -> UserNotificationCategory;

    /// Where the notification takes the user, if anywhere.
    spec fn spec_deep_link(&self) -> Option<DeepLink>;

    /// Whether the event goes out by email at all.
    spec fn sends_email(&self) -> bool;

    /// Whether the event is shown inside the application.
    spec fn sends_in_app_msg(&self) -> bool;

    /// What the event's messages are rendered from.
    spec fn spec_template(&self) -> TemplateView;

    fn category(&self) -> (category: UserNotificationCategory)
        ensures
            category == self.spec_category(),
    ;

    fn deep_link(&self) -> (link: Option<DeepLink>)
        ensures
            link == self.spec_deep_link(),
    ;

    fn should_send_email(&self) -> (send: bool)
        ensures
            send == self.sends_email(),
    ;

    fn should_send_in_app_msg(&self) -> (send: bool)
        ensures
            send == self.sends_in_app_msg(),
    ;

    fn template(&self) -> (template: MessageTemplate)
        ensures
            template@ == self.spec_template(),
    ;

    /// The push message.  Never fails: missing translations fall back.
    fn to_localized_push_msg(&self, locale: GaloyLocale, translations: &Translations) -> (message:
        LocalizedPushMessage)
        ensures
            message@ == rendered(self.spec_template(), translations@, locale@),
    {
        let (title, body) = self.template().render(&locale, translations);
        LocalizedPushMessage::new(title, body)
    }

    /// The email, for an event that sends one.  Fails only where the catalog
    /// holds the title or the body neither for the locale nor for the default
    /// locale.
    fn to_localized_email(&self, locale: GaloyLocale, translations: &Translations) -> (email: Result<
        Option<LocalizedEmail>,
        RenderError,
    >)
        ensures
            email_view(email) == rendered_email(
                self.sends_email(),
                self.spec_template(),
                translations@,
                locale@,
            ),
    {
        if !self.should_send_email() {
            return Ok(None);
        }
        match self.template().render_strictly(&locale, translations) {
            Ok((subject, body)) => {
                let html = EmailFormatter::new().generic_email_template(
                    subject.as_str(),
                    body.as_str(),
                );
                Ok(Some(LocalizedEmail::new(subject, html)))
            },
            Err(e) => Err(e),
        }
    }

    /// The in-app message, for an event that shows one.  Never fails.
    fn to_localized_in_app_msg(&self, locale: GaloyLocale, translations: &Translations) -> (message:
        Option<LocalizedInAppMessage>)
        ensures
            in_app_view(message) == rendered_in_app(
                self.sends_in_app_msg(),
                self.spec_template(),
                translations@,
                locale@,
            ),
    {
        if !self.should_send_in_app_msg() {
            return None;
        }
        let (title, body) = self.template().render(&locale, translations);
        Some(LocalizedInAppMessage::new(title, body))
    }
}

/// Any one of the events, as it travels in a job.
#[derive(Debug)]
pub enum NotificationEventPayload {
    CircleGrew(CircleGrew),
    CircleThresholdReached(CircleThresholdReached),
    IdentityVerificationApproved(IdentityVerificationApproved),
    IdentityVerificationDeclined(IdentityVerificationDeclined),
    IdentityVerificationReviewStarted(IdentityVerificationReviewStarted),
    TransactionInfo(TransactionInfo),
    PriceChanged(PriceChanged),
}

impl NotificationEventPayload {
    /// The tag that tells the kinds of event apart where a payload is
    /// written down.  A kind keeps its tag for good.
    pub open spec fn spec_type_tag(self) -> Seq<char> {
        match self {
            NotificationEventPayload::CircleGrew(_) => "circle_grew"@,
            NotificationEventPayload::CircleThresholdReached(_) => "circle_threshold_reached"@,
            NotificationEventPayload::IdentityVerificationApproved(_) =>
                "identity_verification_approved"@,
            NotificationEventPayload::IdentityVerificationDeclined(_) =>
                "identity_verification_declined"@,
            NotificationEventPayload::IdentityVerificationReviewStarted(_) =>
                "identity_verification_review_started"@,
            NotificationEventPayload::TransactionInfo(_) => "transaction_info"@,
            NotificationEventPayload::PriceChanged(_) => "price_changed"@,
        }
    }

    pub fn type_tag(&self) -> (tag: &'static str)
        ensures
            tag@ == self.spec_type_tag(),
    {
        match self {
            NotificationEventPayload::CircleGrew(_) => "circle_grew",
            NotificationEventPayload::CircleThresholdReached(_) => "circle_threshold_reached",
            NotificationEventPayload::IdentityVerificationApproved(_) =>
                "identity_verification_approved",
            NotificationEventPayload::IdentityVerificationDeclined(_) =>
                "identity_verification_declined",
            NotificationEventPayload::IdentityVerificationReviewStarted(_) =>
                "identity_verification_review_started",
            NotificationEventPayload::TransactionInfo(_) => "transaction_info",
            NotificationEventPayload::PriceChanged(_) => "price_changed",
        }
    }
}

impl Clone for NotificationEventPayload {
    fn clone(&self) -> (copy: NotificationEventPayload)
        ensures
            copy == *self,
    {
        match self {
            NotificationEventPayload::CircleGrew(e) => NotificationEventPayload::CircleGrew(
                e.clone(),
            ),
            NotificationEventPayload::CircleThresholdReached(e) =>
                NotificationEventPayload::CircleThresholdReached(e.clone()),
            NotificationEventPayload::IdentityVerificationApproved(e) =>
                NotificationEventPayload::IdentityVerificationApproved(*e),
            NotificationEventPayload::IdentityVerificationDeclined(e) =>
                NotificationEventPayload::IdentityVerificationDeclined(*e),
            NotificationEventPayload::IdentityVerificationReviewStarted(e) =>
                NotificationEventPayload::IdentityVerificationReviewStarted(*e),
            NotificationEventPayload::TransactionInfo(e) => NotificationEventPayload::TransactionInfo(
                e.clone(),
            ),
            NotificationEventPayload::PriceChanged(e) => NotificationEventPayload::PriceChanged(*e),
        }
    }
}

impl NotificationEvent for NotificationEventPayload {
    open spec fn spec_category(&self) -> UserNotificationCategory {
        match self {
            NotificationEventPayload::CircleGrew(e) => e.spec_category(),
            NotificationEventPayload::CircleThresholdReached(e) => e.spec_category(),
            NotificationEventPayload::IdentityVerificationApproved(e) => e.spec_category(),
            NotificationEventPayload::IdentityVerificationDeclined(e) => e.spec_category(),
            NotificationEventPayload::IdentityVerificationReviewStarted(e) => e.spec_category(),
            NotificationEventPayload::TransactionInfo(e) => e.spec_category(),
            NotificationEventPayload::PriceChanged(e) => e.spec_category(),
        }
    }

    open spec fn spec_deep_link(&self) -> Option<DeepLink> {
        match self {
            NotificationEventPayload::CircleGrew(e) => e.spec_deep_link(),
            NotificationEventPayload::CircleThresholdReached(e) => e.spec_deep_link(),
            NotificationEventPayload::IdentityVerificationApproved(e) => e.spec_deep_link(),
            NotificationEventPayload::IdentityVerificationDeclined(e) => e.spec_deep_link(),
            NotificationEventPayload::IdentityVerificationReviewStarted(e) => e.spec_deep_link(),
            NotificationEventPayload::TransactionInfo(e) => e.spec_deep_link(),
            NotificationEventPayload::PriceChanged(e) => e.spec_deep_link(),
        }
    }

    open spec fn sends_email(&self) -> bool {
        match self {
            NotificationEventPayload::CircleGrew(e) => e.sends_email(),
            NotificationEventPayload::CircleThresholdReached(e) => e.sends_email(),
            NotificationEventPayload::IdentityVerificationApproved(e) => e.sends_email(),
            NotificationEventPayload::IdentityVerificationDeclined(e) => e.sends_email(),
            NotificationEventPayload::IdentityVerificationReviewStarted(e) => e.sends_email(),
            NotificationEventPayload::TransactionInfo(e) => e.sends_email(),
            NotificationEventPayload::PriceChanged(e) => e.sends_email(),
        }
    }

    open spec fn sends_in_app_msg(&self) -> bool {
        match self {
            NotificationEventPayload::CircleGrew(e) => e.sends_in_app_msg(),
            NotificationEventPayload::CircleThresholdReached(e) => e.sends_in_app_msg(),
            NotificationEventPayload::IdentityVerificationApproved(e) => e.sends_in_app_msg(),
            NotificationEventPayload::IdentityVerificationDeclined(e) => e.sends_in_app_msg(),
            NotificationEventPayload::IdentityVerificationReviewStarted(e) => e.sends_in_app_msg(),
            NotificationEventPayload::TransactionInfo(e) => e.sends_in_app_msg(),
            NotificationEventPayload::PriceChanged(e) => e.sends_in_app_msg(),
        }
    }

    open spec fn spec_template(&self) -> TemplateView {
        match self {
            NotificationEventPayload::CircleGrew(e) => e.spec_template(),
            NotificationEventPayload::CircleThresholdReached(e) => e.spec_template(),
            NotificationEventPayload::IdentityVerificationApproved(e) => e.spec_template(),
            NotificationEventPayload::IdentityVerificationDeclined(e) => e.spec_template(),
            NotificationEventPayload::IdentityVerificationReviewStarted(e) => e.spec_template(),
            NotificationEventPayload::TransactionInfo(e) => e.spec_template(),
            NotificationEventPayload::PriceChanged(e) => e.spec_template(),
        }
    }

    fn category(&self) -> UserNotificationCategory {
        match self {
            NotificationEventPayload::CircleGrew(e) => e.category(),
            NotificationEventPayload::CircleThresholdReached(e) => e.category(),
            NotificationEventPayload::IdentityVerificationApproved(e) => e.category(),
            NotificationEventPayload::IdentityVerificationDeclined(e) => e.category(),
            NotificationEventPayload::IdentityVerificationReviewStarted(e) => e.category(),
            NotificationEventPayload::TransactionInfo(e) => e.category(),
            NotificationEventPayload::PriceChanged(e) => e.category(),
        }
    }

    fn deep_link(&self) -> Option<DeepLink> {
        match self {
            NotificationEventPayload::CircleGrew(event) => event.deep_link(),
            NotificationEventPayload::CircleThresholdReached(event) => event.deep_link(),
            NotificationEventPayload::IdentityVerificationApproved(event) => event.deep_link(),
            NotificationEventPayload::IdentityVerificationDeclined(event) => event.deep_link(),
            NotificationEventPayload::IdentityVerificationReviewStarted(event) => event.deep_link(),
            NotificationEventPayload::TransactionInfo(event) => event.deep_link(),
            NotificationEventPayload::PriceChanged(event) => event.deep_link(),
        }
    }

    fn should_send_email(&self) -> bool {
        match self {
            NotificationEventPayload::CircleGrew(event) => event.should_send_email(),
            NotificationEventPayload::CircleThresholdReached(event) => event.should_send_email(),
            NotificationEventPayload::IdentityVerificationApproved(event) => event.should_send_email(),
            NotificationEventPayload::IdentityVerificationDeclined(event) => event.should_send_email(),
            NotificationEventPayload::IdentityVerificationReviewStarted(event) =>
                event.should_send_email(),
            NotificationEventPayload::TransactionInfo(event) => event.should_send_email(),
            NotificationEventPayload::PriceChanged(event) => event.should_send_email(),
        }
    }

    fn should_send_in_app_msg(&self) -> bool {
        match self {
            NotificationEventPayload::CircleGrew(event) => event.should_send_in_app_msg(),
            NotificationEventPayload::CircleThresholdReached(event) => event.should_send_in_app_msg(),
            NotificationEventPayload::IdentityVerificationApproved(event) =>
                event.should_send_in_app_msg(),
            NotificationEventPayload::IdentityVerificationDeclined(event) =>
                event.should_send_in_app_msg(),
            NotificationEventPayload::IdentityVerificationReviewStarted(event) =>
                event.should_send_in_app_msg(),
            NotificationEventPayload::TransactionInfo(event) => event.should_send_in_app_msg(),
            NotificationEventPayload::PriceChanged(event) => event.should_send_in_app_msg(),
        }
    }

    fn template(&self) -> MessageTemplate {
        match self {
            NotificationEventPayload::CircleGrew(event) => event.template(),
            NotificationEventPayload::CircleThresholdReached(event) => event.template(),
            NotificationEventPayload::IdentityVerificationApproved(event) => event.template(),
            NotificationEventPayload::IdentityVerificationDeclined(event) => event.template(),
            NotificationEventPayload::IdentityVerificationReviewStarted(event) => event.template(),
            NotificationEventPayload::TransactionInfo(event) => event.template(),
            NotificationEventPayload::PriceChanged(event) => event.template(),
        }
    }

    fn to_localized_push_msg(&self, locale: GaloyLocale, translations: &Translations) -> LocalizedPushMessage {
        match self {
            NotificationEventPayload::CircleGrew(event) => event.to_localized_push_msg(
                locale,
                translations,
            ),
            NotificationEventPayload::CircleThresholdReached(event) => event.to_localized_push_msg(
                locale,
                translations,
            ),
            NotificationEventPayload::IdentityVerificationApproved(event) =>
                event.to_localized_push_msg(locale, translations),
            NotificationEventPayload::IdentityVerificationDeclined(event) =>
                event.to_localized_push_msg(locale, translations),
            NotificationEventPayload::IdentityVerificationReviewStarted(event) =>
                event.to_localized_push_msg(locale, translations),
            NotificationEventPayload::TransactionInfo(event) => event.to_localized_push_msg(
                locale,
                translations,
            ),
            NotificationEventPayload::PriceChanged(event) => event.to_localized_push_msg(
                locale,
                translations,
            ),
        }
    }

    fn to_localized_email(&self, locale: GaloyLocale, translations: &Translations) -> Result<
        Option<LocalizedEmail>,
        RenderError,
    > {
        match self {
            NotificationEventPayload::CircleGrew(event) => event.to_localized_email(
                locale,
                translations,
            ),
            NotificationEventPayload::CircleThresholdReached(event) => event.to_localized_email(
                locale,
                translations,
            ),
            NotificationEventPayload::IdentityVerificationApproved(event) =>
                event.to_localized_email(locale, translations),
            NotificationEventPayload::IdentityVerificationDeclined(event) =>
                event.to_localized_email(locale, translations),
            NotificationEventPayload::IdentityVerificationReviewStarted(event) =>
                event.to_localized_email(locale, translations),
            NotificationEventPayload::TransactionInfo(event) => event.to_localized_email(
                locale,
                translations,
            ),
            NotificationEventPayload::PriceChanged(event) => event.to_localized_email(
                locale,
                translations,
            ),
        }
    }

    fn to_localized_in_app_msg(&self, locale: GaloyLocale, translations: &Translations) -> Option<
        LocalizedInAppMessage,
    > {
        match self {
            NotificationEventPayload::CircleGrew(event) => event.to_localized_in_app_msg(
                locale,
                translations,
            ),
            NotificationEventPayload::CircleThresholdReached(event) => event.to_localized_in_app_msg(
                locale,
                translations,
            ),
            NotificationEventPayload::IdentityVerificationApproved(event) =>
                event.to_localized_in_app_msg(locale, translations),
            NotificationEventPayload::IdentityVerificationDeclined(event) =>
                event.to_localized_in_app_msg(locale, translations),
            NotificationEventPayload::IdentityVerificationReviewStarted(event) =>
                event.to_localized_in_app_msg(locale, translations),
            NotificationEventPayload::TransactionInfo(event) => event.to_localized_in_app_msg(
                locale,
                translations,
            ),
            NotificationEventPayload::PriceChanged(event) => event.to_localized_in_app_msg(
                locale,
                translations,
            ),
        }
    }
}

impl From<CircleGrew> for NotificationEventPayload {
    fn from(event: CircleGrew) -> (payload: NotificationEventPayload) {
        NotificationEventPayload::CircleGrew(event)
    }
}

impl FromSpecImpl<CircleGrew> for NotificationEventPayload {
    open spec fn obeys_from_spec() -> bool {
        true
    }

    open spec fn from_spec(event: CircleGrew) -> NotificationEventPayload {
        NotificationEventPayload::CircleGrew(event)
    }
}

impl From<CircleThresholdReached> for NotificationEventPayload {
    fn from(event: CircleThresholdReached) -> (payload: NotificationEventPayload) {
        NotificationEventPayload::CircleThresholdReached(event)
    }
}

impl FromSpecImpl<CircleThresholdReached> for NotificationEventPayload {
    open spec fn obeys_from_spec() -> bool {
        true
    }

    open spec fn from_spec(event: CircleThresholdReached) -> NotificationEventPayload {
        NotificationEventPayload::CircleThresholdReached(event)
    }
}

impl From<IdentityVerificationApproved> for NotificationEventPayload {
    fn from(event: IdentityVerificationApproved) -> (payload: NotificationEventPayload) {
        NotificationEventPayload::IdentityVerificationApproved(event)
    }
}

impl FromSpecImpl<IdentityVerificationApproved> for NotificationEventPayload {
    open spec fn obeys_from_spec() -> bool {
        true
    }

    open spec fn from_spec(event: IdentityVerificationApproved) -> NotificationEventPayload {
        NotificationEventPayload::IdentityVerificationApproved(event)
    }
}

impl From<IdentityVerificationDeclined> for NotificationEventPayload {
    fn from(event: IdentityVerificationDeclined) -> (payload: NotificationEventPayload) {
        NotificationEventPayload::IdentityVerificationDeclined(event)
    }
}

impl FromSpecImpl<IdentityVerificationDeclined> for NotificationEventPayload {
    open spec fn obeys_from_spec() -> bool {
        true
    }

    open spec fn from_spec(event: IdentityVerificationDeclined) -> NotificationEventPayload {
        NotificationEventPayload::IdentityVerificationDeclined(event)
    }
}

impl From<IdentityVerificationReviewStarted> for NotificationEventPayload {
    fn from(event: IdentityVerificationReviewStarted) -> (payload: NotificationEventPayload) {
        NotificationEventPayload::IdentityVerificationReviewStarted(event)
    }
}

impl FromSpecImpl<IdentityVerificationReviewStarted> for NotificationEventPayload {
    open spec fn obeys_from_spec() -> bool {
        true
    }

    open spec fn from_spec(event: IdentityVerificationReviewStarted) -> NotificationEventPayload {
        NotificationEventPayload::IdentityVerificationReviewStarted(event)
    }
}

impl From<TransactionInfo> for NotificationEventPayload {
    fn from(event: TransactionInfo) -> (payload: NotificationEventPayload) {
        NotificationEventPayload::TransactionInfo(event)
    }
}

impl FromSpecImpl<TransactionInfo> for NotificationEventPayload {
    open spec fn obeys_from_spec() -> bool {
        true
    }

    open spec fn from_spec(event: TransactionInfo) -> NotificationEventPayload {
        NotificationEventPayload::TransactionInfo(event)
    }
}

impl From<PriceChanged> for NotificationEventPayload {
    fn from(event: PriceChanged) -> (payload: NotificationEventPayload) {
        NotificationEventPayload::PriceChanged(event)
    }
}

impl FromSpecImpl<PriceChanged> for NotificationEventPayload {
    open spec fn obeys_from_spec() -> bool {
        true
    }

    open spec fn from_spec(event: PriceChanged) -> NotificationEventPayload {
        NotificationEventPayload::PriceChanged(event)
    }
}

/// An event is rendered for a locale without texts exactly as it is for the
/// default locale, on every channel: the push and in-app messages are the
/// default locale's, and the email is the default locale's or fails as it
/// does there.
pub proof fn lemma_unsupported_locale_renders_as_default<E: NotificationEvent>(
    event: &E,
    catalog: Catalog,
    locale: Seq<char>,
)
    requires
        !supports_locale(catalog, locale),
    ensures
        rendered(event.spec_template(), catalog, locale) == rendered(
            event.spec_template(),
            catalog,
            DEFAULT_LOCALE@,
        ),
        rendered_in_app(event.sends_in_app_msg(), event.spec_template(), catalog, locale)
            == rendered_in_app(
            event.sends_in_app_msg(),
            event.spec_template(),
            catalog,
            DEFAULT_LOCALE@,
        ),
        rendered_email(event.sends_email(), event.spec_template(), catalog, locale)
            == rendered_email(event.sends_email(), event.spec_template(), catalog, DEFAULT_LOCALE@),
{
    lemma_template_renders_as_default(event.spec_template(), catalog, locale);
}

/// Rendering an email fails only for an event that sends one, and only where
/// the catalog holds its title or its body neither for the requested locale
/// nor for the default locale.
pub proof fn lemma_email_fails_only_without_resource<E: NotificationEvent>(
    event: &E,
    catalog: Catalog,
    locale: Seq<char>,
)
    ensures
        rendered_email(event.sends_email(), event.spec_template(), catalog, locale) is Err <==> {
            &&& event.sends_email()
            &&& exists|key: Seq<char>|
                {
                    &&& key == event.spec_template().title_key || key
                        == event.spec_template().body_key
                    &&& !catalog.contains_key((locale, key))
                    &&& !#[trigger] catalog.contains_key((DEFAULT_LOCALE@, key))
                }
        },
{
    let template = event.spec_template();
    if event.sends_email() {
        if missing_resource(template, catalog, locale) is Some {
            let key = missing_resource(template, catalog, locale)->0;
            assert(!catalog.contains_key((DEFAULT_LOCALE@, key)));
        }
    }
}

} // verus!
