use notifications::messages::is_fillable;
use notifications::messages::is_plain_name;
use notifications::messages::EmailFormatter;
use notifications::messages::LocalizedEmail;
use notifications::messages::LocalizedInAppMessage;
use notifications::messages::LocalizedPushMessage;
use notifications::messages::MessageTemplate;
use notifications::messages::RenderError;
use notifications::messages::TemplateArgument;
use notifications::notification_event::circle_grew::CircleGrew;
use notifications::notification_event::identity_verification_declined::IdentityVerificationDeclined;
use notifications::notification_event::identity_verification_declined::IdentityVerificationDeclinedReason;
use notifications::notification_event::price_changed::PriceChangeDirection;
use notifications::notification_event::transaction_info::Currency;
use notifications::notification_event::transaction_info::TransactionInfo;
use notifications::notification_event::transaction_info::TransactionType;
use notifications::notification_event::CircleThresholdReached;
use notifications::notification_event::DeepLink;
use notifications::notification_event::IdentityVerificationApproved;
use notifications::notification_event::IdentityVerificationReviewStarted;
use notifications::notification_event::NotificationEvent;
use notifications::notification_event::NotificationEventPayload;
use notifications::notification_event::PriceChanged;
use notifications::primitives::CircleTimeFrame;
use notifications::primitives::CircleType;
use notifications::primitives::GaloyLocale;
use notifications::primitives::GaloyUserId;
use notifications::primitives::UserNotificationCategory;
use notifications::text::decimal;
use notifications::text::escape_html;
use notifications::translations::Translations;

fn locale(tag: &str) -> GaloyLocale {
    GaloyLocale::new(tag.to_string())
}

fn user() -> GaloyUserId {
    GaloyUserId::new("user-1".to_string())
}

fn catalog() -> Translations {
    let mut t = Translations::new();
    t.add("en", "circle_grew.inner.title", "Your inner circle is growing");
    t.add("en", "circle_grew.inner.body", "%{this_month_circle_size} this month, %{all_time_circle_size} in all");
    t.add("en", "circle_grew.outer.title", "Your outer circle is growing");
    t.add("en", "circle_grew.outer.body", "%{all_time_circle_size} in all");
    t.add("en", "circle_threshold_reached.inner.title", "Nice Inner Circle!");
    t.add("en", "circle_threshold_reached.inner.body", "You have welcomed %{threshold} people %{time_frame}.");
    t.add("en", "circle_threshold_reached.outer.title", "Nice Outer Circle!");
    t.add("en", "circle_threshold_reached.outer.body", "Your circle reached %{threshold} %{time_frame}.");
    t.add("en", "circle_time_frame.month", "this month");
    t.add("en", "circle_time_frame.all_time", "of all time");
    t.add("es", "circle_threshold_reached.inner.title", "Buen circulo interior");
    t.add("es", "circle_threshold_reached.inner.body", "Has recibido a %{threshold} personas %{time_frame}.");
    t.add("es", "circle_time_frame.month", "este mes");
    t.add("en", "identity_verification_approved.title", "Identity verified");
    t.add("en", "identity_verification_approved.body", "Your identity has been verified.");
    t.add("en", "identity_verification_declined.title", "Identity not verified");
    t.add("en", "identity_verification_declined.body", "Reason: %{reason}.");
    t.add("en", "identity_verification_declined.reason.documents_expired", "the documents have expired");
    t.add("en", "identity_verification_review_started.title", "Review started");
    t.add("en", "identity_verification_review_started.body", "We are reviewing your documents.");
    t.add("en", "transaction.lightning_receipt.title", "Payment received");
    t.add("en", "transaction.lightning_receipt.body", "+%{amount} %{currency}");
    t.add("en", "currency.btc", "sats");
    t.add("en", "currency.usd", "cents");
    t.add("en", "price_changed.up.title", "Bitcoin is up");
    t.add("en", "price_changed.up.body", "+%{change_in_basis_points} bp, now %{price_in_cents}");
    t.add("en", "price_changed.down.title", "Bitcoin is down");
    t.add("en", "price_changed.down.body", "-%{change_in_basis_points} bp, now %{price_in_cents}");
    t
}

fn html(subject: &str, body: &str) -> String {
    format!(
        "<!DOCTYPE html><html><head><meta charset=\"utf-8\"><title>{subject}</title></head><body><h1>{subject}</h1><p>{body}</p></body></html>"
    )
}

fn threshold_reached(circle_type: CircleType, time_frame: CircleTimeFrame, threshold: u32) -> CircleThresholdReached {
    CircleThresholdReached { user_id: user(), circle_type, time_frame, threshold }
}

#[test]
fn decimal_writes_numbers_without_padding() {
    assert_eq!(decimal(0), "0");
    assert_eq!(decimal(7), "7");
    assert_eq!(decimal(10), "10");
    assert_eq!(decimal(42), "42");
    assert_eq!(decimal(1005), "1005");
    assert_eq!(decimal(1234567890), "1234567890");
    assert_eq!(decimal(u64::MAX), "18446744073709551615");
}

#[test]
fn circle_threshold_reached_fills_in_threshold_and_time_frame() {
    let event = threshold_reached(CircleType::Inner, CircleTimeFrame::Month, 25);
    let message = event.to_localized_push_msg(locale("en"), &catalog());
    assert_eq!(
        message,
        LocalizedPushMessage {
            title: "Nice Inner Circle!".to_string(),
            body: "You have welcomed 25 people this month.".to_string(),
        }
    );
}

#[test]
fn circle_threshold_reached_depends_on_circle_and_time_frame() {
    let event = threshold_reached(CircleType::Outer, CircleTimeFrame::AllTime, 100);
    let message = event.to_localized_push_msg(locale("en"), &catalog());
    assert_eq!(message.title, "Nice Outer Circle!");
    assert_eq!(message.body, "Your circle reached 100 of all time.");
}

#[test]
fn circle_threshold_reached_is_rendered_in_the_requested_locale() {
    let event = threshold_reached(CircleType::Inner, CircleTimeFrame::Month, 3);
    let message = event.to_localized_push_msg(locale("es"), &catalog());
    assert_eq!(message.title, "Buen circulo interior");
    assert_eq!(message.body, "Has recibido a 3 personas este mes.");
}

#[test]
fn missing_argument_text_falls_back_on_its_own() {
    let event = threshold_reached(CircleType::Inner, CircleTimeFrame::AllTime, 3);
    let message = event.to_localized_push_msg(locale("es"), &catalog());
    assert_eq!(message.body, "Has recibido a 3 personas of all time.");
}

#[test]
fn missing_title_falls_back_while_the_body_does_not() {
    let mut translations = catalog();
    translations.add("pt", "circle_threshold_reached.outer.body", "%{threshold}!");
    let event = threshold_reached(CircleType::Outer, CircleTimeFrame::Month, 8);
    let message = event.to_localized_push_msg(locale("pt"), &translations);
    assert_eq!(message.title, "Nice Outer Circle!");
    assert_eq!(message.body, "8!");
}

#[test]
fn unsupported_locale_gets_the_default_locale_push_message() {
    let translations = catalog();
    let event = threshold_reached(CircleType::Inner, CircleTimeFrame::Month, 25);
    let in_french = event.to_localized_push_msg(locale("fr"), &translations);
    let in_english = event.to_localized_push_msg(locale("en"), &translations);
    assert_eq!(in_french, in_english);
    assert_eq!(in_french.body, "You have welcomed 25 people this month.");
}

#[test]
fn push_message_without_any_translation_shows_the_keys() {
    let event = IdentityVerificationReviewStarted {};
    let message = event.to_localized_push_msg(locale("en"), &Translations::new());
    assert_eq!(message.title, "identity_verification_review_started.title");
    assert_eq!(message.body, "identity_verification_review_started.body");
}

#[test]
fn unknown_pattern_is_left_in_the_text() {
    let mut translations = Translations::new();
    translations.add("en", "circle_grew.outer.title", "Hello %{name}");
    translations.add("en", "circle_grew.outer.body", "%{all_time_circle_size}%");
    let event = CircleGrew {
        user_id: user(),
        circle_type: CircleType::Outer,
        this_month_circle_size: 1,
        all_time_circle_size: 12,
    };
    let message = event.to_localized_push_msg(locale("en"), &translations);
    assert_eq!(message.title, "Hello %{name}");
    assert_eq!(message.body, "12%");
}

#[test]
fn circle_grew_fills_in_both_sizes() {
    let event = CircleGrew {
        user_id: user(),
        circle_type: CircleType::Inner,
        this_month_circle_size: 4,
        all_time_circle_size: 17,
    };
    let message = event.to_localized_push_msg(locale("en"), &catalog());
    assert_eq!(message.title, "Your inner circle is growing");
    assert_eq!(message.body, "4 this month, 17 in all");
    assert_eq!(event.category(), UserNotificationCategory::Circles);
    assert_eq!(event.deep_link(), Some(DeepLink::Circles));
    assert!(!event.should_send_email());
    assert!(!event.should_send_in_app_msg());
    assert_eq!(event.user_id().as_str(), "user-1");
}

#[test]
fn transaction_info_fills_in_amount_and_currency() {
    let event = TransactionInfo {
        user_id: user(),
        transaction_type: TransactionType::LightningReceipt,
        settlement_amount: 2100,
        currency: Currency::Btc,
    };
    let message = event.to_localized_push_msg(locale("en"), &catalog());
    assert_eq!(message.title, "Payment received");
    assert_eq!(message.body, "+2100 sats");
    assert_eq!(event.category(), UserNotificationCategory::Transaction);
    assert_eq!(event.deep_link(), None);
    assert!(!event.should_send_email());
    assert!(!event.should_send_in_app_msg());
}

#[test]
fn transaction_info_keys_depend_on_the_transaction_type() {
    let event = TransactionInfo {
        user_id: user(),
        transaction_type: TransactionType::OnchainReceiptPending,
        settlement_amount: 5,
        currency: Currency::Usd,
    };
    let template = event.template();
    assert_eq!(template.title_key(), "transaction.onchain_receipt_pending.title");
    assert_eq!(template.body_key(), "transaction.onchain_receipt_pending.body");
}

#[test]
fn price_changed_fills_in_price_and_change() {
    let event = PriceChanged {
        price_of_one_bitcoin: 6_500_000,
        direction: PriceChangeDirection::Down,
        change_in_basis_points: 525,
    };
    let message = event.to_localized_push_msg(locale("en"), &catalog());
    assert_eq!(message.title, "Bitcoin is down");
    assert_eq!(message.body, "-525 bp, now 6500000");
    assert_eq!(event.category(), UserNotificationCategory::Price);
    assert_eq!(event.deep_link(), None);
    assert!(!event.should_send_email());
    assert!(!event.should_send_in_app_msg());
}

#[test]
fn circle_threshold_reached_sends_no_email() {
    let event = threshold_reached(CircleType::Inner, CircleTimeFrame::Month, 25);
    assert!(!event.should_send_email());
    assert!(!event.should_send_in_app_msg());
    assert_eq!(event.category(), UserNotificationCategory::Circles);
    assert_eq!(event.deep_link(), Some(DeepLink::Circles));
    assert_eq!(event.user_id().as_str(), "user-1");
    assert_eq!(event.to_localized_email(locale("en"), &catalog()), Ok(None));
    assert_eq!(event.to_localized_email(locale("en"), &Translations::new()), Ok(None));
    assert_eq!(event.to_localized_in_app_msg(locale("en"), &catalog()), None);
}

#[test]
fn review_started_is_shown_in_app_and_not_mailed() {
    let event = IdentityVerificationReviewStarted {};
    assert_eq!(event.category(), UserNotificationCategory::AdminNotification);
    assert_eq!(event.deep_link(), None);
    assert!(!event.should_send_email());
    assert!(event.should_send_in_app_msg());
    assert_eq!(event.to_localized_email(locale("en"), &catalog()), Ok(None));
    assert_eq!(
        event.to_localized_in_app_msg(locale("en"), &catalog()),
        Some(LocalizedInAppMessage {
            title: "Review started".to_string(),
            body: "We are reviewing your documents.".to_string(),
        })
    );
    let push = event.to_localized_push_msg(locale("en"), &catalog());
    assert_eq!(push.title, "Review started");
    assert_eq!(push.body, "We are reviewing your documents.");
}

#[test]
fn unsupported_locale_gets_the_default_locale_in_app_message() {
    let event = IdentityVerificationReviewStarted {};
    let translations = catalog();
    assert_eq!(
        event.to_localized_in_app_msg(locale("de"), &translations),
        event.to_localized_in_app_msg(locale("en"), &translations)
    );
    let message = event.to_localized_in_app_msg(locale("de"), &Translations::new());
    assert_eq!(
        message,
        Some(LocalizedInAppMessage {
            title: "identity_verification_review_started.title".to_string(),
            body: "identity_verification_review_started.body".to_string(),
        })
    );
}

#[test]
fn approved_is_mailed() {
    let event = IdentityVerificationApproved {};
    assert!(event.should_send_email());
    assert!(!event.should_send_in_app_msg());
    assert_eq!(event.category(), UserNotificationCategory::AdminNotification);
    assert_eq!(event.deep_link(), None);
    assert_eq!(
        event.to_localized_email(locale("en"), &catalog()),
        Ok(Some(LocalizedEmail {
            subject: "Identity verified".to_string(),
            body: "<!DOCTYPE html><html><head><meta charset=\"utf-8\"><title>Identity verified</title></head><body><h1>Identity verified</h1><p>Your identity has been verified.</p></body></html>".to_string(),
        }))
    );
    assert_eq!(event.to_localized_in_app_msg(locale("en"), &catalog()), None);
}

#[test]
fn unsupported_locale_gets_the_default_locale_email() {
    let event = IdentityVerificationApproved {};
    let translations = catalog();
    assert_eq!(
        event.to_localized_email(locale("ja"), &translations),
        event.to_localized_email(locale("en"), &translations)
    );
    assert!(matches!(event.to_localized_email(locale("ja"), &translations), Ok(Some(_))));
}

#[test]
fn email_fails_when_the_title_is_missing_everywhere() {
    let mut translations = Translations::new();
    translations.add("en", "identity_verification_approved.body", "Verified.");
    let event = IdentityVerificationApproved {};
    assert_eq!(
        event.to_localized_email(locale("es"), &translations),
        Err(RenderError { key: "identity_verification_approved.title" })
    );
}

#[test]
fn email_fails_when_the_body_is_missing_everywhere() {
    let mut translations = Translations::new();
    translations.add("es", "identity_verification_approved.title", "Verificado");
    let event = IdentityVerificationApproved {};
    assert_eq!(
        event.to_localized_email(locale("es"), &translations),
        Err(RenderError { key: "identity_verification_approved.body" })
    );
    assert_eq!(
        event.to_localized_email(locale("en"), &translations),
        Err(RenderError { key: "identity_verification_approved.title" })
    );
}

#[test]
fn email_falls_back_text_by_text() {
    let mut translations = Translations::new();
    translations.add("es", "identity_verification_approved.title", "Verificado");
    translations.add("en", "identity_verification_approved.body", "Verified.");
    let event = IdentityVerificationApproved {};
    assert_eq!(
        event.to_localized_email(locale("es"), &translations),
        Ok(Some(LocalizedEmail {
            subject: "Verificado".to_string(),
            body: html("Verificado", "Verified."),
        }))
    );
}

#[test]
fn declined_names_the_reason() {
    let event = IdentityVerificationDeclined {
        declined_reason: IdentityVerificationDeclinedReason::DocumentsExpired,
    };
    assert!(event.should_send_email());
    assert_eq!(event.category(), UserNotificationCategory::AdminNotification);
    assert_eq!(
        event.to_localized_email(locale("en"), &catalog()),
        Ok(Some(LocalizedEmail {
            subject: "Identity not verified".to_string(),
            body: html("Identity not verified", "Reason: the documents have expired."),
        }))
    );
    assert_eq!(
        IdentityVerificationDeclinedReason::SelfieNotClear.key(),
        "identity_verification_declined.reason.selfie_not_clear"
    );
}

#[test]
fn declined_with_an_untranslated_reason_still_renders() {
    let event = IdentityVerificationDeclined {
        declined_reason: IdentityVerificationDeclinedReason::Other,
    };
    let email = event.to_localized_email(locale("en"), &catalog());
    assert_eq!(
        email,
        Ok(Some(LocalizedEmail {
            subject: "Identity not verified".to_string(),
            body: html(
                "Identity not verified",
                "Reason: identity_verification_declined.reason.other."
            ),
        }))
    );
}

#[test]
fn payload_answers_as_the_event_it_holds() {
    let translations = catalog();
    let event = threshold_reached(CircleType::Inner, CircleTimeFrame::Month, 25);
    let payload = NotificationEventPayload::from(event.clone());
    assert!(matches!(payload, NotificationEventPayload::CircleThresholdReached(_)));
    assert_eq!(payload.category(), event.category());
    assert_eq!(payload.deep_link(), event.deep_link());
    assert_eq!(payload.should_send_email(), event.should_send_email());
    assert_eq!(payload.should_send_in_app_msg(), event.should_send_in_app_msg());
    assert_eq!(
        payload.to_localized_push_msg(locale("en"), &translations),
        event.to_localized_push_msg(locale("en"), &translations)
    );
    assert_eq!(payload.to_localized_email(locale("en"), &translations), Ok(None));

    let payload = NotificationEventPayload::from(IdentityVerificationApproved {});
    assert_eq!(payload.category(), UserNotificationCategory::AdminNotification);
    assert!(payload.should_send_email());
    assert_eq!(
        payload.to_localized_email(locale("en"), &translations),
        IdentityVerificationApproved {}.to_localized_email(locale("en"), &translations)
    );

    let payload: NotificationEventPayload = IdentityVerificationReviewStarted {}.into();
    assert!(payload.should_send_in_app_msg());
    assert_eq!(payload.deep_link(), None);
    assert_eq!(
        payload.to_localized_in_app_msg(locale("en"), &translations),
        IdentityVerificationReviewStarted {}.to_localized_in_app_msg(locale("en"), &translations)
    );
}

#[test]
fn template_renders_title_and_body_with_the_same_arguments() {
    let mut translations = Translations::new();
    translations.add("en", "t", "%{n} %{word}");
    translations.add("en", "b", "%{word} %{n} %{n}");
    translations.add("en", "w", "apples");
    let template = MessageTemplate::new("t", "b")
        .with("n", TemplateArgument::Number(3))
        .with("word", TemplateArgument::Translated("w"));
    let (title, body) = template.render(&locale("en"), &translations);
    assert_eq!(title, "3 apples");
    assert_eq!(body, "apples 3 3");
    assert_eq!(
        template.render_strictly(&locale("en"), &translations),
        Ok(("3 apples".to_string(), "apples 3 3".to_string()))
    );
    assert_eq!(
        MessageTemplate::new("t", "missing").render_strictly(&locale("en"), &translations),
        Err(RenderError { key: "missing" })
    );
}

#[test]
fn arguments_are_filled_into_text_outside_ascii() {
    let mut translations = Translations::new();
    translations.add("pt", "t", "Olá, você tem %{n} maçãs");
    translations.add("pt", "b", "%{n} ✓ %{n}");
    let template = MessageTemplate::new("t", "b").with("n", TemplateArgument::Number(12));
    let (title, body) = template.render(&locale("pt"), &translations);
    assert_eq!(title, "Olá, você tem 12 maçãs");
    assert_eq!(body, "12 ✓ 12");
}

#[test]
fn text_with_a_pattern_opened_after_a_character_outside_ascii_is_left_as_it_is() {
    let mut translations = Translations::new();
    translations.add("en", "t", "%é{n} and %{n}");
    translations.add("en", "b", "é %{n}");
    let template = MessageTemplate::new("t", "b").with("n", TemplateArgument::Number(5));
    let (title, body) = template.render(&locale("en"), &translations);
    assert_eq!(title, "%é{n} and %{n}");
    assert_eq!(body, "é 5");
}

#[test]
fn a_brace_that_opens_no_pattern_does_not_stop_the_filling() {
    let mut translations = Translations::new();
    translations.add("en", "t", "é{n} … %{threshold}");
    translations.add("en", "b", "{é{ %{threshold} ✓{x} %{threshold}");
    let template = MessageTemplate::new("t", "b").with("threshold", TemplateArgument::Number(25));
    let (title, body) = template.render(&locale("en"), &translations);
    assert_eq!(title, "é{n} … 25");
    assert_eq!(body, "{é{ 25 ✓{x} 25");
}

#[test]
fn a_name_with_a_percent_sign_fills_nothing() {
    let mut translations = Translations::new();
    translations.add("en", "t", "%{%{é}%{x}");
    translations.add("en", "b", "%{n} and %{%}");
    let template = MessageTemplate::new("t", "b")
        .with("%", TemplateArgument::Number(1))
        .with("n", TemplateArgument::Number(2));
    let (title, body) = template.render(&locale("en"), &translations);
    assert_eq!(title, "%{%{é}%{x}");
    assert_eq!(body, "%{n} and %{%}");
    assert_eq!(
        template.render_strictly(&locale("en"), &translations),
        Ok(("%{%{é}%{x}".to_string(), "%{n} and %{%}".to_string()))
    );
}

#[test]
fn nested_openings_are_filled_as_text() {
    let mut translations = Translations::new();
    translations.add("en", "t", "%{%{é}%{n}");
    translations.add("en", "b", "%{a%{n} %{n}");
    let template = MessageTemplate::new("t", "b").with("n", TemplateArgument::Number(7));
    let (title, body) = template.render(&locale("en"), &translations);
    assert!(std::str::from_utf8(title.as_bytes()).is_ok());
    assert!(std::str::from_utf8(body.as_bytes()).is_ok());
    assert!(title.contains('é'));
}

#[test]
fn template_without_arguments_gives_the_text_as_it_is() {
    let mut translations = Translations::new();
    translations.add("en", "t", "Hello");
    translations.add("en", "b", "100%{sure} é{ %é{");
    let template = MessageTemplate::new("t", "b");
    let (title, body) = template.render(&locale("en"), &translations);
    assert_eq!(title, "Hello");
    assert_eq!(body, "100%{sure} é{ %é{");
    assert_eq!(
        template.render_strictly(&locale("en"), &translations),
        Ok(("Hello".to_string(), "100%{sure} é{ %é{".to_string()))
    );
}

#[test]
fn fillable_texts_are_told_apart() {
    assert!(is_fillable(""));
    assert!(is_fillable("{"));
    assert!(is_fillable("plain text"));
    assert!(is_fillable("Hello %{name}, {x}"));
    assert!(is_fillable("é %{n}"));
    assert!(is_fillable("{é}"));
    assert!(is_fillable("é{n}"));
    assert!(is_fillable("%{a} ✓{"));
    assert!(is_fillable("%{é{"));
    assert!(is_fillable("é%{n}"));
    assert!(!is_fillable("%é{n}"));
    assert!(!is_fillable("%{a} % ✓{"));
    assert!(!is_fillable("%{a}%}é{"));
    assert!(!is_fillable("%%é{"));
}

#[test]
fn plain_names_are_told_apart() {
    assert!(is_plain_name(""));
    assert!(is_plain_name("threshold"));
    assert!(is_plain_name("é{}"));
    assert!(!is_plain_name("%"));
    assert!(!is_plain_name("a%b"));
    assert!(!is_plain_name("é%"));
}

#[test]
fn default_locale_is_the_fallback_locale() {
    assert_eq!(GaloyLocale::default().as_str(), "en");
    let event = IdentityVerificationReviewStarted {};
    let translations = catalog();
    assert_eq!(
        event.to_localized_push_msg(GaloyLocale::default(), &translations),
        event.to_localized_push_msg(locale("en"), &translations)
    );
}

#[test]
fn every_kind_of_event_has_its_own_tag() {
    let payloads = [
        (
            NotificationEventPayload::from(CircleGrew {
                user_id: user(),
                circle_type: CircleType::Inner,
                this_month_circle_size: 1,
                all_time_circle_size: 2,
            }),
            "circle_grew",
        ),
        (
            NotificationEventPayload::from(threshold_reached(
                CircleType::Inner,
                CircleTimeFrame::Month,
                1,
            )),
            "circle_threshold_reached",
        ),
        (
            NotificationEventPayload::from(IdentityVerificationApproved {}),
            "identity_verification_approved",
        ),
        (
            NotificationEventPayload::from(IdentityVerificationDeclined {
                declined_reason: IdentityVerificationDeclinedReason::Other,
            }),
            "identity_verification_declined",
        ),
        (
            NotificationEventPayload::from(IdentityVerificationReviewStarted {}),
            "identity_verification_review_started",
        ),
        (
            NotificationEventPayload::from(TransactionInfo {
                user_id: user(),
                transaction_type: TransactionType::IntraLedgerPayment,
                settlement_amount: 1,
                currency: Currency::Btc,
            }),
            "transaction_info",
        ),
        (
            NotificationEventPayload::from(PriceChanged {
                price_of_one_bitcoin: 1,
                direction: PriceChangeDirection::Up,
                change_in_basis_points: 1,
            }),
            "price_changed",
        ),
    ];
    for (payload, tag) in &payloads {
        assert_eq!(payload.type_tag(), *tag);
        assert_eq!(payload.clone().type_tag(), *tag);
    }
}

#[test]
fn html_escaping_replaces_the_five_special_characters() {
    assert_eq!(escape_html(""), "");
    assert_eq!(escape_html("plain text, nothing special"), "plain text, nothing special");
    assert_eq!(escape_html("a & b"), "a &amp; b");
    assert_eq!(escape_html("<b>bold</b>"), "&lt;b&gt;bold&lt;/b&gt;");
    assert_eq!(escape_html("say \"hi\""), "say &quot;hi&quot;");
    assert_eq!(escape_html("it's"), "it&#39;s");
    assert_eq!(escape_html("&amp;"), "&amp;amp;");
    assert_eq!(escape_html("maçã ✓ <"), "maçã ✓ &lt;");
}

#[test]
fn email_template_wraps_subject_and_body() {
    let formatter = EmailFormatter::new();
    assert_eq!(
        formatter.generic_email_template("Hello", "World"),
        "<!DOCTYPE html><html><head><meta charset=\"utf-8\"><title>Hello</title></head><body><h1>Hello</h1><p>World</p></body></html>"
    );
    assert_eq!(
        formatter.generic_email_template("", ""),
        "<!DOCTYPE html><html><head><meta charset=\"utf-8\"><title></title></head><body><h1></h1><p></p></body></html>"
    );
}

#[test]
fn email_template_escapes_subject_and_body() {
    let formatter = EmailFormatter::new();
    assert_eq!(
        formatter.generic_email_template("Q&A", "1 < 2 <script>"),
        "<!DOCTYPE html><html><head><meta charset=\"utf-8\"><title>Q&amp;A</title></head><body><h1>Q&amp;A</h1><p>1 &lt; 2 &lt;script&gt;</p></body></html>"
    );
}

#[test]
fn email_escapes_what_the_arguments_bring_in() {
    let mut translations = catalog();
    translations.add(
        "en",
        "identity_verification_declined.reason.other",
        "<see your inbox> & try again",
    );
    let event = IdentityVerificationDeclined {
        declined_reason: IdentityVerificationDeclinedReason::Other,
    };
    let email = event.to_localized_email(locale("en"), &translations).unwrap().unwrap();
    assert_eq!(email.subject, "Identity not verified");
    assert_eq!(
        email.body,
        html("Identity not verified", "Reason: &lt;see your inbox&gt; &amp; try again.")
    );
    let push = event.to_localized_push_msg(locale("en"), &translations);
    assert_eq!(push.body, "Reason: <see your inbox> & try again.");
}
