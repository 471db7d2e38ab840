//! Localized messages and the templates they are rendered from.
//!
//! An event names the catalog keys of its title and body and the arguments to
//! fill in; rendering looks the texts up in the recipient's locale, falling
//! back to the default locale, and replaces each `%{name}` in them by the
//! argument of that name.

use vstd::prelude::*;
use vstd::string::*;
use crate::primitives::GaloyLocale;
use crate::text::chars_of;
use crate::text::decimal;
use crate::text::decimal_text;
use crate::text::escape_html;
use crate::text::html_escaped;
use crate::translations::lemma_unsupported_locale_falls_back;
use crate::translations::resolved_text;
use crate::translations::shown_text;
use crate::translations::supports_locale;
use crate::translations::Catalog;
use crate::translations::Translations;
use crate::translations::DEFAULT_LOCALE;

verus! {

/// The two texts of a rendered message.  For an email, `title` is the subject.
pub struct MessageText {
    pub title: Seq<char>,
    pub body: Seq<char>,
}

/// A message for the push channel.
#[derive(Debug, PartialEq, Eq)]
pub struct LocalizedPushMessage {
    pub title: String,
    pub body: String,
}

/// A message shown inside the application.
#[derive(Debug, PartialEq, Eq)]
pub struct LocalizedInAppMessage {
    pub title: String,
    pub body: String,
}

/// A message for the email channel.
#[derive(Debug, PartialEq, Eq)]
pub struct LocalizedEmail {
    pub subject: String,
    pub body: String,
}

impl View for LocalizedPushMessage {
    type V = MessageText;

    open spec fn view(&self) -> MessageText {
        MessageText { title: self.title@, body: self.body@ }
    }
}

impl View for LocalizedInAppMessage {
    type V = MessageText;

    open spec fn view(&self) -> MessageText {
        MessageText { title: self.title@, body: self.body@ }
    }
}

impl View for LocalizedEmail {
    type V = MessageText;

    open spec fn view(&self) -> MessageText {
        MessageText { title: self.subject@, body: self.body@ }
    }
}

/// An email cannot be rendered: the catalog holds no text under `key`, neither
/// for the requested locale nor for the default locale.
#[derive(Copy, Clone, Debug, PartialEq, Eq)]
pub struct RenderError {
    pub key: &'static str,
}

/// What fills a `%{name}` in a text.
#[derive(Copy, Clone, Debug)]
pub enum TemplateArgument {
    /// A number, written in decimal notation.
    Number(u64),
    /// The catalog text under this key, in the recipient's locale.
    Translated(&'static str),
}

/// What an argument is, apart from how it is stored.
pub enum ArgumentView {
    Number(nat),
    Translated(Seq<char>),
}

impl View for TemplateArgument {
    type V = ArgumentView;

    open spec fn view(&self) -> ArgumentView {
        match self {
            TemplateArgument::Number(n) => ArgumentView::Number(*n as nat),
            TemplateArgument::Translated(key) => ArgumentView::Translated(key@),
        }
    }
}

/// What an event's message is rendered from: the catalog keys of its title and
/// body, and the named arguments.
pub struct MessageTemplate {
    title_key: &'static str,
    body_key: &'static str,
    names: Vec<&'static str>,
    values: Vec<TemplateArgument>,
}

/// What a template holds: the two keys, and the arguments' names and values
/// in the order in which they were added.
#[verifier::ext_equal]
pub struct TemplateView {
    pub title_key: Seq<char>,
    pub body_key: Seq<char>,
    pub names: Seq<Seq<char>>,
    pub values: Seq<ArgumentView>,
}

impl TemplateView {
    /// A template without arguments.
    pub open spec fn plain(title_key: Seq<char>, body_key: Seq<char>) -> TemplateView {
        TemplateView { title_key, body_key, names: Seq::empty(), values: Seq::empty() }
    }

    /// The template with one more argument.
    pub open spec fn with(self, name: Seq<char>, value: ArgumentView) -> TemplateView {
        TemplateView { names: self.names.push(name), values: self.values.push(value), ..self }
    }
}

impl View for MessageTemplate {
    type V = TemplateView;

    closed spec fn view(&self) -> TemplateView {
        TemplateView {
            title_key: self.title_key@,
            body_key: self.body_key@,
            names: self.names.deep_view(),
            values: self.values@.map_values(|value: TemplateArgument| value@),
        }
    }
}

/// A `%` stands at `from`, and no `{` between it and `at`.
pub open spec fn percent_reaches(text: Seq<char>, from: int, at: int) -> bool {
    &&& 0 <= from < at <= text.len()
    &&& text[from] == '%'
    &&& forall|k: int| from < k < at ==> text[k] != '{'
}

/// A `{` at `at` would open a pattern: some `%` stands before `at` with no
/// `{` in between.
pub open spec fn armed_at(text: Seq<char>, at: int) -> bool {
    exists|from: int| percent_reaches(text, from, at)
}

/// `text[at]` is a `{` that opens a pattern.
pub open spec fn opens_pattern(text: Seq<char>, at: int) -> bool {
    0 <= at < text.len() && text[at] == '{' && armed_at(text, at)
}

/// Whether arguments can be filled into `text`: every `{` that opens a
/// pattern directly follows an ASCII character.  Where a pattern is replaced,
/// the text is cut one byte before that `{`, and the cut must not fall inside
/// a character.
pub open spec fn fillable(text: Seq<char>) -> bool {
    forall|at: int| #[trigger] opens_pattern(text, at) ==> (text[at - 1] as u32) < 128
}

/// Whether a name holds no `%`.
pub open spec fn plain_name(name: Seq<char>) -> bool {
    forall|i: int| 0 <= i < name.len() ==> name[i] != '%'
}

/// Whether none of the names holds a `%`.
pub open spec fn plain_names(names: Seq<Seq<char>>) -> bool {
    forall|i: int| 0 <= i < names.len() ==> plain_name(#[trigger] names[i])
}

/// What `rust_i18n::replace_patterns` makes of `input`, given the names and
/// the texts to put in their place.
pub uninterp spec fn replaced_patterns(
    input: Seq<char>,
    patterns: Seq<Seq<char>>,
    values: Seq<Seq<char>>,
) -> Seq<char>;

/// `rust_i18n::replace_patterns`: replaces each `%{name}` of `input` whose
/// name is among `patterns` by the text at the same place in `values`.  The
/// result depends on these three alone.
///
/// The function marks every `{` that opens a pattern and every `}` that
/// follows one, takes the marks two by two, and where the bytes between two
/// marks are among `patterns`, puts the value in place of them, of the marks
/// and of the one byte before the first mark.  Two marks that are not the
/// braces of one `%{name}` have a `%` between them.  So the contract leaves
/// out patterns that hold a `%`, and inputs in which a `{` that opens a
/// pattern follows a character outside ASCII: on what remains, only a
/// `%{name}` is replaced, and the byte that goes with it is a whole
/// character.  Nothing is claimed of other inputs, on which the bytes put
/// together need not be text.
#[verifier::external_body]
fn replace_patterns(input: &str, patterns: &Vec<&'static str>, values: &Vec<String>) -> (output:
    String)
    requires
        fillable(input@),
        plain_names(patterns.deep_view()),
    ensures
        output@ == replaced_patterns(input@, patterns.deep_view(), values.deep_view()),
{
    rust_i18n::replace_patterns(input, patterns, values)
}

/// `text` with the arguments filled in.  Without arguments there is nothing
/// to fill in and the text stays as it is.  It also stays as it is where a
/// name holds a `%` or the text is not fillable.
pub open spec fn filled(text: Seq<char>, names: Seq<Seq<char>>, values: Seq<Seq<char>>) -> Seq<char> {
    if names.len() > 0 && plain_names(names) && fillable(text) {
        replaced_patterns(text, names, values)
    } else {
        text
    }
}

/// The text that stands for an argument.
pub open spec fn argument_text(value: ArgumentView, catalog: Catalog, locale: Seq<char>) -> Seq<char> {
    match value {
        ArgumentView::Number(n) => decimal_text(n),
        ArgumentView::Translated(key) => shown_text(catalog, locale, key),
    }
}

/// The texts that stand for a template's arguments, in their order.
pub open spec fn argument_texts(template: TemplateView, catalog: Catalog, locale: Seq<char>) -> Seq<
    Seq<char>,
> {
    template.values.map_values(|value: ArgumentView| argument_text(value, catalog, locale))
}

/// The catalog text under `key` as shown to `locale`, with the template's
/// arguments filled in.
pub open spec fn filled_text(
    template: TemplateView,
    key: Seq<char>,
    catalog: Catalog,
    locale: Seq<char>,
) -> Seq<char> {
    filled(
        shown_text(catalog, locale, key),
        template.names,
        argument_texts(template, catalog, locale),
    )
}

/// The message a template renders to.  A text that neither the locale nor the
/// default locale holds is stood in for by its key, so this is total.
pub open spec fn rendered(template: TemplateView, catalog: Catalog, locale: Seq<char>) -> MessageText {
    MessageText {
        title: filled_text(template, template.title_key, catalog, locale),
        body: filled_text(template, template.body_key, catalog, locale),
    }
}

/// The first of the title and body keys for which the catalog holds no text,
/// neither for the locale nor for the default locale.
pub open spec fn missing_resource(template: TemplateView, catalog: Catalog, locale: Seq<char>) -> Option<
    Seq<char>,
> {
    if resolved_text(catalog, locale, template.title_key) is None {
        Some(template.title_key)
    } else if resolved_text(catalog, locale, template.body_key) is None {
        Some(template.body_key)
    } else {
        None
    }
}

/// The HTML document that an email with this subject and body is sent as.
/// Subject and body are text, not markup: they are escaped.
pub open spec fn generic_email_html(subject: Seq<char>, body: Seq<char>) -> Seq<char> {
    "<!DOCTYPE html><html><head><meta charset=\"utf-8\"><title>"@ + html_escaped(subject)
        + "</title></head><body><h1>"@ + html_escaped(subject) + "</h1><p>"@ + html_escaped(body)
        + "</p></body></html>"@
}

/// The email made of a rendered message: the title is the subject, and the
/// body is laid out as an HTML document.
pub open spec fn email_text(message: MessageText) -> MessageText {
    MessageText { title: message.title, body: generic_email_html(message.title, message.body) }
}

/// Lays emails out as HTML documents.
#[derive(Copy, Clone, Debug)]
pub struct EmailFormatter {}

impl EmailFormatter {
    pub fn new() -> EmailFormatter {
        EmailFormatter {  }
    }

    /// The HTML document for an email with this subject and body.
    pub fn generic_email_template(&self, subject: &str, body: &str) -> (html: String)
        ensures
            html@ == generic_email_html(subject@, body@),
    {
        let subject = escape_html(subject);
        let mut html = "<!DOCTYPE html><html><head><meta charset=\"utf-8\"><title>".to_owned();
        html.append(subject.as_str());
        html.append("</title></head><body><h1>");
        html.append(subject.as_str());
        html.append("</h1><p>");
        html.append(escape_html(body).as_str());
        html.append("</p></body></html>");
        html
    }
}

/// For a locale without texts, a template renders as it does for the default
/// locale, and lacks exactly the texts that the default locale lacks.
pub proof fn lemma_template_renders_as_default(template: TemplateView, catalog: Catalog, locale: Seq<char>)
    requires
        !supports_locale(catalog, locale),
    ensures
        rendered(template, catalog, locale) == rendered(template, catalog, DEFAULT_LOCALE@),
        missing_resource(template, catalog, locale) == missing_resource(
            template,
            catalog,
            DEFAULT_LOCALE@,
        ),
{
    lemma_unsupported_locale_falls_back(catalog, locale, template.title_key);
    lemma_unsupported_locale_falls_back(catalog, locale, template.body_key);
    assert forall|i: int| 0 <= i < template.values.len() implies argument_text(
        template.values[i],
        catalog,
        locale,
    ) == argument_text(template.values[i], catalog, DEFAULT_LOCALE@) by {
        match template.values[i] {
            ArgumentView::Number(_) => {},
            ArgumentView::Translated(key) => {
                lemma_unsupported_locale_falls_back(catalog, locale, key);
            },
        }
    }
    assert(argument_texts(template, catalog, locale) =~= argument_texts(
        template,
        catalog,
        DEFAULT_LOCALE@,
    ));
}

/// How one character changes whether a `{` would open a pattern: a `%` makes
/// it so, a `{` ends it, any other character leaves it as it was.
proof fn lemma_armed_step(text: Seq<char>, at: int)
    requires
        0 <= at < text.len(),
    ensures
        text[at] == '%' ==> armed_at(text, at + 1),
        text[at] == '{' ==> !armed_at(text, at + 1),
        text[at] != '%' && text[at] != '{' ==> armed_at(text, at + 1) == armed_at(text, at),
{
    if text[at] == '%' {
        assert(percent_reaches(text, at, at + 1));
    } else if text[at] == '{' {
        let next = at + 1;
        assert forall|from: int| !#[trigger] percent_reaches(text, from, next) by {
            if percent_reaches(text, from, next) {
                assert(from < at);
                assert(text[at] != '{');
            }
        }
    } else {
        let next = at + 1;
        if armed_at(text, at) {
            let from = choose|from: int| percent_reaches(text, from, at);
            assert(percent_reaches(text, from, next));
        }
        if armed_at(text, next) {
            let from = choose|from: int| percent_reaches(text, from, next);
            assert(percent_reaches(text, from, at));
        }
    }
}

/// Whether arguments can be filled into `text`.
pub fn is_fillable(text: &str) -> (fillable: bool)
    ensures
        fillable == self::fillable(text@),
{
    let chars = chars_of(text);
    let mut armed = false;
    let mut i: usize = 0;
    while i < chars.len()
        invariant
            i <= chars.len(),
            chars@ == text@,
            armed == armed_at(chars@, i as int),
            forall|at: int|
                at < i && #[trigger] opens_pattern(chars@, at) ==> (chars@[at - 1] as u32) < 128,
        decreases chars.len() - i,
    {
        let c = chars[i];
        proof {
            lemma_armed_step(chars@, i as int);
        }
        if c == '{' {
            if armed {
                proof {
                    let from = choose|from: int| percent_reaches(chars@, from, i as int);
                    assert(0 <= from < i);
                }
                if chars[i - 1] as u32 >= 128 {
                    assert(opens_pattern(chars@, i as int));
                    return false;
                }
            }
            armed = false;
        } else if c == '%' {
            armed = true;
        }
        i = i + 1;
    }
    true
}

/// Whether `name` holds no `%`.
pub fn is_plain_name(name: &str) -> (plain: bool)
    ensures
        plain == plain_name(name@),
{
    let chars = chars_of(name);
    let mut i: usize = 0;
    while i < chars.len()
        invariant
            i <= chars.len(),
            chars@ == name@,
            forall|j: int| 0 <= j < i ==> chars@[j] != '%',
        decreases chars.len() - i,
    {
        if chars[i] == '%' {
            return false;
        }
        i = i + 1;
    }
    true
}

/// Whether none of `names` holds a `%`.
fn are_plain_names(names: &Vec<&'static str>) -> (plain: bool)
    ensures
        plain == plain_names(names.deep_view()),
{
    let mut i: usize = 0;
    while i < names.len()
        invariant
            i <= names.len(),
            forall|j: int| 0 <= j < i ==> plain_name(#[trigger] names.deep_view()[j]),
        decreases names.len() - i,
    {
        assert(names.deep_view()[i as int] == names@[i as int]@);
        if !is_plain_name(names[i]) {
            return false;
        }
        i = i + 1;
    }
    true
}

impl LocalizedPushMessage {
    pub fn new(title: String, body: String) -> (message: LocalizedPushMessage)
        ensures
            message@ == (MessageText { title: title@, body: body@ }),
    {
        LocalizedPushMessage { title, body }
    }
}

impl LocalizedInAppMessage {
    pub fn new(title: String, body: String) -> (message: LocalizedInAppMessage)
        ensures
            message@ == (MessageText { title: title@, body: body@ }),
    {
        LocalizedInAppMessage { title, body }
    }
}

impl LocalizedEmail {
    pub fn new(subject: String, body: String) -> (message: LocalizedEmail)
        ensures
            message@ == (MessageText { title: subject@, body: body@ }),
    {
        LocalizedEmail { subject, body }
    }
}

impl MessageTemplate {
    /// A template without arguments.
    pub fn new(title_key: &'static str, body_key: &'static str) -> (template: MessageTemplate)
        ensures
            template@ == TemplateView::plain(title_key@, body_key@),
    {
        let template = MessageTemplate {
            title_key,
            body_key,
            names: Vec::new(),
            values: Vec::new(),
        };
        assert(template@ =~= TemplateView::plain(title_key@, body_key@));
        template
    }

    /// Adds the argument `name`, filled with `value`.
    pub fn with(self, name: &'static str, value: TemplateArgument) -> (template: MessageTemplate)
        ensures
            template@ == self@.with(name@, value@),
    {
        let mut template = self;
        template.names.push(name);
        template.values.push(value);
        assert(template@ =~= self@.with(name@, value@));
        template
    }

    pub fn title_key(&self) -> (key: &'static str)
        ensures
            key@ == self@.title_key,
    {
        self.title_key
    }

    pub fn body_key(&self) -> (key: &'static str)
        ensures
            key@ == self@.body_key,
    {
        self.body_key
    }

    fn argument_texts(&self, locale: &str, translations: &Translations) -> (texts: Vec<String>)
        ensures
            texts.deep_view() == argument_texts(self@, translations@, locale@),
    {
        let mut texts: Vec<String> = Vec::new();
        let mut i: usize = 0;
        while i < self.values.len()
            invariant
                i <= self.values.len(),
                texts.len() == i,
                forall|j: int|
                    0 <= j < i ==> (#[trigger] texts@[j])@ == argument_text(
                        self.values@[j]@,
                        translations@,
                        locale@,
                    ),
            decreases self.values.len() - i,
        {
            let text = match self.values[i] {
                TemplateArgument::Number(n) => decimal(n),
                TemplateArgument::Translated(key) => translations.translate(locale, key),
            };
            texts.push(text);
            i = i + 1;
        }
        assert(texts.deep_view() =~= argument_texts(self@, translations@, locale@));
        texts
    }

    fn fill(&self, text: String, texts: &Vec<String>) -> (text_out: String)
        ensures
            text_out@ == filled(text@, self@.names, texts.deep_view()),
    {
        if self.names.len() > 0 && are_plain_names(&self.names) && is_fillable(text.as_str()) {
            replace_patterns(text.as_str(), &self.names, texts)
        } else {
            text
        }
    }

    /// Renders title and body for `locale`.  Never fails: a text that is
    /// missing for the locale is taken from the default locale, and one that
    /// is missing there too is stood in for by its key.
    pub fn render(&self, locale: &GaloyLocale, translations: &Translations) -> (text: (String, String))
        ensures
            text.0@ == rendered(self@, translations@, locale@).title,
            text.1@ == rendered(self@, translations@, locale@).body,
    {
        let texts = self.argument_texts(locale.as_str(), translations);
        let title = translations.translate(locale.as_str(), self.title_key);
        let body = translations.translate(locale.as_str(), self.body_key);
        (self.fill(title, &texts), self.fill(body, &texts))
    }

    /// Renders title and body for `locale`, insisting that the catalog holds
    /// both texts, for the locale or for the default locale.  Fails with the
    /// first key that it holds for neither.
    pub fn render_strictly(&self, locale: &GaloyLocale, translations: &Translations) -> (text: Result<
        (String, String),
        RenderError,
    >)
        ensures
            match text {
                Ok(t) => {
                    &&& missing_resource(self@, translations@, locale@) is None
                    &&& t.0@ == rendered(self@, translations@, locale@).title
                    &&& t.1@ == rendered(self@, translations@, locale@).body
                },
                Err(e) => missing_resource(self@, translations@, locale@) == Some(e.key@),
            },
    {
        let title = match translations.try_translate(locale.as_str(), self.title_key) {
            Some(title) => title,
            None => {
                return Err(RenderError { key: self.title_key });
            },
        };
        let body = match translations.try_translate(locale.as_str(), self.body_key) {
            Some(body) => body,
            None => {
                return Err(RenderError { key: self.body_key });
            },
        };
        let texts = self.argument_texts(locale.as_str(), translations);
        Ok((self.fill(title, &texts), self.fill(body, &texts)))
    }
}

} // verus!
