//! The data of an e-mail message: validated addresses and MIME types,
//! attachments, bodies, and the message itself.

use crate::types::string_map::StringMap;
use vstd::prelude::*;

verus! {

// ---------------------------------------------------------------------------
// What the outside validators decide
// ---------------------------------------------------------------------------

/// Whether `validator`'s e-mail check accepts the text `s`.
pub uninterp spec fn validator_accepts_email(s: Seq<char>) -> bool;

/// The text that `mime` makes of `s` when it parses it as a media type, or
/// `None` when it refuses it.
pub uninterp spec fn mime_parse_text(s: Seq<char>) -> Option<Seq<char>>;

/// `s` holds exactly one `@`, with between 1 and 64 characters before it and
/// between 1 and 255 characters after it.
pub open spec fn email_shape(s: Seq<char>) -> bool {
    exists|i: int|
        #![trigger s[i]]
        0 < i < s.len() - 1 && s[i] == '@' && i <= 64 && s.len() - 1 - i <= 255 && forall|j: int|
            0 <= j < s.len() && j != i ==> s[j] != '@'
}

/// Calls `validator::ValidateEmail::validate_email` on `s`. Claims that the
/// answer is a function of the text alone and that an accepted text holds one
/// `@` between a local part of 1 to 64 characters and a domain part of 1 to
/// 255 characters: the validator refuses a text with no `@`, counts the parts
/// around the last `@`, refuses a longer local or domain part, and matches
/// the local part against a pattern of one or more characters without `@`
/// and the domain part against patterns that need at least one character.
#[verifier::external_body]
fn validate_email(s: &String) -> (r: bool)
    ensures
        r == validator_accepts_email(s@),
        r ==> email_shape(s@),
{
    validator::ValidateEmail::validate_email(s)
}

/// Parses `s` with `mime`'s `FromStr` for `Mime` and renders the result with
/// its `Display`. Claims only that the outcome is a function of the text.
#[verifier::external_body]
fn parse_mime(s: &str) -> (r: Option<String>)
    ensures
        match r {
            Some(t) => mime_parse_text(s@) == Some(t@),
            None => mime_parse_text(s@) is None,
        },
{
    match s.parse::<mime::Mime>() {
        Ok(m) => Some(m.to_string()),
        Err(_) => None,
    }
}

// ---------------------------------------------------------------------------
// Validated text
// ---------------------------------------------------------------------------

/// A media type that `mime` accepted, in the form `mime` renders it.
#[derive(Debug, PartialEq, Eq)]
pub struct ValidMime(String);

impl ValidMime {
    #[verifier::type_invariant]
    spec fn rendered_by_mime(&self) -> bool {
        exists|src: Seq<char>| mime_parse_text(src) == Some(self.0@)
    }
}

impl Clone for ValidMime {
    /// A copy of the same media type.
    fn clone(&self) -> (r: ValidMime)
        ensures
            r == *self,
    {
        proof {
            use_type_invariant(self);
        }
        ValidMime(self.0.clone())
    }
}

impl View for ValidMime {
    type V = Seq<char>;

    closed spec fn view(&self) -> Seq<char> {
        self.0@
    }
}

impl ValidMime {
    /// Parses `s` as a media type.
    pub fn parse(s: String) -> (r: Result<ValidMime, String>)
        ensures
            match mime_parse_text(s@) {
                Some(t) => r is Ok && r->Ok_0@ == t,
                None => r is Err && r->Err_0@ == s@ + " is not a valid Mime Type."@,
            },
    {
        let parsed = parse_mime(s.as_str());
        ValidMime::from_parsed(s, parsed)
    }

    /// The outcome of parsing `s` given what `mime` made of it: the rendered
    /// text, or a message naming `s` when `mime` refused it.
    pub fn from_parsed(s: String, parsed: Option<String>) -> (r: Result<ValidMime, String>)
        requires
            parsed matches Some(t) ==> exists|src: Seq<char>| mime_parse_text(src) == Some(t@),
        ensures
            match parsed {
                Some(t) => r is Ok && r->Ok_0@ == t@,
                None => r is Err && r->Err_0@ == s@ + " is not a valid Mime Type."@,
            },
    {
        match parsed {
            Some(t) => Ok(ValidMime(t)),
            None => Err(s.concat(" is not a valid Mime Type.")),
        }
    }

    /// Parses `s` as a media type, with no message on failure.
    pub fn from_str(s: &str) -> (r: Result<ValidMime, ()>)
        ensures
            match mime_parse_text(s@) {
                Some(t) => r is Ok && r->Ok_0@ == t,
                None => r is Err,
            },
    {
        match ValidMime::parse(s.to_owned()) {
            Ok(m) => Ok(m),
            Err(_) => Err(()),
        }
    }

    /// The media type's text.
    pub fn as_ref(&self) -> (r: &str)
        ensures
            r@ == self@,
            exists|src: Seq<char>| mime_parse_text(src) == Some(r@),
    {
        proof {
            use_type_invariant(self);
        }
        self.0.as_str()
    }

    /// The media type's text, as an owned string.
    pub fn to_string(&self) -> (r: String)
        ensures
            r@ == self@,
            exists|src: Seq<char>| mime_parse_text(src) == Some(r@),
    {
        proof {
            use_type_invariant(self);
        }
        self.0.clone()
    }
}

impl std::str::FromStr for ValidMime {
    type Err = ();

    fn from_str(s: &str) -> (r: Result<ValidMime, ()>)
        ensures
            match mime_parse_text(s@) {
                Some(t) => r is Ok && r->Ok_0@ == t,
                None => r is Err,
            },
    {
        ValidMime::from_str(s)
    }
}

impl TryFrom<String> for ValidMime {
    type Error = String;

    /// Parses `value` as a media type, as `ValidMime::parse` does.
    fn try_from(value: String) -> (r: Result<ValidMime, String>)
        ensures
            match mime_parse_text(value@) {
                Some(t) => r is Ok && r->Ok_0@ == t,
                None => r is Err && r->Err_0@ == value@ + " is not a valid Mime Type."@,
            },
    {
        ValidMime::parse(value)
    }
}

/// The outcome of `try_from` is stated by that function's own `ensures`: no
/// spec function could give its error, since a `String` is not fixed by its
/// characters alone, so this impl does not claim to follow `try_from_spec`.
impl vstd::std_specs::convert::TryFromSpecImpl<String> for ValidMime {
    open spec fn obeys_try_from_spec() -> bool {
        false
    }

    open spec fn try_from_spec(v: String) -> Result<ValidMime, String> {
        arbitrary()
    }
}

impl AsRef<str> for ValidMime {
    fn as_ref(&self) -> (r: &str)
        ensures
            r@ == self@,
            exists|src: Seq<char>| mime_parse_text(src) == Some(r@),
    {
        ValidMime::as_ref(self)
    }
}

/// An e-mail address that `validator` accepted.
#[derive(Debug, PartialEq, Eq)]
pub struct ValidEmail(String);

impl ValidEmail {
    #[verifier::type_invariant]
    spec fn accepted(&self) -> bool {
        validator_accepts_email(self.0@) && email_shape(self.0@)
    }
}

impl Clone for ValidEmail {
    /// A copy of the same address.
    fn clone(&self) -> (r: ValidEmail)
        ensures
            r == *self,
    {
        proof {
            use_type_invariant(self);
        }
        ValidEmail(self.0.clone())
    }
}

impl View for ValidEmail {
    type V = Seq<char>;

    closed spec fn view(&self) -> Seq<char> {
        self.0@
    }
}

impl ValidEmail {
    /// Checks `s` as an e-mail address.
    pub fn parse(s: String) -> (r: Result<ValidEmail, String>)
        ensures
            r is Ok <==> validator_accepts_email(s@),
            !email_shape(s@) ==> r is Err,
            match r {
                Ok(e) => e@ == s@,
                Err(m) => m@ == s@ + " is not a valid email."@,
            },
    {
        let accepted = validate_email(&s);
        ValidEmail::from_check(s, accepted)
    }

    /// The outcome of checking `s` given the validator's answer: the address,
    /// or a message naming `s` when it was refused.
    pub fn from_check(s: String, accepted: bool) -> (r: Result<ValidEmail, String>)
        requires
            accepted ==> validator_accepts_email(s@) && email_shape(s@),
        ensures
            r is Ok <==> accepted,
            match r {
                Ok(e) => e@ == s@,
                Err(m) => m@ == s@ + " is not a valid email."@,
            },
    {
        if accepted {
            Ok(ValidEmail(s))
        } else {
            Err(s.concat(" is not a valid email."))
        }
    }

    /// The address's text; `validator` accepts it, and it holds one `@`
    /// between a local part of 1 to 64 characters and a domain part of 1 to
    /// 255 characters.
    pub fn as_ref(&self) -> (r: &str)
        ensures
            r@ == self@,
            validator_accepts_email(r@),
            email_shape(r@),
    {
        proof {
            use_type_invariant(self);
        }
        self.0.as_str()
    }

    /// The address's text, as an owned string.
    pub fn to_string(&self) -> (r: String)
        ensures
            r@ == self@,
            validator_accepts_email(r@),
            email_shape(r@),
    {
        proof {
            use_type_invariant(self);
        }
        self.0.clone()
    }
}

impl TryFrom<String> for ValidEmail {
    type Error = String;

    /// Checks `value` as an e-mail address, as `ValidEmail::parse` does.
    fn try_from(value: String) -> (r: Result<ValidEmail, String>)
        ensures
            r is Ok <==> validator_accepts_email(value@),
            !email_shape(value@) ==> r is Err,
            match r {
                Ok(e) => e@ == value@,
                Err(m) => m@ == value@ + " is not a valid email."@,
            },
    {
        ValidEmail::parse(value)
    }
}

/// The outcome of `try_from` is stated by that function's own `ensures`: no
/// spec function could give its error, since a `String` is not fixed by its
/// characters alone, so this impl does not claim to follow `try_from_spec`.
impl vstd::std_specs::convert::TryFromSpecImpl<String> for ValidEmail {
    open spec fn obeys_try_from_spec() -> bool {
        false
    }

    open spec fn try_from_spec(v: String) -> Result<ValidEmail, String> {
        arbitrary()
    }
}

impl AsRef<str> for ValidEmail {
    fn as_ref(&self) -> (r: &str)
        ensures
            r@ == self@,
            validator_accepts_email(r@),
            email_shape(r@),
    {
        ValidEmail::as_ref(self)
    }
}

// ---------------------------------------------------------------------------
// Message parts
// ---------------------------------------------------------------------------

/// The body of a message: plain text, HTML, or both.
#[derive(Clone, Debug, PartialEq, Eq)]
pub enum Body {
    Text { text: String },
    Html { html: String },
    TextAndHtml { text: String, html: String },
}

/// How a mail client should present an attachment.
#[derive(Clone, Debug, PartialEq, Eq)]
pub enum Disposition {
    Inline,
    Attachment,
}

/// A file attached to a message; `content` is its Base64 text.
#[derive(Clone, Debug, PartialEq, Eq)]
pub struct Attachment {
    pub content: String,
    pub content_type: ValidMime,
    pub filename: String,
    pub disposition: Option<Disposition>,
    pub content_id: Option<String>,
}

impl Attachment {
    /// An attachment with the given parts.
    pub fn new(
        content: String,
        content_type: ValidMime,
        filename: String,
        disposition: Option<Disposition>,
        content_id: Option<String>,
    ) -> (r: Attachment)
        ensures
            r.content == content,
            r.content_type == content_type,
            r.filename == filename,
            r.disposition == disposition,
            r.content_id == content_id,
    {
        Attachment { content, content_type, filename, disposition, content_id }
    }
}

/// A validated address with an optional display name.
#[derive(Clone, Debug, PartialEq, Eq)]
pub struct EmailAddress {
    pub email: ValidEmail,
    pub name: Option<String>,
}

impl EmailAddress {
    /// An address from its text and display name; fails exactly when
    /// `validator` refuses the text.
    pub fn new(email: String, name: Option<String>) -> (r: Result<EmailAddress, String>)
        ensures
            r is Ok <==> validator_accepts_email(email@),
            !email_shape(email@) ==> r is Err,
            match r {
                Ok(a) => a.email@ == email@ && a.name == name,
                Err(m) => m@ == email@ + " is not a valid email."@,
            },
    {
        match ValidEmail::parse(email) {
            Ok(e) => Ok(EmailAddress { email: e, name }),
            Err(m) => Err(m),
        }
    }
}

/// An e-mail message as the sending API takes it.
#[derive(Clone, Debug, PartialEq, Eq)]
pub struct Message {
    pub from: EmailAddress,
    pub to: Vec<EmailAddress>,
    pub cc: Vec<EmailAddress>,
    pub bcc: Vec<EmailAddress>,
    pub reply_to: Option<EmailAddress>,
    pub attachments: Vec<Attachment>,
    pub headers: StringMap,
    pub custom_variables: StringMap,
    pub subject: String,
    pub body: Body,
    pub category: Option<String>,
}

} // verus!
