//! Validated datafields
//!
//! Each type wraps text that has passed one rule. `try_from` is the only way
//! to make a value, so a value in hand has passed its rule.

use vstd::prelude::*;
use super::ValidationError;
use super::convert::Validate;
use super::rules::{
    any_lower, any_numeric, any_upper, byte_len, escape_minimal, escaped, has_lower, has_numeric,
    has_upper, is_plain, lemma_escaped_plain, lemma_plain_escaped, length, pattern_match,
    pattern_matches, EMAIL_REGEX, PASSWORD_REGEX, SEARCH_QUERY_REGEX, USERNAME_REGEX,
};

verus! {

/// A valid (well formatted) username
#[derive(PartialOrd, Eq, Ord, Debug)]
pub struct Username(String);

impl View for Username {
    type V = Seq<char>;

    closed spec fn view(&self) -> Seq<char> {
        self.0@
    }
}

impl Username {
    /// The rule of a username: the text matches `USERNAME_REGEX`.
    pub open spec fn rule(raw: Seq<char>) -> bool {
        pattern_match(USERNAME_REGEX@, raw) == Some(true)
    }

    /// What is kept of a raw text that passed: the text itself.
    pub open spec fn stored(raw: Seq<char>) -> Seq<char> {
        raw
    }

    /// Whether `text` is what some raw text that passed the rule is kept as.
    pub open spec fn holds(text: Seq<char>) -> bool {
        exists|raw: Seq<char>| Self::rule(raw) && text == #[trigger] Self::stored(raw)
    }

    #[verifier::type_invariant]
    closed spec fn well_formed(self) -> bool {
        Self::holds(self.0@)
    }

    /// Makes a username of `s` if `s` passes the rule; the text is kept as
    /// it is.
    pub fn try_from(s: String) -> (made: Result<Self, ValidationError>)
        ensures
            match made {
                Ok(value) => Self::rule(s@) && value@ == Self::stored(s@),
                Err(reason) => !Self::rule(s@) && reason == ValidationError::InvalidUsername,
            },
    {
        let matched = pattern_matches(USERNAME_REGEX, s.as_str());
        if Self::passes(matched) {
            assert(Self::stored(s@) == s@);
            Ok(Username(s))
        } else {
            Err(ValidationError::InvalidUsername)
        }
    }

    /// Decides from the outcome of matching `USERNAME_REGEX` against a text
    /// whether the text makes a username: only a match does, and a pattern that
    /// could not be used matches nothing.
    pub fn passes(matched: Option<bool>) -> (pass: bool)
        ensures
            pass == (matched == Some(true)),
    {
        match matched {
            Some(found) => found,
            None => false,
        }
    }

    /// The text, which is that of a raw text that passed the rule.
    pub fn as_ref(&self) -> (text: &str)
        ensures
            text@ == self@,
            Self::holds(self@),
    {
        proof {
            use_type_invariant(self);
        }
        self.0.as_str()
    }

    /// The text as it is written on the wire: escaped for HTML, whatever
    /// was done to it when the value was made.
    pub fn to_wire(&self) -> (text: String)
        ensures
            text@ == escaped(self@),
    {
        escape_minimal(self.0.as_str())
    }

    /// A value without special characters that is written on the wire and
    /// read back comes out as the same value: what is written passes the
    /// rule, and what is kept of it is the text that was written.
    pub proof fn lemma_round_trip(text: Seq<char>)
        requires
            Self::holds(text),
            is_plain(text),
        ensures
            escaped(text) == text,
            Self::rule(escaped(text)),
            Self::stored(escaped(text)) == text,
    {
        let raw = choose|raw: Seq<char>| Self::rule(raw) && text == #[trigger] Self::stored(raw);
        assert(text == raw);
        lemma_escaped_plain(text);
    }

    /// Unwraps the text.
    pub fn into_inner(self) -> (text: String)
        ensures
            text@ == self@,
            Self::holds(self@),
    {
        proof {
            use_type_invariant(&self);
        }
        self.0
    }

    /// The text, as it is shown to a user.
    pub fn to_string(&self) -> (text: String)
        ensures
            text@ == self@,
    {
        self.0.clone()
    }
}

impl PartialEq for Username {
    fn eq(&self, other: &Self) -> (same: bool) {
        self.0 == other.0
    }
}

impl vstd::std_specs::cmp::PartialEqSpecImpl for Username {
    open spec fn obeys_eq_spec() -> bool {
        true
    }

    open spec fn eq_spec(&self, other: &Self) -> bool {
        self@ == other@
    }
}

impl Clone for Username {
    fn clone(&self) -> (copy: Self)
        ensures
            copy@ == self@,
    {
        proof {
            use_type_invariant(self);
        }
        Username(self.0.clone())
    }
}

impl Validate for Username {
    open spec fn accepts(raw: Seq<char>) -> bool {
        Self::rule(raw)
    }

    open spec fn reason() -> ValidationError {
        ValidationError::InvalidUsername
    }

    open spec fn kept(raw: Seq<char>) -> Seq<char> {
        Self::stored(raw)
    }

    open spec fn text(&self) -> Seq<char> {
        self@
    }

    fn validate(raw: String) -> (made: Result<Self, ValidationError>) {
        Self::try_from(raw)
    }

    fn wire(&self) -> (text: String) {
        self.to_wire()
    }

    proof fn lemma_written_and_read(text: Seq<char>) {
        Self::lemma_round_trip(text);
    }
}

/// A valid (well formatted) plaintext password
///
/// NB This type does not implement `Debug` for the simple reason that a
/// plaintext passwords should **never** be printed.
#[derive(PartialOrd, Eq, Ord)]
pub struct PlainPassword(String);

impl View for PlainPassword {
    type V = Seq<char>;

    closed spec fn view(&self) -> Seq<char> {
        self.0@
    }
}

impl PlainPassword {
    /// The rule of a password: the text matches `PASSWORD_REGEX` and holds a
    /// lowercase ASCII letter, an uppercase ASCII letter and a numeric
    /// character.
    pub open spec fn rule(raw: Seq<char>) -> bool {
        &&& pattern_match(PASSWORD_REGEX@, raw) == Some(true)
        &&& has_lower(raw)
        &&& has_upper(raw)
        &&& has_numeric(raw)
    }

    /// What is kept of a raw text that passed: the text itself.
    pub open spec fn stored(raw: Seq<char>) -> Seq<char> {
        raw
    }

    /// Whether `text` is what some raw text that passed the rule is kept as.
    pub open spec fn holds(text: Seq<char>) -> bool {
        exists|raw: Seq<char>| Self::rule(raw) && text == #[trigger] Self::stored(raw)
    }

    #[verifier::type_invariant]
    closed spec fn well_formed(self) -> bool {
        Self::holds(self.0@)
    }

    /// Makes a password of `s` if `s` passes the rule; the text is kept as
    /// it is.
    pub fn try_from(s: String) -> (made: Result<Self, ValidationError>)
        ensures
            match made {
                Ok(value) => Self::rule(s@) && value@ == Self::stored(s@),
                Err(reason) => !Self::rule(s@) && reason == ValidationError::InvalidPassword,
            },
    {
        let matched = pattern_matches(PASSWORD_REGEX, s.as_str());
        let lower = any_lower(s.as_str());
        let upper = any_upper(s.as_str());
        let numeric = any_numeric(s.as_str());
        if Self::passes(matched, lower, upper, numeric) {
            assert(Self::stored(s@) == s@);
            Ok(PlainPassword(s))
        } else {
            Err(ValidationError::InvalidPassword)
        }
    }

    /// Decides from what was found in a text whether it makes a password:
    /// `PASSWORD_REGEX` has to match it (a pattern that could not be used
    /// matches nothing), and it has to hold a lowercase letter, an uppercase
    /// letter and a numeric character.
    pub fn passes(matched: Option<bool>, lower: bool, upper: bool, numeric: bool) -> (pass: bool)
        ensures
            pass == (matched == Some(true) && lower && upper && numeric),
    {
        let found = match matched {
            Some(found) => found,
            None => false,
        };
        found && lower && upper && numeric
    }

    /// The text, which is that of a raw text that passed the rule.
    pub fn as_ref(&self) -> (text: &str)
        ensures
            text@ == self@,
            Self::holds(self@),
    {
        proof {
            use_type_invariant(self);
        }
        self.0.as_str()
    }

    /// The text as it is written on the wire: escaped for HTML, whatever
    /// was done to it when the value was made.
    pub fn to_wire(&self) -> (text: String)
        ensures
            text@ == escaped(self@),
    {
        escape_minimal(self.0.as_str())
    }

    /// A value without special characters that is written on the wire and
    /// read back comes out as the same value: what is written passes the
    /// rule, and what is kept of it is the text that was written.
    pub proof fn lemma_round_trip(text: Seq<char>)
        requires
            Self::holds(text),
            is_plain(text),
        ensures
            escaped(text) == text,
            Self::rule(escaped(text)),
            Self::stored(escaped(text)) == text,
    {
        let raw = choose|raw: Seq<char>| Self::rule(raw) && text == #[trigger] Self::stored(raw);
        assert(text == raw);
        lemma_escaped_plain(text);
    }

    /// Unwraps the text.
    pub fn into_inner(self) -> (text: String)
        ensures
            text@ == self@,
            Self::holds(self@),
    {
        proof {
            use_type_invariant(&self);
        }
        self.0
    }
}

impl PartialEq for PlainPassword {
    fn eq(&self, other: &Self) -> (same: bool) {
        self.0 == other.0
    }
}

impl vstd::std_specs::cmp::PartialEqSpecImpl for PlainPassword {
    open spec fn obeys_eq_spec() -> bool {
        true
    }

    open spec fn eq_spec(&self, other: &Self) -> bool {
        self@ == other@
    }
}

impl Clone for PlainPassword {
    fn clone(&self) -> (copy: Self)
        ensures
            copy@ == self@,
    {
        proof {
            use_type_invariant(self);
        }
        PlainPassword(self.0.clone())
    }
}

impl Validate for PlainPassword {
    open spec fn accepts(raw: Seq<char>) -> bool {
        Self::rule(raw)
    }

    open spec fn reason() -> ValidationError {
        ValidationError::InvalidPassword
    }

    open spec fn kept(raw: Seq<char>) -> Seq<char> {
        Self::stored(raw)
    }

    open spec fn text(&self) -> Seq<char> {
        self@
    }

    fn validate(raw: String) -> (made: Result<Self, ValidationError>) {
        Self::try_from(raw)
    }

    fn wire(&self) -> (text: String) {
        self.to_wire()
    }

    proof fn lemma_written_and_read(text: Seq<char>) {
        Self::lemma_round_trip(text);
    }
}

/// A valid (well formatted) title
#[derive(PartialOrd, Eq, Ord, Debug)]
pub struct Title(String);

impl View for Title {
    type V = Seq<char>;

    closed spec fn view(&self) -> Seq<char> {
        self.0@
    }
}

impl Title {
    /// The rule of a title: more than 4 and less than 80 bytes of text.
    pub open spec fn rule(raw: Seq<char>) -> bool {
        4 < byte_len(raw) < 80
    }

    /// What is kept of a raw text that passed: the text with its HTML
    /// special characters escaped.
    pub open spec fn stored(raw: Seq<char>) -> Seq<char> {
        escaped(raw)
    }

    /// Whether `text` is what some raw text that passed the rule is kept as.
    pub open spec fn holds(text: Seq<char>) -> bool {
        exists|raw: Seq<char>| Self::rule(raw) && text == #[trigger] Self::stored(raw)
    }

    #[verifier::type_invariant]
    closed spec fn well_formed(self) -> bool {
        Self::holds(self.0@)
    }

    /// Makes a title of `s` if `s` passes the rule; it keeps the text
    /// escaped, and escapes once only.
    pub fn try_from(s: String) -> (made: Result<Self, ValidationError>)
        ensures
            match made {
                Ok(value) => Self::rule(s@) && value@ == Self::stored(s@),
                Err(reason) => !Self::rule(s@) && reason == ValidationError::InvalidTitle,
            },
    {
        let n = length(s.as_str());
        if 4 < n && n < 80 {
            let text = escape_minimal(s.as_str());
            assert(text@ == Self::stored(s@));
            Ok(Title(text))
        } else {
            Err(ValidationError::InvalidTitle)
        }
    }

    /// The text, which is that of a raw text that passed the rule.
    pub fn as_ref(&self) -> (text: &str)
        ensures
            text@ == self@,
            Self::holds(self@),
    {
        proof {
            use_type_invariant(self);
        }
        self.0.as_str()
    }

    /// The text as it is written on the wire: escaped for HTML, whatever
    /// was done to it when the value was made.
    pub fn to_wire(&self) -> (text: String)
        ensures
            text@ == escaped(self@),
    {
        escape_minimal(self.0.as_str())
    }

    /// A value without special characters that is written on the wire and
    /// read back comes out as the same value: what is written passes the
    /// rule, and what is kept of it is the text that was written.
    pub proof fn lemma_round_trip(text: Seq<char>)
        requires
            Self::holds(text),
            is_plain(text),
        ensures
            escaped(text) == text,
            Self::rule(escaped(text)),
            Self::stored(escaped(text)) == text,
    {
        let raw = choose|raw: Seq<char>| Self::rule(raw) && text == #[trigger] Self::stored(raw);
        lemma_plain_escaped(raw);
        lemma_escaped_plain(text);
    }

    /// Unwraps the text.
    pub fn into_inner(self) -> (text: String)
        ensures
            text@ == self@,
            Self::holds(self@),
    {
        proof {
            use_type_invariant(&self);
        }
        self.0
    }

    /// The text, as it is shown to a user.
    pub fn to_string(&self) -> (text: String)
        ensures
            text@ == self@,
    {
        self.0.clone()
    }
}

impl PartialEq for Title {
    fn eq(&self, other: &Self) -> (same: bool) {
        self.0 == other.0
    }
}

impl vstd::std_specs::cmp::PartialEqSpecImpl for Title {
    open spec fn obeys_eq_spec() -> bool {
        true
    }

    open spec fn eq_spec(&self, other: &Self) -> bool {
        self@ == other@
    }
}

impl Clone for Title {
    fn clone(&self) -> (copy: Self)
        ensures
            copy@ == self@,
    {
        proof {
            use_type_invariant(self);
        }
        Title(self.0.clone())
    }
}

impl Validate for Title {
    open spec fn accepts(raw: Seq<char>) -> bool {
        Self::rule(raw)
    }

    open spec fn reason() -> ValidationError {
        ValidationError::InvalidTitle
    }

    open spec fn kept(raw: Seq<char>) -> Seq<char> {
        Self::stored(raw)
    }

    open spec fn text(&self) -> Seq<char> {
        self@
    }

    fn validate(raw: String) -> (made: Result<Self, ValidationError>) {
        Self::try_from(raw)
    }

    fn wire(&self) -> (text: String) {
        self.to_wire()
    }

    proof fn lemma_written_and_read(text: Seq<char>) {
        Self::lemma_round_trip(text);
    }
}

/// A valid (well formatted) description
#[derive(PartialOrd, Eq, Ord, Debug)]
pub struct Description(String);

impl View for Description {
    type V = Seq<char>;

    closed spec fn view(&self) -> Seq<char> {
        self.0@
    }
}

impl Description {
    /// The rule of a description: less than 255 bytes of text.
    pub open spec fn rule(raw: Seq<char>) -> bool {
        byte_len(raw) < 255
    }

    /// What is kept of a raw text that passed: the text with its HTML
    /// special characters escaped.
    pub open spec fn stored(raw: Seq<char>) -> Seq<char> {
        escaped(raw)
    }

    /// Whether `text` is what some raw text that passed the rule is kept as.
    pub open spec fn holds(text: Seq<char>) -> bool {
        exists|raw: Seq<char>| Self::rule(raw) && text == #[trigger] Self::stored(raw)
    }

    #[verifier::type_invariant]
    closed spec fn well_formed(self) -> bool {
        Self::holds(self.0@)
    }

    /// Makes a description of `s` if `s` passes the rule; it keeps the text
    /// escaped, and escapes once only.
    pub fn try_from(s: String) -> (made: Result<Self, ValidationError>)
        ensures
            match made {
                Ok(value) => Self::rule(s@) && value@ == Self::stored(s@),
                Err(reason) => !Self::rule(s@) && reason == ValidationError::InvalidDescription,
            },
    {
        let n = length(s.as_str());
        if n < 255 {
            let text = escape_minimal(s.as_str());
            assert(text@ == Self::stored(s@));
            Ok(Description(text))
        } else {
            Err(ValidationError::InvalidDescription)
        }
    }

    /// The stricter rule of a description: the text is not empty either.
    pub open spec fn strict_rule(raw: Seq<char>) -> bool {
        0 < byte_len(raw) < 255
    }

    /// Makes a description of `s` if `s` passes the stricter rule, under
    /// which an empty text is no description.
    pub fn try_from_non_empty(s: String) -> (made: Result<Self, ValidationError>)
        ensures
            match made {
                Ok(value) => Self::strict_rule(s@) && value@ == Self::stored(s@),
                Err(reason) => !Self::strict_rule(s@) && reason
                    == ValidationError::InvalidDescription,
            },
    {
        let n = length(s.as_str());
        if 0 < n && n < 255 {
            let text = escape_minimal(s.as_str());
            assert(text@ == Self::stored(s@));
            Ok(Description(text))
        } else {
            Err(ValidationError::InvalidDescription)
        }
    }

    /// The text, which is that of a raw text that passed the rule.
    pub fn as_ref(&self) -> (text: &str)
        ensures
            text@ == self@,
            Self::holds(self@),
    {
        proof {
            use_type_invariant(self);
        }
        self.0.as_str()
    }

    /// The text as it is written on the wire: escaped for HTML, whatever
    /// was done to it when the value was made.
    pub fn to_wire(&self) -> (text: String)
        ensures
            text@ == escaped(self@),
    {
        escape_minimal(self.0.as_str())
    }

    /// A value without special characters that is written on the wire and
    /// read back comes out as the same value: what is written passes the
    /// rule, and what is kept of it is the text that was written.
    pub proof fn lemma_round_trip(text: Seq<char>)
        requires
            Self::holds(text),
            is_plain(text),
        ensures
            escaped(text) == text,
            Self::rule(escaped(text)),
            Self::stored(escaped(text)) == text,
    {
        let raw = choose|raw: Seq<char>| Self::rule(raw) && text == #[trigger] Self::stored(raw);
        lemma_plain_escaped(raw);
        lemma_escaped_plain(text);
    }

    /// Unwraps the text.
    pub fn into_inner(self) -> (text: String)
        ensures
            text@ == self@,
            Self::holds(self@),
    {
        proof {
            use_type_invariant(&self);
        }
        self.0
    }

    /// The text, as it is shown to a user.
    pub fn to_string(&self) -> (text: String)
        ensures
            text@ == self@,
    {
        self.0.clone()
    }
}

impl PartialEq for Description {
    fn eq(&self, other: &Self) -> (same: bool) {
        self.0 == other.0
    }
}

impl vstd::std_specs::cmp::PartialEqSpecImpl for Description {
    open spec fn obeys_eq_spec() -> bool {
        true
    }

    open spec fn eq_spec(&self, other: &Self) -> bool {
        self@ == other@
    }
}

impl Clone for Description {
    fn clone(&self) -> (copy: Self)
        ensures
            copy@ == self@,
    {
        proof {
            use_type_invariant(self);
        }
        Description(self.0.clone())
    }
}

impl Validate for Description {
    open spec fn accepts(raw: Seq<char>) -> bool {
        Self::rule(raw)
    }

    open spec fn reason() -> ValidationError {
        ValidationError::InvalidDescription
    }

    open spec fn kept(raw: Seq<char>) -> Seq<char> {
        Self::stored(raw)
    }

    open spec fn text(&self) -> Seq<char> {
        self@
    }

    fn validate(raw: String) -> (made: Result<Self, ValidationError>) {
        Self::try_from(raw)
    }

    fn wire(&self) -> (text: String) {
        self.to_wire()
    }

    proof fn lemma_written_and_read(text: Seq<char>) {
        Self::lemma_round_trip(text);
    }
}

/// A valid (well formatted) comment-content
#[derive(PartialOrd, Eq, Ord, Debug)]
pub struct CommentContent(String);

impl View for CommentContent {
    type V = Seq<char>;

    closed spec fn view(&self) -> Seq<char> {
        self.0@
    }
}

impl CommentContent {
    /// The rule of a comment: more than 4 and less than 80 bytes of text.
    pub open spec fn rule(raw: Seq<char>) -> bool {
        4 < byte_len(raw) < 80
    }

    /// What is kept of a raw text that passed: the text with its HTML
    /// special characters escaped.
    pub open spec fn stored(raw: Seq<char>) -> Seq<char> {
        escaped(raw)
    }

    /// Whether `text` is what some raw text that passed the rule is kept as.
    pub open spec fn holds(text: Seq<char>) -> bool {
        exists|raw: Seq<char>| Self::rule(raw) && text == #[trigger] Self::stored(raw)
    }

    #[verifier::type_invariant]
    closed spec fn well_formed(self) -> bool {
        Self::holds(self.0@)
    }

    /// Makes a comment of `s` if `s` passes the rule; it keeps the text
    /// escaped, and escapes once only.
    pub fn try_from(s: String) -> (made: Result<Self, ValidationError>)
        ensures
            match made {
                Ok(value) => Self::rule(s@) && value@ == Self::stored(s@),
                Err(reason) => !Self::rule(s@) && reason == ValidationError::InvalidCommentContent,
            },
    {
        let n = length(s.as_str());
        if n > 4 && n < 80 {
            let text = escape_minimal(s.as_str());
            assert(text@ == Self::stored(s@));
            Ok(CommentContent(text))
        } else {
            Err(ValidationError::InvalidCommentContent)
        }
    }

    /// The text, which is that of a raw text that passed the rule.
    pub fn as_ref(&self) -> (text: &str)
        ensures
            text@ == self@,
            Self::holds(self@),
    {
        proof {
            use_type_invariant(self);
        }
        self.0.as_str()
    }

    /// The text as it is written on the wire: escaped for HTML, whatever
    /// was done to it when the value was made.
    pub fn to_wire(&self) -> (text: String)
        ensures
            text@ == escaped(self@),
    {
        escape_minimal(self.0.as_str())
    }

    /// A value without special characters that is written on the wire and
    /// read back comes out as the same value: what is written passes the
    /// rule, and what is kept of it is the text that was written.
    pub proof fn lemma_round_trip(text: Seq<char>)
        requires
            Self::holds(text),
            is_plain(text),
        ensures
            escaped(text) == text,
            Self::rule(escaped(text)),
            Self::stored(escaped(text)) == text,
    {
        let raw = choose|raw: Seq<char>| Self::rule(raw) && text == #[trigger] Self::stored(raw);
        lemma_plain_escaped(raw);
        lemma_escaped_plain(text);
    }

    /// Unwraps the text.
    pub fn into_inner(self) -> (text: String)
        ensures
            text@ == self@,
            Self::holds(self@),
    {
        proof {
            use_type_invariant(&self);
        }
        self.0
    }

    /// The text, as it is shown to a user.
    pub fn to_string(&self) -> (text: String)
        ensures
            text@ == self@,
    {
        self.0.clone()
    }
}

impl PartialEq for CommentContent {
    fn eq(&self, other: &Self) -> (same: bool) {
        self.0 == other.0
    }
}

impl vstd::std_specs::cmp::PartialEqSpecImpl for CommentContent {
    open spec fn obeys_eq_spec() -> bool {
        true
    }

    open spec fn eq_spec(&self, other: &Self) -> bool {
        self@ == other@
    }
}

impl Clone for CommentContent {
    fn clone(&self) -> (copy: Self)
        ensures
            copy@ == self@,
    {
        proof {
            use_type_invariant(self);
        }
        CommentContent(self.0.clone())
    }
}

impl Validate for CommentContent {
    open spec fn accepts(raw: Seq<char>) -> bool {
        Self::rule(raw)
    }

    open spec fn reason() -> ValidationError {
        ValidationError::InvalidCommentContent
    }

    open spec fn kept(raw: Seq<char>) -> Seq<char> {
        Self::stored(raw)
    }

    open spec fn text(&self) -> Seq<char> {
        self@
    }

    fn validate(raw: String) -> (made: Result<Self, ValidationError>) {
        Self::try_from(raw)
    }

    fn wire(&self) -> (text: String) {
        self.to_wire()
    }

    proof fn lemma_written_and_read(text: Seq<char>) {
        Self::lemma_round_trip(text);
    }
}

/// A valid (well formatted) email
#[derive(PartialOrd, Eq, Ord, Debug)]
pub struct Email(String);

impl View for Email {
    type V = Seq<char>;

    closed spec fn view(&self) -> Seq<char> {
        self.0@
    }
}

impl Email {
    /// The rule of an email address: the text matches `EMAIL_REGEX`.
    pub open spec fn rule(raw: Seq<char>) -> bool {
        pattern_match(EMAIL_REGEX@, raw) == Some(true)
    }

    /// What is kept of a raw text that passed: the text itself.
    pub open spec fn stored(raw: Seq<char>) -> Seq<char> {
        raw
    }

    /// Whether `text` is what some raw text that passed the rule is kept as.
    pub open spec fn holds(text: Seq<char>) -> bool {
        exists|raw: Seq<char>| Self::rule(raw) && text == #[trigger] Self::stored(raw)
    }

    #[verifier::type_invariant]
    closed spec fn well_formed(self) -> bool {
        Self::holds(self.0@)
    }

    /// Makes an email address of `s` if `s` passes the rule; the text is kept as
    /// it is.
    pub fn try_from(s: String) -> (made: Result<Self, ValidationError>)
        ensures
            match made {
                Ok(value) => Self::rule(s@) && value@ == Self::stored(s@),
                Err(reason) => !Self::rule(s@) && reason == ValidationError::InvalidEmail,
            },
    {
        let matched = pattern_matches(EMAIL_REGEX, s.as_str());
        if Self::passes(matched) {
            assert(Self::stored(s@) == s@);
            Ok(Email(s))
        } else {
            Err(ValidationError::InvalidEmail)
        }
    }

    /// Decides from the outcome of matching `EMAIL_REGEX` against a text
    /// whether the text makes an email address: only a match does, and a pattern that
    /// could not be used matches nothing.
    pub fn passes(matched: Option<bool>) -> (pass: bool)
        ensures
            pass == (matched == Some(true)),
    {
        match matched {
            Some(found) => found,
            None => false,
        }
    }

    /// The text, which is that of a raw text that passed the rule.
    pub fn as_ref(&self) -> (text: &str)
        ensures
            text@ == self@,
            Self::holds(self@),
    {
        proof {
            use_type_invariant(self);
        }
        self.0.as_str()
    }

    /// The text as it is written on the wire: escaped for HTML, whatever
    /// was done to it when the value was made.
    pub fn to_wire(&self) -> (text: String)
        ensures
            text@ == escaped(self@),
    {
        escape_minimal(self.0.as_str())
    }

    /// A value without special characters that is written on the wire and
    /// read back comes out as the same value: what is written passes the
    /// rule, and what is kept of it is the text that was written.
    pub proof fn lemma_round_trip(text: Seq<char>)
        requires
            Self::holds(text),
            is_plain(text),
        ensures
            escaped(text) == text,
            Self::rule(escaped(text)),
            Self::stored(escaped(text)) == text,
    {
        let raw = choose|raw: Seq<char>| Self::rule(raw) && text == #[trigger] Self::stored(raw);
        assert(text == raw);
        lemma_escaped_plain(text);
    }

    /// Unwraps the text.
    pub fn into_inner(self) -> (text: String)
        ensures
            text@ == self@,
            Self::holds(self@),
    {
        proof {
            use_type_invariant(&self);
        }
        self.0
    }

    /// The text, as it is shown to a user.
    pub fn to_string(&self) -> (text: String)
        ensures
            text@ == self@,
    {
        self.0.clone()
    }
}

impl PartialEq for Email {
    fn eq(&self, other: &Self) -> (same: bool) {
        self.0 == other.0
    }
}

impl vstd::std_specs::cmp::PartialEqSpecImpl for Email {
    open spec fn obeys_eq_spec() -> bool {
        true
    }

    open spec fn eq_spec(&self, other: &Self) -> bool {
        self@ == other@
    }
}

impl Clone for Email {
    fn clone(&self) -> (copy: Self)
        ensures
            copy@ == self@,
    {
        proof {
            use_type_invariant(self);
        }
        Email(self.0.clone())
    }
}

impl Validate for Email {
    open spec fn accepts(raw: Seq<char>) -> bool {
        Self::rule(raw)
    }

    open spec fn reason() -> ValidationError {
        ValidationError::InvalidEmail
    }

    open spec fn kept(raw: Seq<char>) -> Seq<char> {
        Self::stored(raw)
    }

    open spec fn text(&self) -> Seq<char> {
        self@
    }

    fn validate(raw: String) -> (made: Result<Self, ValidationError>) {
        Self::try_from(raw)
    }

    fn wire(&self) -> (text: String) {
        self.to_wire()
    }

    proof fn lemma_written_and_read(text: Seq<char>) {
        Self::lemma_round_trip(text);
    }
}

/// A valid (well formatted) search query string
#[derive(PartialOrd, Eq, Ord, Debug)]
pub struct QueryStr(String);

impl View for QueryStr {
    type V = Seq<char>;

    closed spec fn view(&self) -> Seq<char> {
        self.0@
    }
}

impl QueryStr {
    /// The rule of a search query: the text matches `SEARCH_QUERY_REGEX`.
    pub open spec fn rule(raw: Seq<char>) -> bool {
        pattern_match(SEARCH_QUERY_REGEX@, raw) == Some(true)
    }

    /// What is kept of a raw text that passed: the text itself.
    pub open spec fn stored(raw: Seq<char>) -> Seq<char> {
        raw
    }

    /// Whether `text` is what some raw text that passed the rule is kept as.
    pub open spec fn holds(text: Seq<char>) -> bool {
        exists|raw: Seq<char>| Self::rule(raw) && text == #[trigger] Self::stored(raw)
    }

    #[verifier::type_invariant]
    closed spec fn well_formed(self) -> bool {
        Self::holds(self.0@)
    }

    /// Makes a search query of `s` if `s` passes the rule; the text is kept as
    /// it is.
    pub fn try_from(s: String) -> (made: Result<Self, ValidationError>)
        ensures
            match made {
                Ok(value) => Self::rule(s@) && value@ == Self::stored(s@),
                Err(reason) => !Self::rule(s@) && reason == ValidationError::InvalidQuery,
            },
    {
        let matched = pattern_matches(SEARCH_QUERY_REGEX, s.as_str());
        if Self::passes(matched) {
            assert(Self::stored(s@) == s@);
            Ok(QueryStr(s))
        } else {
            Err(ValidationError::InvalidQuery)
        }
    }

    /// Decides from the outcome of matching `SEARCH_QUERY_REGEX` against a text
    /// whether the text makes a search query: only a match does, and a pattern that
    /// could not be used matches nothing.
    pub fn passes(matched: Option<bool>) -> (pass: bool)
        ensures
            pass == (matched == Some(true)),
    {
        match matched {
            Some(found) => found,
            None => false,
        }
    }

    /// Makes a search query of a form value after URL decoding: `None`
    /// stands for a value that could not be decoded, and is read as the
    /// empty text.
    pub fn from_form_value(decoded: Option<String>) -> (made: Result<Self, ValidationError>)
        ensures
            match made {
                Ok(value) => Self::rule(Self::form_text(decoded)) && value@ == Self::form_text(
                    decoded,
                ),
                Err(reason) => !Self::rule(Self::form_text(decoded)) && reason
                    == ValidationError::InvalidQuery,
            },
    {
        let s = match decoded {
            Some(text) => text,
            None => String::new(),
        };
        Self::try_from(s)
    }

    /// The text that a decoded form value stands for.
    pub open spec fn form_text(decoded: Option<String>) -> Seq<char> {
        match decoded {
            Some(text) => text@,
            None => Seq::empty(),
        }
    }

    /// The text, which is that of a raw text that passed the rule.
    pub fn as_ref(&self) -> (text: &str)
        ensures
            text@ == self@,
            Self::holds(self@),
    {
        proof {
            use_type_invariant(self);
        }
        self.0.as_str()
    }

    /// The text as it is written on the wire: escaped for HTML, whatever
    /// was done to it when the value was made.
    pub fn to_wire(&self) -> (text: String)
        ensures
            text@ == escaped(self@),
    {
        escape_minimal(self.0.as_str())
    }

    /// A value without special characters that is written on the wire and
    /// read back comes out as the same value: what is written passes the
    /// rule, and what is kept of it is the text that was written.
    pub proof fn lemma_round_trip(text: Seq<char>)
        requires
            Self::holds(text),
            is_plain(text),
        ensures
            escaped(text) == text,
            Self::rule(escaped(text)),
            Self::stored(escaped(text)) == text,
    {
        let raw = choose|raw: Seq<char>| Self::rule(raw) && text == #[trigger] Self::stored(raw);
        assert(text == raw);
        lemma_escaped_plain(text);
    }

    /// Unwraps the text.
    pub fn into_inner(self) -> (text: String)
        ensures
            text@ == self@,
            Self::holds(self@),
    {
        proof {
            use_type_invariant(&self);
        }
        self.0
    }

    /// The text, as it is shown to a user.
    pub fn to_string(&self) -> (text: String)
        ensures
            text@ == self@,
    {
        self.0.clone()
    }
}

impl PartialEq for QueryStr {
    fn eq(&self, other: &Self) -> (same: bool) {
        self.0 == other.0
    }
}

impl vstd::std_specs::cmp::PartialEqSpecImpl for QueryStr {
    open spec fn obeys_eq_spec() -> bool {
        true
    }

    open spec fn eq_spec(&self, other: &Self) -> bool {
        self@ == other@
    }
}

impl Clone for QueryStr {
    fn clone(&self) -> (copy: Self)
        ensures
            copy@ == self@,
    {
        proof {
            use_type_invariant(self);
        }
        QueryStr(self.0.clone())
    }
}

impl Validate for QueryStr {
    open spec fn accepts(raw: Seq<char>) -> bool {
        Self::rule(raw)
    }

    open spec fn reason() -> ValidationError {
        ValidationError::InvalidQuery
    }

    open spec fn kept(raw: Seq<char>) -> Seq<char> {
        Self::stored(raw)
    }

    open spec fn text(&self) -> Seq<char> {
        self@
    }

    fn validate(raw: String) -> (made: Result<Self, ValidationError>) {
        Self::try_from(raw)
    }

    fn wire(&self) -> (text: String) {
        self.to_wire()
    }

    proof fn lemma_written_and_read(text: Seq<char>) {
        Self::lemma_round_trip(text);
    }
}

} // verus!
