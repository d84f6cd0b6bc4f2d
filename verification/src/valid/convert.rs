//! Turning raw fields into validated ones.
//!
//! A raw aggregate becomes a valid one field by field, in the order in which
//! the fields are declared. The first field that fails its rule ends the
//! conversion with that field's reason; nothing is collected and no partial
//! aggregate is handed out. A field that is only carried over changes its
//! type and cannot fail.

use vstd::prelude::*;
use super::ValidationError;
use super::fields::Description;
use super::ids::Id;
use super::rules::{byte_len, escaped, is_plain};

verus! {

/// A value that can only be made of a raw text that passes a rule.
pub trait Validate: Sized {
    /// The rule.
    spec fn accepts(raw: Seq<char>) -> bool;

    /// The reason given for every text that fails the rule.
    spec fn reason() -> ValidationError;

    /// What is kept of a text that passed.
    spec fn kept(raw: Seq<char>) -> Seq<char>;

    /// The text that a value holds.
    spec fn text(&self) -> Seq<char>;

    /// Makes a value of `raw` where it passes the rule, and gives the
    /// type's own reason where it does not.
    fn validate(raw: String) -> (made: Result<Self, ValidationError>)
        ensures
            match made {
                Ok(value) => Self::accepts(raw@) && value.text() == Self::kept(raw@),
                Err(reason) => !Self::accepts(raw@) && reason == Self::reason(),
            },
    ;

    /// The text as it is written on the wire: escaped for HTML.
    fn wire(&self) -> (text: String)
        ensures
            text@ == escaped(self.text()),
    ;

    /// The text of a value, if it holds no special character, passes the
    /// rule in the form in which it is written on the wire, and is kept as
    /// it was.
    proof fn lemma_written_and_read(text: Seq<char>)
        requires
            exists|raw: Seq<char>| Self::accepts(raw) && text == #[trigger] Self::kept(raw),
            is_plain(text),
        ensures
            escaped(text) == text,
            Self::accepts(escaped(text)),
            Self::kept(escaped(text)) == text,
    ;
}

/// Whether `text` is what some raw text that passes the rule of `T` is kept
/// as: every value of `T` holds such a text.
pub open spec fn is_kept<T: Validate>(text: Seq<char>) -> bool {
    exists|raw: Seq<char>| T::accepts(raw) && text == #[trigger] T::kept(raw)
}

/// The reason for which a required field is refused, if it is.
pub open spec fn failure<T: Validate>(raw: Seq<char>) -> Option<ValidationError> {
    if T::accepts(raw) {
        None
    } else {
        Some(T::reason())
    }
}

/// The reason for which an optional field is refused, if it is: an absent
/// field is never refused.
pub open spec fn optional_failure<T: Validate>(raw: Option<&str>) -> Option<ValidationError> {
    match raw {
        None => None,
        Some(text) => failure::<T>(text@),
    }
}

/// The reason for which a description is refused under the stricter rule,
/// if it is.
pub open spec fn description_failure(raw: Seq<char>) -> Option<ValidationError> {
    if Description::strict_rule(raw) {
        None
    } else {
        Some(ValidationError::InvalidDescription)
    }
}

/// The reason for which an optional description is refused under the
/// stricter rule, if it is.
pub open spec fn optional_description_failure(raw: Option<&str>) -> Option<ValidationError> {
    match raw {
        None => None,
        Some(text) => description_failure(text@),
    }
}

/// The failure of two fields, or groups of fields, taken in order: that of
/// the earlier one wherever it fails, whatever the later one does.
pub open spec fn first_failure(
    earlier: Option<ValidationError>,
    later: Option<ValidationError>,
) -> Option<ValidationError> {
    if earlier is Some {
        earlier
    } else {
        later
    }
}

/// Whether `value` is what the raw text `raw` is kept as.
pub open spec fn keeps<T: Validate>(value: T, raw: &str) -> bool {
    value.text() == T::kept(raw@)
}

/// Whether `value` is what the optional raw text `raw` is kept as: absent
/// for absent, and the kept text for a text.
pub open spec fn keeps_optional<T: Validate>(value: Option<T>, raw: Option<&str>) -> bool {
    match (value, raw) {
        (Some(v), Some(text)) => v.text() == T::kept(text@),
        (None, None) => true,
        _ => false,
    }
}

/// Whether `id` is the id of the optional number `raw`.
pub open spec fn same_id<T: Id<I = u32>>(id: Option<T>, raw: Option<u32>) -> bool {
    match (id, raw) {
        (Some(i), Some(n)) => i.number() == n,
        (None, None) => true,
        _ => false,
    }
}

/// Whether `value` is the optional raw text `raw`, unchanged.
pub open spec fn same_text(value: Option<String>, raw: Option<&str>) -> bool {
    match (value, raw) {
        (Some(v), Some(text)) => v@ == text@,
        (None, None) => true,
        _ => false,
    }
}

/// Converts a required field.
pub fn required<T: Validate>(raw: &str) -> (made: Result<T, ValidationError>)
    ensures
        match made {
            Ok(value) => failure::<T>(raw@) is None && keeps(value, raw),
            Err(reason) => failure::<T>(raw@) == Some(reason),
        },
{
    T::validate(raw.to_owned())
}

/// Converts an optional field: an absent one is passed on as absent and the
/// rule is not consulted; one that is present is held to the rule like a
/// required field.
pub fn optional<T: Validate>(raw: Option<&str>) -> (made: Result<Option<T>, ValidationError>)
    ensures
        raw is None ==> made == Ok::<Option<T>, ValidationError>(None),
        match made {
            Ok(value) => optional_failure::<T>(raw) is None && keeps_optional(value, raw),
            Err(reason) => optional_failure::<T>(raw) == Some(reason),
        },
{
    match raw {
        None => Ok(None),
        Some(text) => match T::validate(text.to_owned()) {
            Ok(value) => Ok(Some(value)),
            Err(reason) => Err(reason),
        },
    }
}

/// Converts a required description under the stricter rule.
pub fn required_description(raw: &str) -> (made: Result<Description, ValidationError>)
    ensures
        match made {
            Ok(value) => description_failure(raw@) is None && keeps(value, raw),
            Err(reason) => description_failure(raw@) == Some(reason),
        },
{
    Description::try_from_non_empty(raw.to_owned())
}

/// Converts an optional description under the stricter rule: an absent one
/// is passed on as absent.
pub fn optional_description(raw: Option<&str>) -> (made: Result<
    Option<Description>,
    ValidationError,
>)
    ensures
        raw is None ==> made == Ok::<Option<Description>, ValidationError>(None),
        match made {
            Ok(value) => optional_description_failure(raw) is None && keeps_optional(value, raw),
            Err(reason) => optional_description_failure(raw) == Some(reason),
        },
{
    match raw {
        None => Ok(None),
        Some(text) => match Description::try_from_non_empty(text.to_owned()) {
            Ok(value) => Ok(Some(value)),
            Err(reason) => Err(reason),
        },
    }
}

/// A valid aggregate that is made of a raw aggregate, field by field.
pub trait FromRaw<Raw>: Sized {
    /// The reason for which `raw` is refused, if it is: that of the first
    /// field, in the order of declaration, that fails its rule.
    spec fn refusal(raw: Raw) -> Option<ValidationError>;

    /// Whether every field of `self` is what the same field of `raw` is
    /// kept as.
    spec fn made_of(&self, raw: Raw) -> bool;

    /// Converts `raw`: to the valid aggregate where no field is refused,
    /// and else to the reason of the first field that is.
    fn from_raw(raw: Raw) -> (made: Result<Self, ValidationError>)
        ensures
            match made {
                Ok(value) => Self::refusal(raw) is None && value.made_of(raw),
                Err(reason) => Self::refusal(raw) == Some(reason),
            },
    ;
}

/// The reason for which a list of raw aggregates is refused, if it is: that
/// of the first aggregate in the list that is refused.
pub open spec fn refusal_of_all<Raw, T: FromRaw<Raw>>(raws: Seq<Raw>) -> Option<ValidationError>
    decreases raws.len(),
{
    if raws.len() == 0 {
        None
    } else {
        first_failure(T::refusal(raws[0]), refusal_of_all::<Raw, T>(raws.drop_first()))
    }
}

/// Whether each of `values` is made of the raw aggregate at its place.
pub open spec fn all_made_of<Raw, T: FromRaw<Raw>>(values: Seq<T>, raws: Seq<Raw>) -> bool {
    &&& values.len() == raws.len()
    &&& forall|i: int| 0 <= i < raws.len() ==> (#[trigger] values[i]).made_of(raws[i])
}

/// A list none of whose aggregates is refused is not refused.
pub proof fn lemma_none_refused<Raw, T: FromRaw<Raw>>(raws: Seq<Raw>)
    requires
        forall|i: int| 0 <= i < raws.len() ==> T::refusal(#[trigger] raws[i]) is None,
    ensures
        refusal_of_all::<Raw, T>(raws) is None,
    decreases raws.len(),
{
    if raws.len() > 0 {
        let rest = raws.drop_first();
        assert forall|i: int| 0 <= i < rest.len() implies T::refusal(
            #[trigger] rest[i],
        ) is None by {
            assert(rest[i] == raws[i + 1]);
        }
        lemma_none_refused::<Raw, T>(rest);
    }
}

/// A list is refused for the reason of the first of its aggregates that is
/// refused.
pub proof fn lemma_first_refused<Raw, T: FromRaw<Raw>>(
    raws: Seq<Raw>,
    at: int,
    reason: ValidationError,
)
    requires
        0 <= at < raws.len(),
        T::refusal(raws[at]) == Some(reason),
        forall|j: int| 0 <= j < at ==> T::refusal(#[trigger] raws[j]) is None,
    ensures
        refusal_of_all::<Raw, T>(raws) == Some(reason),
    decreases raws.len(),
{
    if at > 0 {
        let rest = raws.drop_first();
        assert(T::refusal(raws[0]) is None);
        assert(rest[at - 1] == raws[at]);
        assert forall|j: int| 0 <= j < at - 1 implies T::refusal(#[trigger] rest[j]) is None by {
            assert(rest[j] == raws[j + 1]);
        }
        lemma_first_refused::<Raw, T>(rest, at - 1, reason);
    }
}

/// Converts a list of raw aggregates, in order. The first one that is
/// refused ends the conversion with its reason.
pub fn convert_all<Raw: Copy, T: FromRaw<Raw>>(raws: &Vec<Raw>) -> (made: Result<
    Vec<T>,
    ValidationError,
>)
    ensures
        match made {
            Ok(values) => refusal_of_all::<Raw, T>(raws@) is None && all_made_of(values@, raws@),
            Err(reason) => refusal_of_all::<Raw, T>(raws@) == Some(reason),
        },
{
    let mut values: Vec<T> = Vec::new();
    let mut at: usize = 0;
    while at < raws.len()
        invariant
            at <= raws.len(),
            values.len() == at,
            forall|i: int| 0 <= i < at ==> T::refusal(#[trigger] raws[i]) is None,
            forall|i: int| 0 <= i < at ==> (#[trigger] values[i]).made_of(raws[i]),
        decreases raws.len() - at,
    {
        let raw = raws[at];
        match T::from_raw(raw) {
            Ok(value) => {
                let ghost before = values@;
                values.push(value);
                assert forall|i: int| 0 <= i < at + 1 implies (#[trigger] values[i]).made_of(
                    raws[i],
                ) by {
                    if i < at {
                        assert(values[i] == before[i]);
                    }
                }
            },
            Err(reason) => {
                proof {
                    lemma_first_refused::<Raw, T>(raws@, at as int, reason);
                }
                return Err(reason);
            },
        }
        at = at + 1;
    }
    proof {
        lemma_none_refused::<Raw, T>(raws@);
    }
    Ok(values)
}

/// Of two fields taken in order, the reason that comes out is the earlier
/// field's wherever that one fails, and the later field's only where the
/// earlier one passes.
pub proof fn lemma_first_failure_order(
    earlier: Option<ValidationError>,
    later: Option<ValidationError>,
)
    ensures
        earlier is Some ==> first_failure(earlier, later) == earlier,
        earlier is None ==> first_failure(earlier, later) == later,
        first_failure(earlier, later) is None <==> earlier is None && later is None,
{
}

/// An absent optional field is never a reason to refuse an aggregate, and
/// only an absent value is what it is kept as.
pub proof fn lemma_absent_stays_absent<T: Validate>(value: Option<T>)
    ensures
        optional_failure::<T>(None) is None,
        optional_description_failure(None) is None,
        keeps_optional(value, None) <==> value is None,
{
}

/// Whether `raw` is the text that `value` is written as on the wire.
pub open spec fn written<T: Validate>(value: T, raw: &str) -> bool {
    raw@ == escaped(value.text())
}

/// Whether `raw` is what the optional `value` is written as on the wire:
/// nothing for an absent value.
pub open spec fn written_optional<T: Validate>(value: Option<T>, raw: Option<&str>) -> bool {
    match (value, raw) {
        (Some(v), Some(text)) => text@ == escaped(v.text()),
        (None, None) => true,
        _ => false,
    }
}

/// Whether the optional `value`, if it is there, holds a text that passed
/// the rule of `T`.
pub open spec fn kept_optional<T: Validate>(value: Option<T>) -> bool {
    match value {
        Some(v) => is_kept::<T>(v.text()),
        None => true,
    }
}

/// Whether the optional `value`, if it is there, holds no special character.
pub open spec fn plain_optional<T: Validate>(value: Option<T>) -> bool {
    match value {
        Some(v) => is_plain(v.text()),
        None => true,
    }
}

/// Whether the optional `value`, if it is there, holds some text.
pub open spec fn non_empty_optional<T: Validate>(value: Option<T>) -> bool {
    match value {
        Some(v) => byte_len(v.text()) > 0,
        None => true,
    }
}

/// Whether two values hold the same text.
pub open spec fn same<T: Validate>(one: T, other: T) -> bool {
    one.text() == other.text()
}

/// Whether two optional values are both absent, or hold the same text.
pub open spec fn same_optional<T: Validate>(one: Option<T>, other: Option<T>) -> bool {
    match (one, other) {
        (Some(a), Some(b)) => a.text() == b.text(),
        (None, None) => true,
        _ => false,
    }
}

/// Whether two optional ids are both absent, or the same id.
pub open spec fn same_optional_id<T: Id<I = u32>>(one: Option<T>, other: Option<T>) -> bool {
    match (one, other) {
        (Some(a), Some(b)) => a.number() == b.number(),
        (None, None) => true,
        _ => false,
    }
}

/// Whether two optional texts are both absent, or the same text.
pub open spec fn same_optional_text(one: Option<String>, other: Option<String>) -> bool {
    match (one, other) {
        (Some(a), Some(b)) => a@ == b@,
        (None, None) => true,
        _ => false,
    }
}

/// A required field without special characters that is written on the wire
/// and converted again is not refused, and comes out with the same text.
pub proof fn lemma_required_round_trip<T: Validate>(value: T, raw: &str, again: T)
    requires
        is_kept::<T>(value.text()),
        is_plain(value.text()),
        written(value, raw),
        keeps(again, raw),
    ensures
        failure::<T>(raw@) is None,
        same(again, value),
{
    T::lemma_written_and_read(value.text());
}

/// An optional field without special characters that is written on the wire
/// and converted again is not refused, and comes out absent if it was
/// absent and with the same text if it was there.
pub proof fn lemma_optional_round_trip<T: Validate>(
    value: Option<T>,
    raw: Option<&str>,
    again: Option<T>,
)
    requires
        kept_optional(value),
        plain_optional(value),
        written_optional(value, raw),
        keeps_optional(again, raw),
    ensures
        optional_failure::<T>(raw) is None,
        same_optional(again, value),
{
    if let Some(v) = value {
        T::lemma_written_and_read(v.text());
    }
}

/// A description that is not empty and holds no special character is not
/// refused under the stricter rule when it is written on the wire and
/// converted again, and comes out with the same text.
pub proof fn lemma_description_round_trip(value: Description, raw: &str, again: Description)
    requires
        is_kept::<Description>(value.text()),
        is_plain(value.text()),
        byte_len(value.text()) > 0,
        written(value, raw),
        keeps(again, raw),
    ensures
        description_failure(raw@) is None,
        same(again, value),
{
    Description::lemma_written_and_read(value.text());
}

/// The same for an optional description.
pub proof fn lemma_optional_description_round_trip(
    value: Option<Description>,
    raw: Option<&str>,
    again: Option<Description>,
)
    requires
        kept_optional(value),
        plain_optional(value),
        non_empty_optional(value),
        written_optional(value, raw),
        keeps_optional(again, raw),
    ensures
        optional_description_failure(raw) is None,
        same_optional(again, value),
{
    if let Some(v) = value {
        Description::lemma_written_and_read(v.text());
    }
}

} // verus!
