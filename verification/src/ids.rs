//! Identifiers shared by the controller modules.

use vstd::prelude::*;

verus! {

/// Stable identifier for a transport connection.
#[derive(Clone, Copy, Debug, PartialEq, Eq, Hash, Structural)]
pub struct ConnectionId(pub u64);

/// The lowercase hex digit of `d`, which is below 16.
pub open spec fn lower_hex_digit(d: nat) -> char {
    if d < 10 {
        (d + 48) as char
    } else {
        (d + 87) as char
    }
}

/// The last `count` hex digits of `value`, most significant first.
pub open spec fn hex_digits(value: nat, count: nat) -> Seq<char>
    decreases count,
{
    if count == 0 {
        Seq::empty()
    } else {
        hex_digits(value / 16, (count - 1) as nat).push(lower_hex_digit(value % 16))
    }
}

/// The canonical text of a UUID value, as the `uuid` crate renders it: its
/// 32 lowercase hex digits in groups of 8, 4, 4, 4 and 12, joined by
/// hyphens.
pub open spec fn spec_uuid_text(value: u128) -> Seq<char> {
    let d = hex_digits(value as nat, 32);
    d.subrange(0, 8) + seq!['-'] + d.subrange(8, 12) + seq!['-'] + d.subrange(12, 16) + seq!['-']
        + d.subrange(16, 20) + seq!['-'] + d.subrange(20, 32)
}

/// What the `uuid` crate's parser yields for a text.
pub uninterp spec fn spec_uuid_parse(text: Seq<char>) -> Option<u128>;

/// Renders `value` with `uuid::Uuid::from_u128(..).to_string()`.
/// Trusted: the result is the crate's `Display` form, the lowercase
/// hyphenated rendering of `value` (`spec_uuid_text`), and parsing it with
/// `Uuid::parse_str` gives `value` back.
#[verifier::external_body]
fn uuid_text(value: u128) -> (text: String)
    ensures
        text@ == spec_uuid_text(value),
        spec_uuid_parse(text@) == Some(value),
{
    uuid::Uuid::from_u128(value).to_string()
}

/// Parses `text` with `uuid::Uuid::parse_str`.
/// Trusted: the result is the crate's parse of `text`.
#[verifier::external_body]
fn uuid_parse(text: &str) -> (value: Option<u128>)
    ensures
        value == spec_uuid_parse(text@),
{
    uuid::Uuid::parse_str(text).ok().map(|uuid| uuid.as_u128())
}

/// A character of the hyphenated lowercase form of a UUID.
pub open spec fn is_uuid_text_char(c: char) -> bool {
    ('0' <= c && c <= '9') || ('a' <= c && c <= 'f') || c == '-'
}

/// Text of a freshly minted version-7 UUID, from `uuid::Uuid::now_v7`.
/// Trusted: the text is the crate's `Display` form, the hyphenated lowercase
/// rendering of 36 characters, each a hex digit or a hyphen; nothing is
/// claimed of its value, which depends on the time and on random bits.
#[verifier::external_body]
pub(crate) fn fresh_uuid_text() -> (text: String)
    ensures
        text@.len() == 36,
        forall|i: int| 0 <= i < text@.len() ==> is_uuid_text_char(#[trigger] text@[i]),
{
    uuid::Uuid::now_v7().to_string()
}

/// Identifier of a conversation thread: a UUID.
#[derive(Clone, Copy, Debug, PartialEq, Eq, Hash, Structural)]
pub struct ThreadId {
    pub uuid: u128,
}

/// Error returned when a text is not a UUID.
#[derive(Clone, Copy, Debug, PartialEq, Eq, Structural)]
pub struct InvalidThreadId;

impl ThreadId {
    /// The canonical text of this thread id.
    pub open spec fn text(self) -> Seq<char> {
        spec_uuid_text(self.uuid)
    }

    pub fn from_u128(value: u128) -> (id: ThreadId)
        ensures
            id.uuid == value,
    {
        ThreadId { uuid: value }
    }

    pub fn as_u128(&self) -> (value: u128)
        ensures
            value == self.uuid,
    {
        self.uuid
    }

    /// Parses a thread id from its text.
    pub fn from_string(text: &str) -> (id: Result<ThreadId, InvalidThreadId>)
        ensures
            match spec_uuid_parse(text@) {
                Some(value) => id == Ok::<ThreadId, InvalidThreadId>(ThreadId { uuid: value }),
                None => id is Err,
            },
    {
        match uuid_parse(text) {
            Some(value) => Ok(ThreadId { uuid: value }),
            None => Err(InvalidThreadId),
        }
    }

    /// The canonical text of this thread id.
    pub fn to_string(&self) -> (text: String)
        ensures
            text@ == self.text(),
            spec_uuid_parse(text@) == Some(self.uuid),
    {
        uuid_text(self.uuid)
    }

    pub fn equals(&self, other: &ThreadId) -> (same: bool)
        ensures
            same == (*self == *other),
    {
        self.uuid == other.uuid
    }
}

} // verus!
