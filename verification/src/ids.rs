use uuid::Error as UuidError;
use vstd::prelude::*;

use crate::error::Error;

verus! {

/// The lower-case hexadecimal digit character of `d`, for `0 <= d < 16`.
pub open spec fn hex_digit_char(d: int) -> char {
    if d < 10 {
        (d + 48) as char
    } else {
        (d + 87) as char
    }
}

/// The `k`-th hexadecimal digit (0 is the most significant) of a 128-bit value.
pub open spec fn nibble(v: u128, k: int) -> int {
    ((v >> ((4 * (31 - k)) as u128)) & 15u128) as int
}

/// Which hexadecimal digit stands at character `i` of the hyphenated form.
pub open spec fn hyphenated_digit_index(i: int) -> int {
    if i < 8 {
        i
    } else if i < 13 {
        i - 1
    } else if i < 18 {
        i - 2
    } else if i < 23 {
        i - 3
    } else {
        i - 4
    }
}

/// The hyphenated lower-case form of a UUID, such as
/// `67e55044-10b1-426f-9247-bb680e5fe0c8`: its 32 hexadecimal digits, most
/// significant first, in groups of 8, 4, 4, 4 and 12 separated by `-`.
pub open spec fn uuid_text(v: u128) -> Seq<char> {
    Seq::new(
        36,
        |i: int|
            if i == 8 || i == 13 || i == 18 || i == 23 {
                '-'
            } else {
                hex_digit_char(nibble(v, hyphenated_digit_index(i)))
            },
    )
}

/// The value that `uuid::Uuid::parse_str` reads from a text, or `None` where it fails.
pub uninterp spec fn uuid_parse(text: Seq<char>) -> Option<u128>;

/// Calls `uuid::Uuid::parse_str` and takes the parsed value as its
/// big-endian `u128` (`as_u128`). The result is `uuid_parse` of the text;
/// the hyphenated form of any value parses back to that value, as the crate
/// documents that every format it generates is accepted. Which texts other
/// than those are accepted is left to the name.
#[verifier::external_body]
fn parse_uuid_value(text: &str) -> (r: Result<u128, UuidError>)
    ensures
        match r {
            Ok(v) => uuid_parse(text@) == Some(v) && forall|w: u128| text@ == #[trigger] uuid_text(w) ==> v == w,
            Err(_) => uuid_parse(text@) is None && forall|w: u128| text@ != #[trigger] uuid_text(w),
        },
{
    match uuid::Uuid::parse_str(text) {
        Ok(u) => Ok(u.as_u128()),
        Err(e) => Err(e),
    }
}

/// Calls `to_string` on `uuid::Uuid::from_u128(v)`: the crate's `Display`
/// writes the hyphenated lower-case form.
#[verifier::external_body]
fn uuid_value_text(v: u128) -> (r: String)
    ensures
        r@ == uuid_text(v),
{
    uuid::Uuid::from_u128(v).to_string()
}

/// A 128-bit universally unique identifier, held as its big-endian value.
#[derive(Clone, Copy, Debug, PartialEq, Eq, Hash, Structural)]
pub struct Uuid {
    pub value: u128,
}

impl Uuid {
    /// Parses a UUID as the daemon reports it; a text that does not parse
    /// gives `Error::Uuid`.
    pub fn parse(text: &str) -> (r: Result<Uuid, Error>)
        ensures
            match r {
                Ok(u) => uuid_parse(text@) == Some(u.value),
                Err(e) => uuid_parse(text@) is None && e is Uuid,
            },
            forall|v: u128| text@ == #[trigger] uuid_text(v) ==> r == Ok::<Uuid, Error>(Uuid { value: v }),
    {
        match parse_uuid_value(text) {
            Ok(v) => Ok(Uuid { value: v }),
            Err(e) => Err(Error::Uuid(e)),
        }
    }

    /// The hyphenated lower-case form of the UUID.
    pub fn to_hyphenated(&self) -> (r: String)
        ensures
            r@ == uuid_text(self.value),
    {
        uuid_value_text(self.value)
    }
}

} // verus!
