use vstd::prelude::*;
use vstd::string::*;
use vstd::utf8::*;

use crate::error::Error;
use crate::ids::{hex_digit_char, hyphenated_digit_index, nibble, uuid_text, Uuid};
use crate::text::{c_string, first_zero, is_nul_error, lemma_first_zero};

verus! {

/// Every character of the hyphenated form of a UUID is an ASCII character other than NUL.
pub proof fn lemma_uuid_text_ascii(v: u128)
    ensures
        uuid_text(v).len() == 36,
        is_ascii_chars(uuid_text(v)),
        forall|i: int| 0 <= i < 36 ==> #[trigger] uuid_text(v)[i] != '\0',
{
    assert forall|i: int| 0 <= i < 36 implies '\0' < #[trigger] uuid_text(v)[i] <= '\u{7f}' by {
        if !(i == 8 || i == 13 || i == 18 || i == 23) {
            let k = hyphenated_digit_index(i);
            let s: u128 = (4 * (31 - k)) as u128;
            assert(((v >> s) & 15u128) <= 15u128) by (bit_vector);
            assert(0 <= nibble(v, k) < 16);
        }
    }
}

/// A byte string without zero bytes is a whole C string.
proof fn lemma_no_zero_byte(b: Seq<u8>)
    requires
        forall|i: int| 0 <= i < b.len() ==> b[i] != 0,
    ensures
        first_zero(b) == b.len(),
{
    lemma_first_zero(b);
}

/// The C string argument for a UUID: its hyphenated form, which never holds
/// a NUL byte, so that it is always accepted.
pub fn uuid_c_string(u: &Uuid) -> (r: Vec<u8>)
    ensures
        r@ == encode_utf8(uuid_text(u.value)),
        first_zero(r@) == r@.len(),
{
    let text = u.to_hyphenated();
    let s = text.as_str();
    proof {
        lemma_uuid_text_ascii(u.value);
        is_ascii_chars_encode_utf8(uuid_text(u.value));
        let b = s.spec_bytes();
        assert forall|i: int| 0 <= i < b.len() implies b[i] != 0 by {
            assert(uuid_text(u.value)[i] as u8 == b[i]);
        }
        lemma_no_zero_byte(b);
    }
    match c_string(s) {
        Ok(b) => b,
        Err(_) => {
            proof {
                assert(false);
            }
            Vec::new()
        },
    }
}

/// The C string arguments of acquitting a resource for a case: the FMRI,
/// refused when it holds a NUL byte, and the case UUID.
pub fn resource_acquit_arguments(fmri: &str, case: &Uuid) -> (r: Result<(Vec<u8>, Vec<u8>), Error>)
    ensures
        match r {
            Ok((f, c)) => f@ == fmri.spec_bytes() && first_zero(f@) == f@.len() && c@ == encode_utf8(
                uuid_text(case.value),
            ),
            Err(e) => first_zero(fmri.spec_bytes()) < fmri.spec_bytes().len() && is_nul_error(
                e,
                fmri.spec_bytes(),
            ),
        },
{
    let f = c_string(fmri)?;
    let c = uuid_c_string(case);
    Ok((f, c))
}

} // verus!
