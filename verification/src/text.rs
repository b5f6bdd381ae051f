use vstd::prelude::*;
use vstd::string::*;
use vstd::utf8::*;

verus! {

/// The text that lossy UTF-8 decoding makes of a byte string: valid
/// sequences are decoded, each invalid one becomes U+FFFD.
pub uninterp spec fn utf8_lossy(bytes: Seq<u8>) -> Seq<char>;

/// Calls `String::from_utf8_lossy` and takes the text it returns.
/// The result is `utf8_lossy` of the bytes; on valid UTF-8 it is the
/// plain decoding, as the std documentation states.
#[verifier::external_body]
fn lossy_text(bytes: &[u8]) -> (r: String)
    ensures
        r@ == utf8_lossy(bytes@),
        valid_utf8(bytes@) ==> r@ == decode_utf8(bytes@),
{
    String::from_utf8_lossy(bytes).into_owned()
}

/// The text of a byte string under lossy decoding: the plain UTF-8
/// decoding where the bytes are valid UTF-8, `utf8_lossy` otherwise.
pub open spec fn lossy_decoding(bytes: Seq<u8>) -> Seq<char> {
    if valid_utf8(bytes) {
        decode_utf8(bytes)
    } else {
        utf8_lossy(bytes)
    }
}

/// Calls `String::push`: the character is appended.
#[verifier::external_body]
fn push_char(s: &mut String, c: char)
    ensures
        final(s)@ == old(s)@.push(c),
{
    s.push(c)
}

/// The decimal digit character of `d`, for `0 <= d < 10`.
pub open spec fn digit_char(d: int) -> char {
    (d + 48) as char
}

/// The decimal representation of a natural number, without leading zeros.
pub open spec fn decimal(n: nat) -> Seq<char>
    decreases n,
{
    if n < 10 {
        seq![digit_char(n as int)]
    } else {
        decimal(n / 10).push(digit_char((n % 10) as int))
    }
}

/// The decimal representation of an integer, with a leading `-` when negative.
pub open spec fn signed_decimal(n: int) -> Seq<char> {
    if n < 0 {
        seq!['-'] + decimal((-n) as nat)
    } else {
        decimal(n as nat)
    }
}

fn digit(d: u64) -> (c: char)
    requires
        d < 10,
    ensures
        c == digit_char(d as int),
{
    let b: u8 = 48u8 + (d as u8);
    b as char
}

/// Appends the decimal representation of `n`.
pub fn push_decimal(s: &mut String, n: u64)
    ensures
        final(s)@ == old(s)@ + decimal(n as nat),
    decreases n,
{
    let ghost before = s@;
    if n >= 10 {
        push_decimal(s, n / 10);
    }
    let c = digit(n % 10);
    push_char(s, c);
    assert(s@ =~= before + decimal(n as nat));
}

/// The decimal representation of an unsigned value.
pub fn u64_decimal(n: u64) -> (r: String)
    ensures
        r@ == decimal(n as nat),
{
    let mut s = String::new();
    push_decimal(&mut s, n);
    assert(s@ =~= decimal(n as nat));
    s
}

/// The decimal representation of a signed value.
pub fn i64_decimal(n: i64) -> (r: String)
    ensures
        r@ == signed_decimal(n as int),
{
    let mut s = String::new();
    if n < 0 {
        push_char(&mut s, '-');
        let m: u64 = (0i128 - (n as i128)) as u64;
        push_decimal(&mut s, m);
    } else {
        push_decimal(&mut s, n as u64);
    }
    assert(s@ =~= signed_decimal(n as int));
    s
}

} // verus!

verus! {

/// Index of the first zero byte of `b` at or after `i`, or `b.len()` if none.
pub open spec fn first_zero_from(b: Seq<u8>, i: int) -> int
    decreases b.len() - i,
{
    if i < 0 || i >= b.len() {
        b.len() as int
    } else if b[i] == 0 {
        i
    } else {
        first_zero_from(b, i + 1)
    }
}

/// Index of the first zero byte of `b`, or `b.len()` if it has none: the
/// length of the C string that `b` starts with.
pub open spec fn first_zero(b: Seq<u8>) -> int {
    first_zero_from(b, 0)
}

proof fn lemma_first_zero_from_bounds(b: Seq<u8>, i: int)
    requires
        0 <= i <= b.len(),
    ensures
        i <= first_zero_from(b, i) <= b.len(),
        first_zero_from(b, i) < b.len() ==> b[first_zero_from(b, i)] == 0,
        forall|j: int| i <= j < first_zero_from(b, i) ==> b[j] != 0,
    decreases b.len() - i,
{
    if i < b.len() && b[i] != 0 {
        lemma_first_zero_from_bounds(b, i + 1);
    }
}

/// The first zero byte of a C string is at `first_zero`, and no byte before it is zero.
pub proof fn lemma_first_zero(b: Seq<u8>)
    ensures
        0 <= first_zero(b) <= b.len(),
        first_zero(b) < b.len() ==> b[first_zero(b)] == 0,
        forall|j: int| 0 <= j < first_zero(b) ==> b[j] != 0,
{
    lemma_first_zero_from_bounds(b, 0);
}

fn first_zero_index(b: &[u8]) -> (n: usize)
    ensures
        n == first_zero(b@),
{
    let mut i: usize = 0;
    while i < b.len()
        invariant
            i <= b@.len(),
            first_zero_from(b@, i as int) == first_zero(b@),
        decreases b@.len() - i,
    {
        if b[i] == 0 {
            return i;
        }
        i = i + 1;
    }
    i
}

/// The text of a C string pointer: empty for a null pointer, the lossy
/// decoding of its bytes otherwise.
pub open spec fn cstr_text(p: Option<Seq<u8>>) -> Seq<char> {
    match p {
        None => Seq::empty(),
        Some(b) => lossy_decoding(b),
    }
}

/// The text of the daemon's error message pointer.
pub open spec fn errmsg_text(p: Option<Seq<u8>>) -> Seq<char> {
    match p {
        None => "unknown error"@,
        Some(b) => lossy_decoding(b),
    }
}

/// Converts a C string, given by its bytes or `None` for a null pointer, to
/// an owned string; a null pointer gives the empty string.
pub fn cstr_to_owned(p: Option<&[u8]>) -> (r: String)
    ensures
        r@ == cstr_text(p.deep_view()),
        match p {
            Some(b) => valid_utf8(b@) ==> r@ == decode_utf8(b@),
            None => r@ == Seq::<char>::empty(),
        },
{
    if let Some(b) = p {
        assert(b.deep_view() =~= b@);
        lossy_text(b)
    } else {
        String::new()
    }
}

/// The daemon's error message, given by its bytes or `None` for a null
/// pointer; a null pointer gives "unknown error".
pub fn error_message(p: Option<&[u8]>) -> (r: String)
    ensures
        r@ == errmsg_text(p.deep_view()),
        match p {
            Some(b) => valid_utf8(b@) ==> r@ == decode_utf8(b@),
            None => r@ == "unknown error"@,
        },
{
    if let Some(b) = p {
        assert(b.deep_view() =~= b@);
        lossy_text(b)
    } else {
        String::from_str("unknown error")
    }
}

/// The text of a fixed-size C character array: the bytes before the first
/// NUL (all of them if there is none), decoded lossily.
pub fn c_array_text(b: &[u8]) -> (r: String)
    ensures
        r@ == lossy_decoding(b@.take(first_zero(b@))),
        valid_utf8(b@.take(first_zero(b@))) ==> r@ == decode_utf8(b@.take(first_zero(b@))),
{
    let n = first_zero_index(b);
    proof {
        lemma_first_zero(b@);
    }
    let prefix = vstd::slice::slice_subrange(b, 0, n);
    assert(prefix@ =~= b@.take(first_zero(b@)));
    lossy_text(prefix)
}

/// `e` reports the first NUL byte of the argument `bytes`.
pub open spec fn is_nul_error(e: crate::error::Error, bytes: Seq<u8>) -> bool {
    match e {
        crate::error::Error::Nul(n) => n.position == first_zero(bytes) && n.bytes@ == bytes,
        _ => false,
    }
}

/// The bytes of a string argument for C, refused when they hold a NUL byte.
pub fn c_string(s: &str) -> (r: Result<Vec<u8>, crate::error::Error>)
    ensures
        match r {
            Ok(b) => b@ == s.spec_bytes() && first_zero(s.spec_bytes()) == s.spec_bytes().len(),
            Err(e) => first_zero(s.spec_bytes()) < s.spec_bytes().len() && is_nul_error(e, s.spec_bytes()),
        },
{
    let bytes = s.as_bytes();
    let n = first_zero_index(bytes);
    proof {
        lemma_first_zero(bytes@);
    }
    let v = vstd::slice::slice_to_vec(bytes);
    if n < bytes.len() {
        Err(crate::error::Error::Nul(crate::error::NulByte { position: n, bytes: v }))
    } else {
        Ok(v)
    }
}

/// An optional string argument for C: `None` stays `None`.
pub fn optional_c_string(s: Option<&str>) -> (r: Result<Option<Vec<u8>>, crate::error::Error>)
    ensures
        match s {
            None => r matches Ok(None),
            Some(t) => match r {
                Ok(Some(b)) => b@ == t.spec_bytes() && first_zero(t.spec_bytes()) == t.spec_bytes().len(),
                Ok(None) => false,
                Err(e) => first_zero(t.spec_bytes()) < t.spec_bytes().len() && is_nul_error(e, t.spec_bytes()),
            },
        },
{
    match s {
        None => Ok(None),
        Some(t) => match c_string(t) {
            Ok(b) => Ok(Some(b)),
            Err(e) => Err(e),
        },
    }
}

} // verus!
