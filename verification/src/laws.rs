use vstd::prelude::*;

use vstd::utf8::*;

use crate::error::Error;
use crate::records::{
    CaseInfo, ModuleInfo, RawCaseInfo, RawModuleInfo, RawResourceInfo, RawSerdInfo, ResourceInfo,
    SerdInfo,
};
use crate::replies::is_fmd_error;
use crate::stats::{RawStat, RawStatValue, Stat, StatValue};
use crate::text::{decimal, digit_char, first_zero, lemma_first_zero, signed_decimal};

verus! {

/// The number that a string of decimal digits denotes.
pub open spec fn digits_value(s: Seq<char>) -> int
    decreases s.len(),
{
    if s.len() == 0 {
        0
    } else {
        digits_value(s.drop_last()) * 10 + (s.last() as int - 48)
    }
}

/// The number that an optionally `-`-signed string of decimal digits denotes.
pub open spec fn signed_digits_value(s: Seq<char>) -> int {
    if s.len() > 0 && s[0] == '-' {
        -digits_value(s.drop_first())
    } else {
        digits_value(s)
    }
}

/// Every character is a decimal digit.
pub open spec fn all_digits(s: Seq<char>) -> bool {
    forall|i: int| 0 <= i < s.len() ==> '0' <= #[trigger] s[i] <= '9'
}

/// Decimal text is a non-empty string of digits that reads back as the number.
pub proof fn lemma_decimal_reads_back(n: nat)
    ensures
        decimal(n).len() > 0,
        all_digits(decimal(n)),
        digits_value(decimal(n)) == n,
    decreases n,
{
    if n < 10 {
        assert(decimal(n) == seq![digit_char(n as int)]);
        assert(decimal(n).drop_last() =~= Seq::<char>::empty());
        assert(digit_char(n as int) as int == n + 48);
        assert(digits_value(Seq::<char>::empty()) == 0);
        assert(digits_value(decimal(n)) == digits_value(decimal(n).drop_last()) * 10 + (decimal(n).last() as int - 48));
    } else {
        lemma_decimal_reads_back(n / 10);
        let d = decimal(n);
        assert(d.drop_last() =~= decimal(n / 10));
        assert(digit_char((n % 10) as int) as int == n % 10 + 48);
        assert(d.last() == digit_char((n % 10) as int));
        assert((n / 10) * 10 + n % 10 == n);
        assert(digits_value(d) == digits_value(d.drop_last()) * 10 + (d.last() as int - 48));
    }
}

/// Signed decimal text reads back as the number.
pub proof fn lemma_signed_decimal_reads_back(n: int)
    ensures
        signed_digits_value(signed_decimal(n)) == n,
{
    if n < 0 {
        let m = (-n) as nat;
        lemma_decimal_reads_back(m);
        let s = signed_decimal(n);
        assert(s[0] == '-');
        assert(s.drop_first() =~= decimal(m));
    } else {
        lemma_decimal_reads_back(n as nat);
        assert('0' <= decimal(n as nat)[0] <= '9');
    }
}

proof fn lemma_flag_bits(x: u32)
    ensures
        ((x & 1u32) != 0) == (x % 2 == 1),
        ((x & 2u32) != 0) == ((x / 2) % 2 == 1),
        ((x & 4u32) != 0) == ((x / 4) % 2 == 1),
{
    assert(((x & 1u32) != 0) == (x % 2 == 1)) by (bit_vector);
    assert(((x & 2u32) != 0) == ((x / 2) % 2 == 1)) by (bit_vector);
    assert(((x & 4u32) != 0) == ((x / 4) % 2 == 1)) by (bit_vector);
}

/// A module is reported failed exactly when bit 0 of its record's flag word
/// is set, whatever the other bits and the string fields hold.
pub proof fn law_module_failed_flag(raw: RawModuleInfo, m: ModuleInfo)
    requires
        m.is_from_raw(raw),
    ensures
        m.failed == (raw.flags % 2 == 1),
{
    lemma_flag_bits(raw.flags);
}

/// A resource is faulty, unusable and invisible exactly when bit 0, bit 1
/// and bit 2 of its record's flag word are set, each independently of the
/// other bits.
pub proof fn law_resource_flags(raw: RawResourceInfo, r: ResourceInfo)
    requires
        r.is_from_raw(raw),
    ensures
        r.faulty == (raw.flags % 2 == 1),
        r.unusable == ((raw.flags / 2) % 2 == 1),
        r.invisible == ((raw.flags / 4) % 2 == 1),
{
    lemma_flag_bits(raw.flags);
}

/// A SERD engine is fired exactly when bit 0 of its record's flag word is
/// set, and its numbers are the record's own.
pub proof fn law_serd_engine_fields(raw: RawSerdInfo, s: SerdInfo)
    requires
        s.is_from_raw(raw),
    ensures
        s.fired == (raw.flags % 2 == 1),
        s.delta_ns == raw.delta,
        s.n == raw.n,
        s.t_ns == raw.t,
        s.count == raw.count,
{
    lemma_flag_bits(raw.flags);
}

/// A statistic value is decoded from the union member that its type code
/// names: 0 boolean (true exactly when the member is non-zero), 1 and 3 the
/// signed members, 2 and 4 the unsigned ones, 6 a time and 7 a size from the
/// 64-bit member, and any code above 7 an unknown value keeping the code and
/// the 64-bit member.
pub proof fn law_stat_value_decoding(type_code: u32, raw: RawStatValue, v: StatValue)
    requires
        v.is_from_raw(type_code, raw),
    ensures
        type_code == 0 && raw.bool_ == 0 ==> v == StatValue::Bool(false),
        type_code == 0 && raw.bool_ != 0 ==> v == StatValue::Bool(true),
        type_code == 1 ==> v == StatValue::Int32(raw.i32_),
        type_code == 2 ==> v == StatValue::UInt32(raw.ui32),
        type_code == 3 ==> v == StatValue::Int64(raw.i64_),
        type_code == 4 ==> v == StatValue::UInt64(raw.ui64),
        type_code == 6 ==> v == StatValue::Time(raw.ui64),
        type_code == 7 ==> v == StatValue::Size(raw.ui64),
        type_code == 5 ==> v is String,
        type_code > 7 ==> v == (StatValue::Unknown { type_code: type_code, raw: raw.ui64 }),
{
}

/// The text of every integer statistic is a decimal numeral that reads back
/// as the value itself: digits only for the unsigned kinds, with a leading
/// `-` for negative signed values.
pub proof fn law_integer_display_reads_back(v: StatValue)
    ensures
        match v {
            StatValue::Int32(x) => signed_digits_value(v.display()) == x,
            StatValue::Int64(x) => signed_digits_value(v.display()) == x,
            StatValue::UInt32(x) => all_digits(v.display()) && digits_value(v.display()) == x,
            StatValue::UInt64(x) => all_digits(v.display()) && digits_value(v.display()) == x,
            _ => true,
        },
{
    match v {
        StatValue::Int32(x) => lemma_signed_decimal_reads_back(x as int),
        StatValue::Int64(x) => lemma_signed_decimal_reads_back(x as int),
        StatValue::UInt32(x) => lemma_decimal_reads_back(x as nat),
        StatValue::UInt64(x) => lemma_decimal_reads_back(x as nat),
        _ => {},
    }
}

/// A time renders as the plain number followed by `ns`, a size as the plain
/// number followed by `B`, and an unknown value as its code and raw bits in
/// plain numbers inside `unknown(type=..., raw=...)`.
pub proof fn law_display_units(v: u64, code: u32)
    ensures
        StatValue::Time(v).display() == StatValue::UInt64(v).display() + "ns"@,
        StatValue::Size(v).display() == StatValue::UInt64(v).display() + "B"@,
        (StatValue::Unknown { type_code: code, raw: v }).display() == "unknown(type="@
            + StatValue::UInt32(code).display() + ", raw="@ + StatValue::UInt64(v).display() + ")"@,
        StatValue::Bool(true).display() == "true"@,
        StatValue::Bool(false).display() == "false"@,
{
}

/// The text a C string field turns into: empty for a null pointer, the
/// plain decoding of its bytes when they are valid UTF-8.
pub open spec fn text_of_field(p: Option<Vec<u8>>, t: Seq<char>) -> bool {
    &&& p is None ==> t == Seq::<char>::empty()
    &&& forall|b: Vec<u8>| p == Some(b) && valid_utf8(b@) ==> t == decode_utf8(b@)
}

/// Each string of a module comes from its own field of the record.
pub proof fn law_module_strings(raw: RawModuleInfo, m: ModuleInfo)
    requires
        m.is_from_raw(raw),
    ensures
        text_of_field(raw.name, m.name@),
        text_of_field(raw.description, m.description@),
        text_of_field(raw.version, m.version@),
{
    assert forall|b: Vec<u8>| raw.name == Some(b) implies b.deep_view() =~= b@ by {}
    assert forall|b: Vec<u8>| raw.description == Some(b) implies b.deep_view() =~= b@ by {}
    assert forall|b: Vec<u8>| raw.version == Some(b) implies b.deep_view() =~= b@ by {}
}

/// The FMRI of a resource comes from the record's FMRI field.
pub proof fn law_resource_fmri(raw: RawResourceInfo, r: ResourceInfo)
    requires
        r.is_from_raw(raw),
    ensures
        text_of_field(raw.fmri, r.fmri@),
{
    assert forall|b: Vec<u8>| raw.fmri == Some(b) implies b.deep_view() =~= b@ by {}
}

/// The code and URL of a case come from their own fields, and its event
/// payload is the record's, unchanged.
pub proof fn law_case_fields<E>(raw: RawCaseInfo<E>, c: CaseInfo<E>)
    requires
        c.is_from_raw(raw),
    ensures
        text_of_field(raw.code, c.code@),
        text_of_field(raw.url, c.url@),
        c.event == raw.event,
{
    assert forall|b: Vec<u8>| raw.code == Some(b) implies b.deep_view() =~= b@ by {}
    assert forall|b: Vec<u8>| raw.url == Some(b) implies b.deep_view() =~= b@ by {}
}

/// The name of a SERD engine comes from the record's name field.
pub proof fn law_serd_engine_name(raw: RawSerdInfo, s: SerdInfo)
    requires
        s.is_from_raw(raw),
    ensures
        text_of_field(raw.name, s.name@),
{
    assert forall|b: Vec<u8>| raw.name == Some(b) implies b.deep_view() =~= b@ by {}
}

/// The name and description of a statistic are the text of their arrays up
/// to the first NUL byte, and a string value is the text its pointer refers to.
pub proof fn law_stat_texts(raw: RawStat, s: Stat, k: int, l: int)
    requires
        s.is_from_raw(raw),
    ensures
        0 <= k < raw.name@.len() && raw.name@[k] == 0 && (forall|j: int|
            0 <= j < k ==> raw.name@[j] != 0) && valid_utf8(raw.name@.take(k)) ==> s.name@
            == decode_utf8(raw.name@.take(k)),
        0 <= l < raw.description@.len() && raw.description@[l] == 0 && (forall|j: int|
            0 <= j < l ==> raw.description@[j] != 0) && valid_utf8(raw.description@.take(l))
            ==> s.description@ == decode_utf8(raw.description@.take(l)),
        raw.type_code == 5 ==> (s.value matches StatValue::String(t) && text_of_field(
            raw.value.str_,
            t@,
        )),
{
    lemma_first_zero(raw.name@);
    lemma_first_zero(raw.description@);
    assert forall|b: Vec<u8>| raw.value.str_ == Some(b) implies b.deep_view() =~= b@ by {}
}

/// A refusal by the daemon carries its message: "unknown error" when there
/// is none, the plain decoding of its bytes when they are valid UTF-8.
pub proof fn law_fmd_error_message(e: Error, errmsg: Option<Seq<u8>>)
    requires
        is_fmd_error(e, errmsg),
    ensures
        e is Fmd,
        errmsg is None ==> (e matches Error::Fmd(m) && m@ == "unknown error"@),
        forall|b: Seq<u8>|
            errmsg == Some(b) && valid_utf8(b) ==> (e matches Error::Fmd(m) && m@ == decode_utf8(b)),
{
}

/// A byte string holds no NUL exactly when its C string is the whole of it.
pub proof fn law_first_zero_whole(b: Seq<u8>)
    ensures
        (forall|i: int| 0 <= i < b.len() ==> b[i] != 0) <==> first_zero(b) == b.len(),
{
    lemma_first_zero(b);
}

} // verus!
