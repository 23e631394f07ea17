//! The tagged-word encoding: an inline 32-bit tag in the high half of a
//! 64-bit word, and either an inline scalar or a pointer in the low half.
//! Doubles are stored biased, so that every tag outside the enumerated band
//! denotes a double.

use vstd::prelude::*;

verus! {

/// First (lowest) tag whose word points to a reference-counted object.
pub const JS_TAG_FIRST: i32 = -11;
pub const JS_TAG_BIG_DECIMAL: i32 = -11;
pub const JS_TAG_BIG_INT: i32 = -10;
pub const JS_TAG_BIG_FLOAT: i32 = -9;
pub const JS_TAG_SYMBOL: i32 = -8;
pub const JS_TAG_STRING: i32 = -7;
pub const JS_TAG_OBJECT: i32 = -1;
pub const JS_TAG_INT: i32 = 0;
pub const JS_TAG_BOOL: i32 = 1;
pub const JS_TAG_NULL: i32 = 2;
pub const JS_TAG_UNDEFINED: i32 = 3;
pub const JS_TAG_EXCEPTION: i32 = 6;
/// Every double is reported under this tag, whatever its high half holds.
pub const JS_TAG_FLOAT64: i32 = 7;

/// What is subtracted (modulo 2^64) from a double's bit pattern to store it.
pub const JS_FLOAT64_BIAS: u64 = 0x7ff8_000c_0000_0000;

/// The word that stands for every NaN.
pub const JS_NAN_WORD: u64 = 0xffff_fff4_0000_0000;

/// The classification of a word.
#[derive(Debug, Clone, Copy, PartialEq, Eq, Structural)]
pub enum ValueKind {
    Undefined,
    Null,
    Number,
    Boolean,
    String,
    Symbol,
    Exception,
    Object,
}

/// A value in `[0, 2^32)` read as a two's complement 32-bit integer.
pub open spec fn signed32(x: int) -> int {
    if x >= 0x8000_0000 {
        x - 0x1_0000_0000
    } else {
        x
    }
}

/// The two's complement image in `[0, 2^32)` of a 32-bit integer.
pub open spec fn unsigned32(x: int) -> int {
    if x < 0 {
        x + 0x1_0000_0000
    } else {
        x
    }
}

/// The high half of a word as a signed tag, before doubles are folded.
pub open spec fn spec_raw_tag(raw: u64) -> int {
    signed32(raw as int / 0x1_0000_0000)
}

/// The low half of a word as a signed integer.
pub open spec fn spec_payload(raw: u64) -> int {
    signed32(raw as int % 0x1_0000_0000)
}

/// The word with the given tag and payload.
pub open spec fn spec_word(tag: int, payload: int) -> int {
    unsigned32(tag) * 0x1_0000_0000 + unsigned32(payload)
}

/// Tags outside the enumerated band belong to biased doubles.
pub open spec fn is_float_tag(tag: int) -> bool {
    tag < JS_TAG_FIRST || tag >= JS_TAG_FLOAT64
}

/// The tag of a word, with every double reported as `JS_TAG_FLOAT64`.
pub open spec fn spec_tag(raw: u64) -> int {
    if is_float_tag(spec_raw_tag(raw)) {
        JS_TAG_FLOAT64 as int
    } else {
        spec_raw_tag(raw)
    }
}

/// A word carries a unit of the engine's reference count exactly when its
/// tag lies in the band of boxed tags.
pub open spec fn spec_has_ref_count(raw: u64) -> bool {
    JS_TAG_FIRST <= spec_raw_tag(raw) < 0
}

/// The kind that a tag stands for; every tag not listed is an object.
pub open spec fn kind_of_tag(tag: int) -> ValueKind {
    if tag == JS_TAG_UNDEFINED {
        ValueKind::Undefined
    } else if tag == JS_TAG_NULL {
        ValueKind::Null
    } else if tag == JS_TAG_INT || tag == JS_TAG_FLOAT64 {
        ValueKind::Number
    } else if tag == JS_TAG_BOOL {
        ValueKind::Boolean
    } else if tag == JS_TAG_STRING {
        ValueKind::String
    } else if tag == JS_TAG_SYMBOL {
        ValueKind::Symbol
    } else if tag == JS_TAG_EXCEPTION {
        ValueKind::Exception
    } else {
        ValueKind::Object
    }
}

/// The kind of a word.
pub open spec fn spec_kind(raw: u64) -> ValueKind {
    kind_of_tag(spec_tag(raw))
}

/// The bit pattern of the double that a word stores.
pub open spec fn spec_float_bits(raw: u64) -> int {
    (raw as int + JS_FLOAT64_BIAS as int) % 0x1_0000_0000_0000_0000
}

/// A bit pattern denotes a NaN when its exponent is all ones and its
/// mantissa is not zero.
pub open spec fn bits_are_nan(bits: u64) -> bool {
    bits as int % 0x8000_0000_0000_0000 > 0x7ff0_0000_0000_0000
}

/// A bit pattern denotes zero, of either sign.
pub open spec fn bits_are_zero(bits: u64) -> bool {
    bits as int % 0x8000_0000_0000_0000 == 0
}

/// The word that stores a double: one word for all NaNs, the biased bit
/// pattern for everything else.
pub open spec fn spec_float_word(bits: u64) -> int {
    if bits_are_nan(bits) {
        JS_NAN_WORD as int
    } else {
        (bits as int - JS_FLOAT64_BIAS as int) % 0x1_0000_0000_0000_0000
    }
}

/// Reads the high half of a word as a signed tag.
pub fn raw_tag(raw: u64) -> (tag: i32)
    ensures
        tag == spec_raw_tag(raw),
{
    let hi: u64 = raw >> 32;
    assert(hi == raw / 0x1_0000_0000 && hi < 0x1_0000_0000) by (bit_vector)
        requires
            hi == raw >> 32,
    ;
    if hi >= 0x8000_0000 {
        (hi as i64 - 0x1_0000_0000) as i32
    } else {
        hi as i32
    }
}

/// Reads the low half of a word as a signed integer.
pub fn payload(raw: u64) -> (value: i32)
    ensures
        value == spec_payload(raw),
{
    let lo: u64 = raw & 0xffff_ffff;
    assert(lo == raw % 0x1_0000_0000 && lo < 0x1_0000_0000) by (bit_vector)
        requires
            lo == raw & 0xffff_ffff,
    ;
    if lo >= 0x8000_0000 {
        (lo as i64 - 0x1_0000_0000) as i32
    } else {
        lo as i32
    }
}

/// Builds the word with the given tag and payload.
pub fn word(tag: i32, value: i32) -> (raw: u64)
    ensures
        raw == spec_word(tag as int, value as int),
        spec_raw_tag(raw) == tag,
        spec_payload(raw) == value,
{
    let hi: u64 = if tag < 0 {
        (tag as i64 + 0x1_0000_0000) as u64
    } else {
        tag as u64
    };
    let lo: u64 = if value < 0 {
        (value as i64 + 0x1_0000_0000) as u64
    } else {
        value as u64
    };
    assert(hi * 0x1_0000_0000 + lo < 0x1_0000_0000_0000_0000) by (nonlinear_arith)
        requires
            hi < 0x1_0000_0000,
            lo < 0x1_0000_0000,
    ;
    let raw: u64 = hi * 0x1_0000_0000 + lo;
    assert(raw / 0x1_0000_0000 == hi && raw % 0x1_0000_0000 == lo) by (nonlinear_arith)
        requires
            raw == hi * 0x1_0000_0000 + lo,
            lo < 0x1_0000_0000,
    ;
    raw
}

/// The tag of a word, with doubles folded into `JS_TAG_FLOAT64`.
pub fn tag(raw: u64) -> (tag: i32)
    ensures
        tag == spec_tag(raw),
{
    let t: i32 = raw_tag(raw);
    if t < JS_TAG_FIRST || t >= JS_TAG_FLOAT64 {
        JS_TAG_FLOAT64
    } else {
        t
    }
}

/// Whether the word owns a unit of the engine's reference count.
pub fn has_ref_count(raw: u64) -> (counted: bool)
    ensures
        counted == spec_has_ref_count(raw),
{
    let t: i32 = raw_tag(raw);
    JS_TAG_FIRST <= t && t < 0
}

/// Classifies a word.
pub fn kind(raw: u64) -> (kind: ValueKind)
    ensures
        kind == spec_kind(raw),
{
    let t: i32 = tag(raw);
    if t == JS_TAG_UNDEFINED {
        ValueKind::Undefined
    } else if t == JS_TAG_NULL {
        ValueKind::Null
    } else if t == JS_TAG_INT || t == JS_TAG_FLOAT64 {
        ValueKind::Number
    } else if t == JS_TAG_BOOL {
        ValueKind::Boolean
    } else if t == JS_TAG_STRING {
        ValueKind::String
    } else if t == JS_TAG_SYMBOL {
        ValueKind::Symbol
    } else if t == JS_TAG_EXCEPTION {
        ValueKind::Exception
    } else {
        ValueKind::Object
    }
}

/// Recovers the bit pattern of the double stored in a word.
pub fn float_bits(raw: u64) -> (bits: u64)
    ensures
        bits == spec_float_bits(raw),
{
    let room: u64 = 0xffff_ffff_ffff_ffff - JS_FLOAT64_BIAS;
    if raw > room {
        raw - room - 1
    } else {
        raw + JS_FLOAT64_BIAS
    }
}

/// Whether a bit pattern denotes a NaN.
pub fn is_nan_bits(bits: u64) -> (nan: bool)
    ensures
        nan == bits_are_nan(bits),
{
    let magnitude: u64 = bits & 0x7fff_ffff_ffff_ffff;
    assert(magnitude == bits % 0x8000_0000_0000_0000) by (bit_vector)
        requires
            magnitude == bits & 0x7fff_ffff_ffff_ffff,
    ;
    magnitude > 0x7ff0_0000_0000_0000
}

/// Whether a bit pattern denotes positive or negative zero.
pub fn is_zero_bits(bits: u64) -> (zero: bool)
    ensures
        zero == bits_are_zero(bits),
{
    let magnitude: u64 = bits & 0x7fff_ffff_ffff_ffff;
    assert(magnitude == bits % 0x8000_0000_0000_0000) by (bit_vector)
        requires
            magnitude == bits & 0x7fff_ffff_ffff_ffff,
    ;
    magnitude == 0
}

/// Stores a double, given by its bit pattern, in a word.
pub fn float_word(bits: u64) -> (raw: u64)
    ensures
        raw == spec_float_word(bits),
        spec_tag(raw) == JS_TAG_FLOAT64,
        spec_kind(raw) == ValueKind::Number,
        !bits_are_nan(bits) ==> spec_float_bits(raw) == bits,
        bits_are_nan(bits) ==> bits_are_nan(spec_float_bits(raw) as u64),
{
    if is_nan_bits(bits) {
        JS_NAN_WORD
    } else if bits >= JS_FLOAT64_BIAS {
        bits - JS_FLOAT64_BIAS
    } else {
        let room: u64 = 0xffff_ffff_ffff_ffff - JS_FLOAT64_BIAS;
        bits + room + 1
    }
}

/// A word built of a tag and a payload gives both back.
pub proof fn lemma_word_fields(tag: i32, value: i32)
    ensures
        0 <= spec_word(tag as int, value as int) <= u64::MAX,
        spec_raw_tag(spec_word(tag as int, value as int) as u64) == tag,
        spec_payload(spec_word(tag as int, value as int) as u64) == value,
{
    let hi = unsigned32(tag as int);
    let lo = unsigned32(value as int);
    let raw = spec_word(tag as int, value as int);
    assert(raw / 0x1_0000_0000 == hi && raw % 0x1_0000_0000 == lo && 0 <= raw
        < 0x1_0000_0000_0000_0000) by (nonlinear_arith)
        requires
            raw == hi * 0x1_0000_0000 + lo,
            0 <= lo < 0x1_0000_0000,
            0 <= hi < 0x1_0000_0000,
    ;
}

/// The counted words are the strings, the symbols and the objects: no
/// undefined, null, number, boolean or exception word carries a count.
pub proof fn lemma_counted_kinds(raw: u64)
    ensures
        spec_has_ref_count(raw) ==> spec_kind(raw) == ValueKind::String || spec_kind(raw)
            == ValueKind::Symbol || spec_kind(raw) == ValueKind::Object,
        spec_kind(raw) == ValueKind::String || spec_kind(raw) == ValueKind::Symbol
            ==> spec_has_ref_count(raw),
        spec_tag(raw) == JS_TAG_FLOAT64 ==> !spec_has_ref_count(raw),
{
}

/// A stored double is a number under the tag of doubles, and it reads back
/// as it was stored; all NaNs read back as one NaN.
pub proof fn lemma_float_word(bits: u64)
    ensures
        0 <= spec_float_word(bits) <= u64::MAX,
        spec_tag(spec_float_word(bits) as u64) == JS_TAG_FLOAT64,
        spec_kind(spec_float_word(bits) as u64) == ValueKind::Number,
        !bits_are_nan(bits) ==> spec_float_bits(spec_float_word(bits) as u64) == bits,
        bits_are_nan(bits) ==> bits_are_nan(spec_float_bits(spec_float_word(bits) as u64) as u64),
{
}

} // verus!
