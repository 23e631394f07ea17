//! A host value: one tagged word of the engine, owned together with one
//! unit of its reference count where the word is counted.

use vstd::prelude::*;
use vstd::slice::slice_index_get;
use vstd::string::StringSliceAdditionalSpecFns;
use vstd::utf8::{decode_utf8, encode_utf8, valid_utf8};
use crate::context::Context;
use crate::engine::{
    c_string, first_nul_at, nul_free, words_held, words_new, words_push, Call, JS_CFUNC_GENERIC,
    JS_PROP_C_W_E,
};
use crate::error::{Error, JsException};
use crate::float::{
    from_i64, from_i64_exact, has_exact_double, lemma_exact_double, nearest_double, sign_bit,
    spec_to_i32, to_i32,
};
use crate::primitive::{Primitive, PrimitiveView};
use crate::refcount::{acquire, release, spec_acquire, spec_release, RefOp};
use crate::tag::{
    bits_are_nan, bits_are_zero, float_bits, float_word, is_nan_bits, is_zero_bits, kind,
    lemma_float_word, lemma_word_fields, payload, spec_float_bits, spec_float_word, spec_kind,
    spec_payload, spec_tag, spec_word, tag, word, ValueKind, JS_TAG_BIG_INT, JS_TAG_BOOL,
    JS_TAG_FLOAT64, JS_TAG_INT, JS_TAG_NULL, JS_TAG_UNDEFINED,
};
use crate::text::{bytes_view, lossy_text, utf8_lossy, utf8_text};

verus! {

/// A wrapper around one word of the engine.
///
/// The value owns one unit of the word's reference count where the word is
/// counted.  It gives the unit up through `drop`, hands it on through
/// `into_raw`, and a second owner comes into being only through `clone`.
#[derive(Debug, PartialEq, Eq)]
pub struct Value {
    raw: u64,
    ctx: Context,
}

/// What making a value of a primitive comes to.
#[derive(Debug, PartialEq, Eq)]
pub enum Construction {
    /// The value is made: its word holds the primitive inline.
    Ready(Value),
    /// The engine has to make the value, by this call.
    Engine(Call),
}

/// The word of a primitive that fits a word without the engine's help.
pub open spec fn spec_inline_word(p: PrimitiveView) -> Option<int> {
    match p {
        PrimitiveView::Undefined => Some(spec_word(JS_TAG_UNDEFINED as int, 0)),
        PrimitiveView::Null => Some(spec_word(JS_TAG_NULL as int, 0)),
        PrimitiveView::Bool(b) => Some(spec_word(JS_TAG_BOOL as int, if b { 1 } else { 0 })),
        PrimitiveView::I32(x) => Some(spec_word(JS_TAG_INT as int, x as int)),
        PrimitiveView::I64(x) => if i32::MIN <= x <= i32::MAX {
            Some(spec_word(JS_TAG_INT as int, x as int))
        } else {
            Some(spec_number_word(nearest_double(x as int) as u64))
        },
        PrimitiveView::F64(bits) => Some(spec_number_word(bits)),
        _ => None,
    }
}

/// The word that stores a double: the integer word where the double equals
/// a 32-bit integer, negative zero left aside, and the biased pattern
/// otherwise.
pub open spec fn spec_number_word(bits: u64) -> int {
    match spec_to_i32(bits) {
        Some(n) => if n == 0 && sign_bit(bits) == 1 {
            spec_float_word(bits)
        } else {
            spec_word(JS_TAG_INT as int, n as int)
        },
        None => spec_float_word(bits),
    }
}

/// The 32-bit integer that the word, read together with the engine's
/// 64-bit reading of a big integer, stands for without loss.
pub open spec fn spec_as_i32(raw: u64, wide: i64) -> Option<i32> {
    if spec_tag(raw) == JS_TAG_FLOAT64 {
        spec_to_i32(spec_float_bits(raw) as u64)
    } else if spec_tag(raw) == JS_TAG_INT {
        Some(spec_payload(raw) as i32)
    } else if spec_tag(raw) == JS_TAG_BIG_INT {
        if i32::MIN <= wide <= i32::MAX {
            Some(wide as i32)
        } else {
            None
        }
    } else {
        None
    }
}

/// The double that the word stands for without loss, by its bit pattern.
pub open spec fn spec_as_f64(raw: u64, wide: i64) -> Option<u64> {
    if spec_tag(raw) == JS_TAG_FLOAT64 {
        Some(spec_float_bits(raw) as u64)
    } else if spec_tag(raw) == JS_TAG_INT {
        Some(nearest_double(spec_payload(raw)) as u64)
    } else if spec_tag(raw) == JS_TAG_BIG_INT {
        if has_exact_double(wide as int) {
            Some(nearest_double(wide as int) as u64)
        } else {
            None
        }
    } else {
        None
    }
}

/// The 64-bit integer that the word stands for without loss.
pub open spec fn spec_as_i64(raw: u64, wide: i64) -> Option<i64> {
    if spec_tag(raw) == JS_TAG_BIG_INT {
        Some(wide)
    } else {
        match spec_as_i32(raw, wide) {
            Some(n) => Some(n as i64),
            None => None,
        }
    }
}

/// Truthiness.  Undefined and null are false; a number is false where it
/// is zero, of either sign, or NaN; a boolean is true where its word is the
/// word of `true`; a string is false where it is empty, that is, where the
/// engine gave no byte for it; everything else is true.
pub open spec fn spec_is_true(raw: u64, text: Option<Seq<u8>>) -> bool {
    match spec_kind(raw) {
        ValueKind::Undefined | ValueKind::Null => false,
        ValueKind::Number => if spec_tag(raw) == JS_TAG_INT {
            spec_payload(raw) != 0
        } else {
            !bits_are_zero(spec_float_bits(raw) as u64) && !bits_are_nan(
                spec_float_bits(raw) as u64,
            )
        },
        ValueKind::Boolean => raw == spec_word(JS_TAG_BOOL as int, 1),
        ValueKind::String => text matches Some(bytes) && bytes.len() > 0,
        ValueKind::Symbol | ValueKind::Exception | ValueKind::Object => true,
    }
}

/// The primitive that a word, read together with the engine's bytes for its
/// string form, stands for.
pub open spec fn spec_as_primitive(raw: u64, text: Option<Seq<u8>>) -> Option<PrimitiveView> {
    match spec_kind(raw) {
        ValueKind::Undefined => Some(PrimitiveView::Undefined),
        ValueKind::Null => Some(PrimitiveView::Null),
        ValueKind::Number => if spec_tag(raw) == JS_TAG_INT {
            Some(PrimitiveView::I32(spec_payload(raw) as i32))
        } else {
            Some(PrimitiveView::F64(spec_float_bits(raw) as u64))
        },
        ValueKind::Boolean => Some(PrimitiveView::Bool(spec_is_true(raw, text))),
        ValueKind::String => match text {
            Some(bytes) => if valid_utf8(bytes) {
                Some(PrimitiveView::Str(decode_utf8(bytes)))
            } else {
                Some(PrimitiveView::InvalidStr(lossy_text(bytes)))
            },
            None => Some(PrimitiveView::Str(Seq::empty())),
        },
        ValueKind::Symbol => match text {
            Some(bytes) => if valid_utf8(bytes) {
                Some(PrimitiveView::Symbol(decode_utf8(bytes)))
            } else {
                None
            },
            None => None,
        },
        ValueKind::Exception | ValueKind::Object => None,
    }
}

/// The length that a value has: none for undefined, null, numbers and
/// booleans; otherwise the `length` property, where it could be read and is
/// an integer that a host length can hold.
pub open spec fn spec_len(raw: u64, length: Option<u64>, wide: i64) -> Option<usize> {
    match spec_kind(raw) {
        ValueKind::Undefined | ValueKind::Null | ValueKind::Number | ValueKind::Boolean => None,
        _ => match length {
            Some(l) => match spec_as_i64(l, wide) {
                Some(x) => if 0 <= x <= usize::MAX {
                    Some(x as usize)
                } else {
                    None
                },
                None => None,
            },
            None => None,
        },
    }
}

/// The index at which an array of the given `length` word takes its next
/// element.
pub open spec fn spec_next_index(length: u64, wide: i64) -> Option<u32> {
    match spec_as_i64(length, wide) {
        Some(x) => if 0 <= x <= u32::MAX {
            Some(x as u32)
        } else {
            None
        },
        None => None,
    }
}

/// The view of an optional primitive.
pub open spec fn primitive_view(p: Option<Primitive>) -> Option<PrimitiveView> {
    match p {
        Some(p) => Some(p@),
        None => None,
    }
}

/// The words of a slice of values, in order.
pub open spec fn words_of(values: Seq<Value>) -> Seq<u64> {
    values.map_values(|v: Value| v.spec_raw())
}

/// Stores a double in a word, as the engine does.
pub fn number_word(bits: u64) -> (raw: u64)
    ensures
        raw == spec_number_word(bits),
        spec_kind(raw) == ValueKind::Number,
{
    match to_i32(bits) {
        Some(n) => {
            if n == 0 && bits / 0x8000_0000_0000_0000 == 1 {
                float_word(bits)
            } else {
                word(JS_TAG_INT, n)
            }
        },
        None => float_word(bits),
    }
}

/// Copies a slice of bytes.
pub fn copy_bytes(bytes: &[u8]) -> (out: Vec<u8>)
    ensures
        out@ == bytes@,
{
    let mut out: Vec<u8> = Vec::new();
    let mut i: usize = 0;
    while i < bytes.len()
        invariant
            0 <= i <= bytes.len(),
            out@ == bytes@.subrange(0, i as int),
        decreases bytes.len() - i,
    {
        out.push(*slice_index_get(bytes, i));
        assert(out@ == bytes@.subrange(0, i as int + 1));
        i += 1;
    }
    assert(bytes@.subrange(0, i as int) == bytes@);
    out
}

impl Value {
    /// The word that the value wraps.
    pub closed spec fn spec_raw(&self) -> u64 {
        self.raw
    }

    /// The context that the value belongs to.
    pub closed spec fn spec_ctx(&self) -> Context {
        self.ctx
    }

    /// Wraps a word that the engine returned from a call that can fail.
    /// The exception word stands for a failure: the result is then the
    /// pending exception, which the caller has captured into `pending`.
    /// No count is touched: the engine hands its results out owned.
    pub fn from_raw(ctx: &Context, raw: u64, pending: Option<JsException>) -> (res: Result<
        Value,
        Error,
    >)
        requires
            spec_kind(raw) == ValueKind::Exception ==> pending is Some,
        ensures
            spec_kind(raw) == ValueKind::Exception ==> res == Err::<Value, Error>(
                Error::JsException(pending.unwrap()),
            ),
            spec_kind(raw) != ValueKind::Exception ==> res is Ok && res.unwrap().spec_raw() == raw
                && res.unwrap().spec_ctx() == *ctx,
    {
        let val = Value::from_raw_unchecked(ctx, raw);
        if val.kind() == ValueKind::Exception {
            match pending {
                Some(e) => Err(Error::JsException(e)),
                None => unreached(),
            }
        } else {
            Ok(val)
        }
    }

    /// Wraps a word without looking at it.
    pub fn from_raw_unchecked(ctx: &Context, raw: u64) -> (v: Value)
        ensures
            v.spec_raw() == raw,
            v.spec_ctx() == *ctx,
    {
        Value { raw, ctx: *ctx }
    }

    /// Makes a value of a primitive.  Undefined, null, booleans, 32-bit
    /// integers and doubles fit a word as they are; an integer beyond 32
    /// bits is stored as the double nearest to it; a string is made by the
    /// engine.  Symbols cannot be made.
    pub fn from_primitive(ctx: &Context, value: Primitive) -> (made: Construction)
        requires
            !(value is Symbol),
        ensures
            spec_inline_word(value@) matches Some(w) ==> made matches Construction::Ready(v)
                && v.spec_raw() == w && v.spec_ctx() == *ctx && spec_kind(v.spec_raw())
                == expected_kind(value@),
            value matches Primitive::Str(s) ==> made matches Construction::Engine(
                Call::NewStringLen { bytes },
            ) && bytes@ == encode_utf8(s@),
            value matches Primitive::InvalidStr(s) ==> made matches Construction::Engine(
                Call::NewStringLen { bytes },
            ) && bytes@ == encode_utf8(s@),
    {
        match value {
            Primitive::Undefined => Construction::Ready(
                Value::from_raw_unchecked(ctx, word(JS_TAG_UNDEFINED, 0)),
            ),
            Primitive::Null => Construction::Ready(
                Value::from_raw_unchecked(ctx, word(JS_TAG_NULL, 0)),
            ),
            Primitive::Bool(b) => Construction::Ready(
                Value::from_raw_unchecked(ctx, word(JS_TAG_BOOL, if b { 1 } else { 0 })),
            ),
            Primitive::I32(x) => Construction::Ready(
                Value::from_raw_unchecked(ctx, word(JS_TAG_INT, x)),
            ),
            Primitive::I64(x) => {
                if -0x8000_0000 <= x && x <= 0x7fff_ffff {
                    Construction::Ready(Value::from_raw_unchecked(ctx, word(JS_TAG_INT, x as i32)))
                } else {
                    Construction::Ready(Value::from_raw_unchecked(ctx, number_word(from_i64(x))))
                }
            },
            Primitive::F64(bits) => Construction::Ready(
                Value::from_raw_unchecked(ctx, number_word(bits)),
            ),
            Primitive::Str(s) => Construction::Engine(
                Call::NewStringLen { bytes: copy_bytes(s.as_str().as_bytes()) },
            ),
            Primitive::InvalidStr(s) => Construction::Engine(
                Call::NewStringLen { bytes: copy_bytes(s.as_str().as_bytes()) },
            ),
            Primitive::Symbol(_) => unreached(),
        }
    }

    /// Returns the kind of value.
    pub fn kind(&self) -> (k: ValueKind)
        ensures
            k == spec_kind(self.spec_raw()),
    {
        kind(self.raw)
    }

    /// Returns the tag of the word, with every double under one tag.
    pub fn tag(&self) -> (t: i32)
        ensures
            t == spec_tag(self.spec_raw()),
    {
        tag(self.raw)
    }

    /// Maps the value into a primitive.  `text` holds the engine's bytes
    /// for the string form of the value, `None` where the engine gave none;
    /// it is read for strings and symbols only.
    pub fn as_primitive(&self, text: Option<&[u8]>) -> (p: Option<Primitive>)
        ensures
            primitive_view(p) == spec_as_primitive(self.spec_raw(), bytes_view(text)),
    {
        match self.kind() {
            ValueKind::Undefined => Some(Primitive::Undefined),
            ValueKind::Null => Some(Primitive::Null),
            ValueKind::Number => {
                if self.tag() == JS_TAG_INT {
                    Some(Primitive::I32(self.i32_unchecked()))
                } else {
                    Some(Primitive::F64(float_bits(self.raw)))
                }
            },
            ValueKind::Boolean => Some(Primitive::Bool(self.is_true(text))),
            ValueKind::String => match text {
                Some(bytes) => match utf8_text(bytes) {
                    Some(s) => Some(Primitive::Str(s)),
                    None => Some(Primitive::InvalidStr(utf8_lossy(bytes))),
                },
                None => Some(Primitive::Str(String::new())),
            },
            ValueKind::Symbol => match text {
                Some(bytes) => match utf8_text(bytes) {
                    Some(s) => Some(Primitive::Symbol(s)),
                    None => None,
                },
                None => None,
            },
            ValueKind::Exception | ValueKind::Object => None,
        }
    }

    /// Reads the engine's answer to the request for the value's string
    /// form: its bytes, or the exception that the engine raised instead.
    /// Bytes that are not UTF-8 are an error.
    pub fn as_str(&self, reply: Result<&[u8], JsException>) -> (res: Result<String, Error>)
        ensures
            reply matches Err(e) ==> res == Err::<String, Error>(Error::JsException(e)),
            reply matches Ok(bytes) ==> (valid_utf8(bytes@) ==> (res matches Ok(s) && s@
                == decode_utf8(bytes@))),
            reply matches Ok(bytes) ==> (!valid_utf8(bytes@) ==> res == Err::<String, Error>(
                Error::Utf8Error,
            )),
    {
        match reply {
            Ok(bytes) => match utf8_text(bytes) {
                Some(s) => Ok(s),
                None => Err(Error::Utf8Error),
            },
            Err(e) => Err(self.ctx.last_error(e)),
        }
    }

    /// Reads the engine's bytes for the value's string form, replacing what
    /// is not UTF-8.  Where the engine gave no bytes the text is empty.
    pub fn to_string_lossy(&self, text: Option<&[u8]>) -> (s: String)
        ensures
            text matches Some(bytes) ==> s@ == lossy_text(bytes@),
            text matches Some(bytes) ==> (valid_utf8(bytes@) ==> s@ == decode_utf8(bytes@)),
            text is None ==> s@ == Seq::<char>::empty(),
    {
        match text {
            Some(bytes) => utf8_lossy(bytes),
            None => String::new(),
        }
    }

    /// If the value is a number that a double holds without loss, returns
    /// the double by its bit pattern.  `wide` is the engine's 64-bit reading
    /// of the value and is read for big integers only.
    pub fn as_f64(&self, wide: i64) -> (res: Option<u64>)
        ensures
            res == spec_as_f64(self.spec_raw(), wide),
    {
        let t: i32 = self.tag();
        if t == JS_TAG_FLOAT64 {
            Some(float_bits(self.raw))
        } else if t == JS_TAG_BIG_INT {
            from_i64_exact(wide)
        } else if t == JS_TAG_INT {
            Some(from_i64(self.i32_unchecked() as i64))
        } else {
            None
        }
    }

    /// If the value is a number that a 32-bit integer holds without loss,
    /// returns it.  `wide` is the engine's 64-bit reading of the value and
    /// is read for big integers only.
    pub fn as_i32(&self, wide: i64) -> (res: Option<i32>)
        ensures
            res == spec_as_i32(self.spec_raw(), wide),
    {
        let t: i32 = self.tag();
        if t == JS_TAG_FLOAT64 {
            to_i32(float_bits(self.raw))
        } else if t == JS_TAG_INT {
            Some(self.i32_unchecked())
        } else if t == JS_TAG_BIG_INT {
            if -0x8000_0000 <= wide && wide <= 0x7fff_ffff {
                Some(wide as i32)
            } else {
                None
            }
        } else {
            None
        }
    }

    /// Returns the value as a 64-bit integer.  `wide` is the engine's
    /// 64-bit reading of the value and is read for big integers only.
    pub fn as_i64(&self, wide: i64) -> (res: Option<i64>)
        ensures
            res == spec_as_i64(self.spec_raw(), wide),
    {
        if self.tag() == JS_TAG_BIG_INT {
            Some(wide)
        } else {
            match self.as_i32(wide) {
                Some(n) => Some(n as i64),
                None => None,
            }
        }
    }

    /// Returns `true` if this value is truthy.  `text` holds the engine's
    /// bytes for the string form of the value and is read for strings only.
    pub fn is_true(&self, text: Option<&[u8]>) -> (res: bool)
        ensures
            res == spec_is_true(self.spec_raw(), bytes_view(text)),
    {
        match self.kind() {
            ValueKind::Undefined | ValueKind::Null => false,
            ValueKind::Number => {
                if self.tag() == JS_TAG_INT {
                    self.i32_unchecked() != 0
                } else {
                    let bits: u64 = float_bits(self.raw);
                    !is_zero_bits(bits) && !is_nan_bits(bits)
                }
            },
            ValueKind::Boolean => self.raw == word(JS_TAG_BOOL, 1),
            ValueKind::String => match text {
                Some(bytes) => bytes.len() > 0,
                None => false,
            },
            ValueKind::Symbol | ValueKind::Exception | ValueKind::Object => true,
        }
    }

    /// Makes the call that looks a property up.  The word that the engine
    /// returns is owned and goes through `from_raw`.
    pub fn get_property(&self, key: &str) -> (res: Result<Call, Error>)
        ensures
            res is Ok <==> nul_free(key.spec_bytes()),
            res matches Ok(call) ==> call matches Call::GetPropertyStr { this, key: k } && this
                == self.spec_raw() && k@ == key.spec_bytes().push(0),
            res matches Err(e) ==> e matches Error::NulError(at) && first_nul_at(
                key.spec_bytes(),
                at as int,
            ),
    {
        match c_string(key) {
            Ok(k) => Ok(Call::GetPropertyStr { this: self.raw, key: k }),
            Err(e) => Err(e),
        }
    }

    /// Makes the call that sets a property.  The engine keeps the word of
    /// `value`, so a unit of its count is taken for the engine first; the
    /// caller's value stays the caller's.
    pub fn set_property(&self, key: &str, value: &Value) -> (res: Result<Call, Error>)
        ensures
            res is Ok <==> nul_free(key.spec_bytes()),
            res matches Ok(call) ==> call matches Call::DefinePropertyValueStr {
                this,
                key: k,
                value: v,
                flags,
                acquire,
            } && this == self.spec_raw() && k@ == key.spec_bytes().push(0) && v
                == value.spec_raw() && flags == JS_PROP_C_W_E && acquire == spec_acquire(
                value.spec_raw(),
            ),
            res matches Err(e) ==> e matches Error::NulError(at) && first_nul_at(
                key.spec_bytes(),
                at as int,
            ),
    {
        match c_string(key) {
            Ok(k) => Ok(
                Call::DefinePropertyValueStr {
                    this: self.raw,
                    key: k,
                    value: value.raw,
                    flags: JS_PROP_C_W_E,
                    acquire: acquire(value.raw),
                },
            ),
            Err(e) => Err(e),
        }
    }

    /// Makes the call that looks a property up by index.  An index beyond
    /// 32 bits is refused.
    pub fn get_by_index(&self, idx: usize) -> (res: Result<Call, Error>)
        ensures
            idx <= u32::MAX ==> res == Ok::<Call, Error>(
                Call::GetPropertyUint32 { this: self.spec_raw(), index: idx as u32 },
            ),
            idx > u32::MAX ==> res == Err::<Call, Error>(Error::IntOverflow),
    {
        if idx > 0xffff_ffff {
            return Err(Error::IntOverflow);
        }
        Ok(Call::GetPropertyUint32 { this: self.raw, index: idx as u32 })
    }

    /// Makes the call that appends `value` to an array.  `length` is the
    /// array's `length` property and `wide` the engine's 64-bit reading of
    /// it, read where it is a big integer.  A length that is no 32-bit
    /// index is refused.
    pub fn append(&self, value: &Value, length: &Value, wide: i64) -> (res: Result<Call, Error>)
        ensures
            spec_next_index(length.spec_raw(), wide) matches Some(index) ==> res == Ok::<
                Call,
                Error,
            >(
                Call::DefinePropertyValueUint32 {
                    this: self.spec_raw(),
                    index,
                    value: value.spec_raw(),
                    flags: JS_PROP_C_W_E,
                    acquire: spec_acquire(value.spec_raw()),
                },
            ),
            spec_next_index(length.spec_raw(), wide) is None ==> res == Err::<Call, Error>(
                Error::InvalidLength,
            ),
    {
        let index: u32 = match length.as_i64(wide) {
            Some(x) => {
                if 0 <= x && x <= 0xffff_ffff {
                    x as u32
                } else {
                    return Err(Error::InvalidLength);
                }
            },
            None => {
                return Err(Error::InvalidLength);
            },
        };
        Ok(
            Call::DefinePropertyValueUint32 {
                this: self.raw,
                index,
                value: value.raw,
                flags: JS_PROP_C_W_E,
                acquire: acquire(value.raw),
            },
        )
    }

    /// Makes the call that places `value` at an index.  An index beyond 32
    /// bits does not narrow to the engine's index and is refused as an
    /// overflow.
    pub fn set_by_index(&self, idx: usize, value: &Value) -> (res: Result<Call, Error>)
        ensures
            idx <= u32::MAX ==> res == Ok::<Call, Error>(
                Call::DefinePropertyValueUint32 {
                    this: self.spec_raw(),
                    index: idx as u32,
                    value: value.spec_raw(),
                    flags: JS_PROP_C_W_E,
                    acquire: spec_acquire(value.spec_raw()),
                },
            ),
            idx > u32::MAX ==> res == Err::<Call, Error>(Error::IntOverflow),
    {
        if idx > 0xffff_ffff {
            return Err(Error::IntOverflow);
        }
        Ok(
            Call::DefinePropertyValueUint32 {
                this: self.raw,
                index: idx as u32,
                value: value.raw,
                flags: JS_PROP_C_W_E,
                acquire: acquire(value.raw),
            },
        )
    }

    /// Reads the engine's answer to the question whether the value is a
    /// function.
    pub fn is_function(&self, answer: i32) -> (res: bool)
        ensures
            res == (answer != 0),
    {
        answer != 0
    }

    /// Reads the engine's answer to the question whether the value is an
    /// array; a negative answer reports a failure and counts as no.
    pub fn is_array(&self, answer: i32) -> (res: bool)
        ensures
            res == (answer == 1),
    {
        answer == 1
    }

    /// Makes the call that calls the value as a function.  The engine
    /// counts the arguments in 32 bits.
    pub fn call(&self, receiver: &Value, args: &[Value]) -> (call: Call)
        requires
            args@.len() <= i32::MAX,
        ensures
            call matches Call::Call { func, this, args: words } && func == self.spec_raw() && this
                == receiver.spec_raw() && words_held(words) == words_of(args@),
    {
        let mut words = words_new();
        let mut i: usize = 0;
        assert(words_held(words) =~= words_of(args@.subrange(0, 0)));
        while i < args.len()
            invariant
                0 <= i <= args.len(),
                args@.len() <= i32::MAX,
                words_held(words) == words_of(args@.subrange(0, i as int)),
            decreases args.len() - i,
        {
            words_push(&mut words, slice_index_get(args, i).raw);
            assert(words_held(words) =~= words_of(args@.subrange(0, i as int + 1)));
            i += 1;
        }
        assert(args@.subrange(0, i as int) == args@);
        Call::Call { func: self.raw, this: receiver.raw, args: words }
    }

    /// Returns the length of the value: what its `length` property holds.
    /// `length` is that property, `None` where it could not be read, and
    /// `wide` the engine's 64-bit reading of it, read where it is a big
    /// integer.
    pub fn len(&self, length: Option<&Value>, wide: i64) -> (n: Option<usize>)
        ensures
            n == spec_len(
                self.spec_raw(),
                match length {
                    Some(l) => Some(l.spec_raw()),
                    None => None,
                },
                wide,
            ),
    {
        match self.kind() {
            ValueKind::Undefined | ValueKind::Null | ValueKind::Number | ValueKind::Boolean => None,
            _ => match length {
                Some(l) => match l.as_i64(wide) {
                    Some(x) => {
                        if 0 <= x && x as u64 <= usize::MAX as u64 {
                            Some(x as usize)
                        } else {
                            None
                        }
                    },
                    None => None,
                },
                None => None,
            },
        }
    }

    /// Returns a reference to the context.
    pub fn ctx(&self) -> (c: &Context)
        ensures
            *c == self.spec_ctx(),
    {
        &self.ctx
    }

    /// Reads the low half of the word as an integer.
    pub fn i32_unchecked(&self) -> (n: i32)
        ensures
            n == spec_payload(self.spec_raw()),
    {
        payload(self.raw)
    }

    /// Reads the word; the value keeps its unit.
    pub fn as_raw(&self) -> (raw: u64)
        ensures
            raw == self.spec_raw(),
    {
        self.raw
    }

    /// Gives the word up together with the unit that the value owned: the
    /// count is not touched.
    pub fn into_raw(self) -> (raw: u64)
        ensures
            raw == self.spec_raw(),
    {
        self.raw
    }

    /// Makes a second owner of the word, and says what is to be done to the
    /// word's count for it.
    pub fn clone(&self) -> (res: (Value, RefOp))
        ensures
            res.0.spec_raw() == self.spec_raw(),
            res.0.spec_ctx() == self.spec_ctx(),
            res.1 == spec_acquire(self.spec_raw()),
    {
        (Value { raw: self.raw, ctx: self.ctx }, acquire(self.raw))
    }

    /// Ends the value, and says what is to be done to the word's count for
    /// it.
    pub fn drop(self) -> (op: RefOp)
        ensures
            op == spec_release(self.spec_raw()),
    {
        release(self.raw)
    }

    /// Makes the call that creates a native function of the given name,
    /// with one declared argument.  The word that the engine returns goes
    /// through `from_raw`.
    pub fn from_func(ctx: &Context, name: &str) -> (res: Result<Call, Error>)
        ensures
            res is Ok <==> nul_free(name.spec_bytes()),
            res matches Ok(call) ==> call matches Call::NewCFunction2 {
                name: n,
                length,
                cproto,
                magic,
            } && n@ == name.spec_bytes().push(0) && length == 1 && cproto == JS_CFUNC_GENERIC
                && magic == 0,
            res matches Err(e) ==> e matches Error::NulError(at) && first_nul_at(
                name.spec_bytes(),
                at as int,
            ),
    {
        match c_string(name) {
            Ok(n) => Ok(
                Call::NewCFunction2 { name: n, length: 1, cproto: JS_CFUNC_GENERIC, magic: 0 },
            ),
            Err(e) => Err(e),
        }
    }

    /// Makes the calls that fill a fresh array with the items, in order:
    /// item `i` goes to index `i`.  The engine counts the elements of an
    /// array in 32 bits.
    pub fn from_iter(array: &Value, items: &[Value]) -> (calls: Vec<Call>)
        requires
            items@.len() <= 0x1_0000_0000,
        ensures
            calls@.len() == items@.len(),
            forall|i: int|
                0 <= i < items@.len() ==> #[trigger] calls@[i] == (Call::DefinePropertyValueUint32 {
                    this: array.spec_raw(),
                    index: i as u32,
                    value: items@[i].spec_raw(),
                    flags: JS_PROP_C_W_E,
                    acquire: spec_acquire(items@[i].spec_raw()),
                }),
    {
        let mut calls: Vec<Call> = Vec::new();
        let mut i: usize = 0;
        while i < items.len()
            invariant
                0 <= i <= items.len(),
                items@.len() <= 0x1_0000_0000,
                calls@.len() == i,
                forall|j: int|
                    0 <= j < i ==> #[trigger] calls@[j] == (Call::DefinePropertyValueUint32 {
                        this: array.spec_raw(),
                        index: j as u32,
                        value: items@[j].spec_raw(),
                        flags: JS_PROP_C_W_E,
                        acquire: spec_acquire(items@[j].spec_raw()),
                    }),
            decreases items.len() - i,
        {
            let item = slice_index_get(items, i);
            calls.push(
                Call::DefinePropertyValueUint32 {
                    this: array.raw,
                    index: i as u32,
                    value: item.raw,
                    flags: JS_PROP_C_W_E,
                    acquire: acquire(item.raw),
                },
            );
            i += 1;
        }
        calls
    }

    /// Wraps the empty array that the engine made.
    pub fn new_array(ctx: &Context, raw: u64) -> (v: Value)
        ensures
            v.spec_raw() == raw,
            v.spec_ctx() == *ctx,
    {
        Value::from_raw_unchecked(ctx, raw)
    }

    /// Wraps the empty object that the engine made.
    pub fn new_object(ctx: &Context, raw: u64) -> (v: Value)
        ensures
            v.spec_raw() == raw,
            v.spec_ctx() == *ctx,
    {
        Value::from_raw_unchecked(ctx, raw)
    }
}

/// The kind that the value of a primitive has.
pub open spec fn expected_kind(p: PrimitiveView) -> ValueKind {
    match p {
        PrimitiveView::Undefined => ValueKind::Undefined,
        PrimitiveView::Null => ValueKind::Null,
        PrimitiveView::Bool(_) => ValueKind::Boolean,
        PrimitiveView::I32(_) | PrimitiveView::I64(_) | PrimitiveView::F64(_) => ValueKind::Number,
        PrimitiveView::Str(_) | PrimitiveView::InvalidStr(_) => ValueKind::String,
        PrimitiveView::Symbol(_) => ValueKind::Symbol,
    }
}

/// Undefined, null, a boolean or a 32-bit integer, made into a value, has
/// the kind of the primitive and maps back to the primitive, whatever the
/// engine says of its string form.
pub proof fn lemma_scalar_round_trip(p: PrimitiveView, text: Option<Seq<u8>>)
    requires
        p is Undefined || p is Null || p is Bool || p is I32,
    ensures
        spec_inline_word(p) is Some,
        0 <= spec_inline_word(p).unwrap() <= u64::MAX,
        spec_kind(spec_inline_word(p).unwrap() as u64) == expected_kind(p),
        spec_as_primitive(spec_inline_word(p).unwrap() as u64, text) == Some(p),
{
    match p {
        PrimitiveView::Undefined => lemma_word_fields(JS_TAG_UNDEFINED, 0),
        PrimitiveView::Null => lemma_word_fields(JS_TAG_NULL, 0),
        PrimitiveView::Bool(b) => {
            lemma_word_fields(JS_TAG_BOOL, 0);
            lemma_word_fields(JS_TAG_BOOL, 1);
        },
        PrimitiveView::I32(x) => lemma_word_fields(JS_TAG_INT, x),
        _ => {},
    }
}

/// A string value whose engine text is the encoding of `s` maps back to the
/// string `s`, and is truthy exactly where `s` is not empty.
pub proof fn lemma_string_round_trip(raw: u64, s: Seq<char>)
    requires
        spec_kind(raw) == ValueKind::String,
    ensures
        spec_as_primitive(raw, Some(encode_utf8(s))) == Some(PrimitiveView::Str(s)),
        spec_is_true(raw, Some(encode_utf8(s))) == (s.len() > 0),
{
    vstd::utf8::encode_utf8_valid_utf8(s);
    vstd::utf8::encode_utf8_decode_utf8(s);
    if s.len() == 0 {
        assert(encode_utf8(s).len() == 0);
    } else {
        vstd::utf8::encode_utf8_first_scalar(s);
    }
}

/// A 64-bit integer that 32 bits hold becomes a number that maps back to
/// the 32-bit integer.
pub proof fn lemma_small_i64_round_trip(x: i64, text: Option<Seq<u8>>)
    requires
        i32::MIN <= x <= i32::MAX,
    ensures
        spec_inline_word(PrimitiveView::I64(x)) is Some,
        spec_kind(spec_inline_word(PrimitiveView::I64(x)).unwrap() as u64) == ValueKind::Number,
        spec_as_primitive(spec_inline_word(PrimitiveView::I64(x)).unwrap() as u64, text) == Some(
            PrimitiveView::I32(x as i32),
        ),
{
    lemma_word_fields(JS_TAG_INT, x as i32);
}

/// A 64-bit integer that 32 bits do not hold becomes a number that maps
/// back to the double nearest to it.
pub proof fn lemma_wide_i64_round_trip(x: i64, text: Option<Seq<u8>>)
    requires
        !(i32::MIN <= x <= i32::MAX),
    ensures
        spec_inline_word(PrimitiveView::I64(x)) is Some,
        spec_kind(spec_inline_word(PrimitiveView::I64(x)).unwrap() as u64) == ValueKind::Number,
        spec_as_primitive(spec_inline_word(PrimitiveView::I64(x)).unwrap() as u64, text) == Some(
            PrimitiveView::F64(nearest_double(x as int) as u64),
        ),
{
    lemma_exact_double(x as int);
    let bits = nearest_double(x as int) as u64;
    assert(!bits_are_nan(bits)) by {
        assert(crate::float::exponent(bits) < 0x7ff);
    }
    lemma_double_round_trip(bits, text);
}

/// An integer that is a double itself reads back, as a double, as the
/// double that denotes it.
pub proof fn lemma_integer_as_f64(x: i32)
    ensures
        spec_as_f64(spec_word(JS_TAG_INT as int, x as int) as u64, 0) matches Some(bits)
            && crate::float::int_value(bits) == Some(x as int),
{
    lemma_word_fields(JS_TAG_INT, x);
    lemma_exact_double(x as int);
    crate::float::lemma_i32_is_exact(x);
}

/// A double that is neither a 32-bit integer nor a NaN becomes a number
/// that maps back to the same double.
pub proof fn lemma_double_round_trip(bits: u64, text: Option<Seq<u8>>)
    requires
        spec_to_i32(bits) is None,
        !bits_are_nan(bits),
    ensures
        spec_kind(spec_number_word(bits) as u64) == ValueKind::Number,
        spec_as_primitive(spec_number_word(bits) as u64, text) == Some(PrimitiveView::F64(bits)),
{
    lemma_float_word(bits);
}

/// Zero and NaN are false, and so is the empty string; every object,
/// function and symbol is true.
pub proof fn lemma_truthiness(raw: u64, bits: u64, text: Option<Seq<u8>>)
    ensures
        !spec_is_true(spec_word(JS_TAG_INT as int, 0) as u64, text),
        bits_are_zero(bits) || bits_are_nan(bits) ==> !spec_is_true(
            spec_float_word(bits) as u64,
            text,
        ),
        spec_kind(raw) == ValueKind::String && text == Some(Seq::<u8>::empty()) ==> !spec_is_true(
            raw,
            text,
        ),
        spec_kind(raw) == ValueKind::Object || spec_kind(raw) == ValueKind::Symbol ==> spec_is_true(
            raw,
            text,
        ),
{
    lemma_word_fields(JS_TAG_INT, 0);
    lemma_float_word(bits);
}

} // verus!
