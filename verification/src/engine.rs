//! Calls into the engine, with their arguments made ready, and the reading
//! of what the engine answers.

use vstd::prelude::*;
use vstd::string::StringSliceAdditionalSpecFns;
use vstd::slice::slice_index_get;
use crate::error::{Error, JsException};
use crate::refcount::RefOp;
use smallvec::SmallVec;

verus! {

/// Property flags of a plain data property: configurable, writable and
/// enumerable.
pub const JS_PROP_C_W_E: i32 = 7;

/// Evaluation of a source text as a global script.
pub const JS_EVAL_TYPE_GLOBAL: i32 = 0;

/// The prototype of a native function called with `this`, a count and an
/// argument array.
pub const JS_CFUNC_GENERIC: i32 = 0;

/// One call into the engine.  Strings are NUL-terminated and hold no other
/// NUL; indices fit the engine's 32 bits.
#[derive(Debug, PartialEq, Eq)]
pub enum Call {
    /// Evaluate `len` bytes of `code` under the script name `name`.
    Eval { code: Vec<u8>, len: usize, name: Vec<u8>, flags: i32 },
    /// Read the property `key` of `this`.  The engine returns an owned word.
    GetPropertyStr { this: u64, key: Vec<u8> },
    /// Read the property `index` of `this`.  The engine returns an owned word.
    GetPropertyUint32 { this: u64, index: u32 },
    /// Define the property `key` of `this`.  The engine keeps `value`, so
    /// `acquire` is done on its count first.
    DefinePropertyValueStr { this: u64, key: Vec<u8>, value: u64, flags: i32, acquire: RefOp },
    /// Define the property `index` of `this`.  The engine keeps `value`, so
    /// `acquire` is done on its count first.
    DefinePropertyValueUint32 { this: u64, index: u32, value: u64, flags: i32, acquire: RefOp },
    /// Call `func` on `this` with `args`.
    Call { func: u64, this: u64, args: ArgWords },
    /// Make a string of these bytes.
    NewStringLen { bytes: Vec<u8> },
    /// Make a native function of the given name and declared arity.
    NewCFunction2 { name: Vec<u8>, length: i32, cproto: i32, magic: i32 },
}

/// The argument words of a call, in a small vector of the `smallvec`
/// crate, which keeps up to ten of them inline.
#[verifier::external_body]
#[derive(Debug, PartialEq, Eq)]
pub struct ArgWords {
    inner: SmallVec<[u64; 10]>,
}

/// The words that an argument vector holds, in order.
pub uninterp spec fn words_held(v: ArgWords) -> Seq<u64>;

/// `SmallVec::new`: a vector that holds nothing.
#[verifier::external_body]
pub(crate) fn words_new() -> (v: ArgWords)
    ensures
        words_held(v) == Seq::<u64>::empty(),
{
    ArgWords { inner: SmallVec::new() }
}

/// `SmallVec::push`: the word is added behind the others.  The vector
/// grows by doubling, which the bound on its length keeps within the
/// machine's sizes.
#[verifier::external_body]
pub(crate) fn words_push(v: &mut ArgWords, word: u64)
    requires
        words_held(*old(v)).len() < i32::MAX,
    ensures
        words_held(*final(v)) == words_held(*old(v)).push(word),
{
    v.inner.push(word)
}

/// `SmallVec::as_slice`, copied into a vector: the words that the vector
/// holds, in order.
#[verifier::external_body]
pub(crate) fn words_to_vec(v: &ArgWords) -> (words: Vec<u64>)
    ensures
        words@ == words_held(*v),
{
    v.inner.as_slice().to_vec()
}

impl ArgWords {
    /// Copies the words out, in order.
    pub fn to_vec(&self) -> (words: Vec<u64>)
        ensures
            words@ == words_held(*self),
    {
        words_to_vec(self)
    }
}

/// No byte of the sequence is NUL.
pub open spec fn nul_free(bytes: Seq<u8>) -> bool {
    forall|i: int| 0 <= i < bytes.len() ==> bytes[i] != 0
}

/// The first NUL of the sequence stands at `at`.
pub open spec fn first_nul_at(bytes: Seq<u8>, at: int) -> bool {
    0 <= at < bytes.len() && bytes[at] == 0 && nul_free(bytes.subrange(0, at))
}

/// A text of ASCII characters other than NUL is encoded without a NUL.
pub proof fn lemma_ascii_is_nul_free(s: &str)
    requires
        forall|i: int| 0 <= i < s@.len() ==> '\0' < #[trigger] s@[i] <= '\u{7f}',
    ensures
        nul_free(s.spec_bytes()),
{
    assert(vstd::string::is_ascii(s));
    vstd::string::is_ascii_spec_bytes(s);
    let bytes = s.spec_bytes();
    assert forall|i: int| 0 <= i < bytes.len() implies bytes[i] != 0 by {
        assert(bytes[i] == s@[i] as u8);
    }
}

/// Makes a string ready for the engine: its bytes and a closing NUL.  A
/// string that holds a NUL itself is refused, with the place of the first.
pub fn c_string(text: &str) -> (res: Result<Vec<u8>, Error>)
    ensures
        res is Ok <==> nul_free(text.spec_bytes()),
        res matches Ok(bytes) ==> bytes@ == text.spec_bytes().push(0),
        res matches Err(e) ==> e matches Error::NulError(at) && first_nul_at(
            text.spec_bytes(),
            at as int,
        ),
{
    let bytes: &[u8] = text.as_bytes();
    let mut out: Vec<u8> = Vec::new();
    let mut i: usize = 0;
    while i < bytes.len()
        invariant
            bytes@ == text.spec_bytes(),
            0 <= i <= bytes.len(),
            out@ == bytes@.subrange(0, i as int),
            nul_free(bytes@.subrange(0, i as int)),
        decreases bytes.len() - i,
    {
        let b: u8 = *slice_index_get(bytes, i);
        if b == 0 {
            return Err(Error::NulError(i));
        }
        out.push(b);
        assert(out@ == bytes@.subrange(0, i as int + 1));
        i += 1;
    }
    assert(bytes@.subrange(0, i as int) == bytes@);
    out.push(0);
    Ok(out)
}

/// Reads the status that a defining call returned: a negative status means
/// that the engine holds a pending exception, here already captured.
pub fn check_status(rv: i32, pending: Option<JsException>) -> (res: Result<(), Error>)
    requires
        rv < 0 ==> pending is Some,
    ensures
        rv >= 0 ==> res == Ok::<(), Error>(()),
        rv < 0 ==> res == Err::<(), Error>(Error::JsException(pending.unwrap())),
{
    if rv < 0 {
        match pending {
            Some(e) => Err(Error::JsException(e)),
            None => unreached(),
        }
    } else {
        Ok(())
    }
}

} // verus!
