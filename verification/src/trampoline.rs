//! What happens when the engine calls a native function: the arguments
//! become owned values, and the function's result becomes the word, or the
//! error, that the engine gets back.

use vstd::prelude::*;
use vstd::slice::slice_index_get;
use vstd::string::StringSliceAdditionalSpecFns;
use crate::context::Context;
use crate::engine::nul_free;
use crate::error::Error;
use crate::refcount::{acquire, spec_acquire, RefOp};
use crate::value::Value;
use smallvec::SmallVec;

verus! {

/// What a native function hands back to the engine.
#[derive(Debug, PartialEq, Eq)]
pub enum Reply {
    /// The word of the result.  The engine takes over the unit that the
    /// result owned.
    Return(u64),
    /// The message of an internal error that the engine is to raise: a
    /// NUL-terminated string without any other NUL.
    Throw(Vec<u8>),
}

/// The arguments of a native call as owned values, in a small vector of the
/// `smallvec` crate, which keeps up to eight of them inline.
#[verifier::external_body]
#[derive(Debug, PartialEq, Eq)]
pub struct ArgValues {
    inner: SmallVec<[Value; 8]>,
}

/// The values that an argument vector holds, in order.
pub uninterp spec fn values_held(v: ArgValues) -> Seq<Value>;

/// `SmallVec::new`: a vector that holds nothing.
#[verifier::external_body]
pub(crate) fn values_new() -> (v: ArgValues)
    ensures
        values_held(v) == Seq::<Value>::empty(),
{
    ArgValues { inner: SmallVec::new() }
}

/// `SmallVec::push`: the value is added behind the others.  The vector
/// grows by doubling, which the bound on its length keeps within the
/// machine's sizes.
#[verifier::external_body]
pub(crate) fn values_push(v: &mut ArgValues, value: Value)
    requires
        values_held(*old(v)).len() < i32::MAX,
    ensures
        values_held(*final(v)) == values_held(*old(v)).push(value),
{
    v.inner.push(value)
}

/// `SmallVec::as_slice`: the values that the vector holds, in order.
#[verifier::external_body]
pub(crate) fn values_as_slice(v: &ArgValues) -> (values: &[Value])
    ensures
        values@ == values_held(*v),
{
    v.inner.as_slice()
}

impl ArgValues {
    /// The values as a slice, in order.
    pub fn as_slice(&self) -> (values: &[Value])
        ensures
            values@ == values_held(*self),
    {
        values_as_slice(self)
    }
}

/// The bytes of a sequence that are not NUL, in their order.
pub open spec fn strip_nul(bytes: Seq<u8>) -> Seq<u8>
    decreases bytes.len(),
{
    if bytes.len() == 0 {
        Seq::empty()
    } else if bytes.last() == 0 {
        strip_nul(bytes.drop_last())
    } else {
        strip_nul(bytes.drop_last()).push(bytes.last())
    }
}

/// The owned values of the words that the engine passed.
pub open spec fn wraps(values: Seq<Value>, ctx: Context, words: Seq<u64>) -> bool {
    &&& values.len() == words.len()
    &&& forall|i: int|
        0 <= i < words.len() ==> (#[trigger] values[i]).spec_raw() == words[i]
            && values[i].spec_ctx() == ctx
}

/// The units that owning the words asks for: one for each word, in order.
pub open spec fn acquisitions(words: Seq<u64>) -> Seq<RefOp> {
    words.map_values(|w: u64| spec_acquire(w))
}

/// Stripping leaves no NUL, and leaves a sequence without NUL as it is.
pub proof fn lemma_strip_nul(bytes: Seq<u8>)
    ensures
        nul_free(strip_nul(bytes)),
        strip_nul(bytes).len() <= bytes.len(),
        nul_free(bytes) ==> strip_nul(bytes) == bytes,
    decreases bytes.len(),
{
    if bytes.len() > 0 {
        lemma_strip_nul(bytes.drop_last());
        if nul_free(bytes) {
            assert(nul_free(bytes.drop_last()));
            assert(bytes.last() != 0);
            assert(bytes.drop_last().push(bytes.last()) == bytes);
        }
    }
}

/// Removes the NUL bytes of a message.
pub fn nul_safe(bytes: &[u8]) -> (out: Vec<u8>)
    ensures
        out@ == strip_nul(bytes@),
{
    let mut out: Vec<u8> = Vec::new();
    let mut i: usize = 0;
    while i < bytes.len()
        invariant
            0 <= i <= bytes.len(),
            out@ == strip_nul(bytes@.subrange(0, i as int)),
        decreases bytes.len() - i,
    {
        let b: u8 = *slice_index_get(bytes, i);
        assert(bytes@.subrange(0, i as int + 1).drop_last() == bytes@.subrange(0, i as int));
        if b != 0 {
            out.push(b);
        }
        i += 1;
    }
    assert(bytes@.subrange(0, i as int) == bytes@);
    out
}

/// Wraps `this` and the arguments of a call as owned values of a context
/// that stands for the engine's.  The engine keeps its own units of these
/// words, so the host takes one more of each: the operations come in the
/// order of the words, that for `this` first.  The engine counts the
/// arguments in 32 bits.
pub fn arguments(ctx: &Context, this_val: u64, argv: &[u64]) -> (res: (
    Value,
    ArgValues,
    Vec<RefOp>,
))
    requires
        argv@.len() <= i32::MAX,
    ensures
        res.0.spec_raw() == this_val,
        res.0.spec_ctx() == *ctx,
        wraps(values_held(res.1), *ctx, argv@),
        res.2@ == acquisitions(seq![this_val] + argv@),
{
    let this = Value::from_raw_unchecked(ctx, this_val);
    let mut args = values_new();
    let mut ops: Vec<RefOp> = Vec::new();
    ops.push(acquire(this_val));
    assert(ops@ =~= acquisitions(seq![this_val] + argv@.subrange(0, 0)));
    let mut i: usize = 0;
    while i < argv.len()
        invariant
            0 <= i <= argv.len(),
            argv@.len() <= i32::MAX,
            wraps(values_held(args), *ctx, argv@.subrange(0, i as int)),
            ops@ == acquisitions(seq![this_val] + argv@.subrange(0, i as int)),
        decreases argv.len() - i,
    {
        let w: u64 = *slice_index_get(argv, i);
        values_push(&mut args, Value::from_raw_unchecked(ctx, w));
        ops.push(acquire(w));
        assert(ops@ =~= acquisitions(seq![this_val] + argv@.subrange(0, i as int + 1)));
        i += 1;
    }
    assert(argv@.subrange(0, i as int) == argv@);
    (this, args, ops)
}

/// Makes the reply that raises an internal error with the given message,
/// its NUL bytes removed.
pub fn throw(message: &str) -> (reply: Reply)
    ensures
        reply matches Reply::Throw(bytes) && bytes@ == strip_nul(message.spec_bytes()).push(0),
{
    let mut bytes = nul_safe(message.as_bytes());
    bytes.push(0);
    Reply::Throw(bytes)
}

/// Turns the result of a native function into what the engine gets back:
/// the word of the value, handed on with its unit, or an internal error
/// whose message is the error's text.
pub fn reply(result: Result<Value, Error>) -> (reply: Reply)
    ensures
        result matches Ok(v) ==> reply == Reply::Return(v.spec_raw()),
        result matches Err(e) ==> (reply matches Reply::Throw(bytes) && bytes@ == strip_nul(
            vstd::utf8::encode_utf8(e.spec_describe()),
        ).push(0)),
{
    match result {
        Ok(v) => Reply::Return(v.into_raw()),
        Err(e) => {
            let text = e.describe();
            throw(text.as_str())
        },
    }
}

} // verus!
