//! The built-in console: how it is put together, and what it does with its
//! arguments.

use vstd::prelude::*;
use vstd::slice::slice_index_get;
use vstd::string::StringExecFns;
use vstd::string::StringSliceAdditionalSpecFns;
use crate::context::Context;
use crate::engine::{lemma_ascii_is_nul_free, Call, JS_CFUNC_GENERIC, JS_PROP_C_W_E};
use crate::refcount::spec_acquire;
use crate::tag::{spec_word, word, JS_TAG_UNDEFINED};
use crate::value::Value;

verus! {

/// The texts, with one space between each two.
pub open spec fn joined(parts: Seq<Seq<char>>) -> Seq<char>
    decreases parts.len(),
{
    if parts.len() == 0 {
        Seq::empty()
    } else if parts.len() == 1 {
        parts[0]
    } else {
        joined(parts.drop_last()) + seq![' '] + parts.last()
    }
}

/// The texts of a slice of strings.
pub open spec fn texts_of(args: Seq<String>) -> Seq<Seq<char>> {
    args.map_values(|s: String| s@)
}

/// The line that `console.log` writes for arguments with the given string
/// forms, and the value that it returns to the script: undefined.
pub fn log(ctx: &Context, args: &[String]) -> (res: (String, Value))
    ensures
        res.0@ == "[console] "@ + joined(texts_of(args@)),
        res.1.spec_raw() == spec_word(JS_TAG_UNDEFINED as int, 0),
        res.1.spec_ctx() == *ctx,
{
    let mut buf = String::new();
    let mut i: usize = 0;
    while i < args.len()
        invariant
            0 <= i <= args.len(),
            buf@ == joined(texts_of(args@.subrange(0, i as int))),
        decreases args.len() - i,
    {
        proof {
            reveal_strlit(" ");
            let upto = texts_of(args@.subrange(0, i as int + 1));
            assert(upto.drop_last() =~= texts_of(args@.subrange(0, i as int)));
            assert(upto.last() == args@[i as int]@);
            assert(" "@ =~= seq![' ']);
        }
        if i > 0 {
            buf.append(" ");
        }
        buf.append(slice_index_get(args, i).as_str());
        assert(buf@ =~= joined(texts_of(args@.subrange(0, i as int + 1))));
        i += 1;
    }
    assert(args@.subrange(0, i as int) == args@);
    let line = String::from_str("[console] ").concat(buf.as_str());
    (line, Value::from_raw_unchecked(ctx, word(JS_TAG_UNDEFINED, 0)))
}

proof fn lemma_log_is_nul_free()
    ensures
        crate::engine::nul_free("log".spec_bytes()),
{
    reveal_strlit("log");
    assert("log"@ =~= seq!['l', 'o', 'g']);
    lemma_ascii_is_nul_free("log");
}

/// Makes the call that creates the console's native function `log`.
pub fn log_function(ctx: &Context) -> (call: Call)
    ensures
        call matches Call::NewCFunction2 { name, length, cproto, magic } && name@
            == "log".spec_bytes().push(0) && length == 1 && cproto == JS_CFUNC_GENERIC && magic
            == 0,
{
    proof {
        lemma_log_is_nul_free();
    }
    match Value::from_func(ctx, "log") {
        Ok(call) => call,
        Err(_) => unreached(),
    }
}

/// Puts the console together: wraps the empty object that the engine made
/// for it, and makes the call that defines its property `log` as the native
/// function `log`.
pub fn make_basic_console(ctx: &Context, object: u64, log: &Value) -> (res: (Value, Call))
    ensures
        res.0.spec_raw() == object,
        res.0.spec_ctx() == *ctx,
        res.1 matches Call::DefinePropertyValueStr { this, key, value, flags, acquire } && this
            == object && key@ == "log".spec_bytes().push(0) && value == log.spec_raw() && flags
            == JS_PROP_C_W_E && acquire == spec_acquire(log.spec_raw()),
{
    proof {
        lemma_log_is_nul_free();
    }
    let console = Value::new_object(ctx, object);
    match console.set_property("log", log) {
        Ok(call) => (console, call),
        Err(_) => unreached(),
    }
}

} // verus!
