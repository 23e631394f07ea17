use worthless_js_rt::builtins::{log_function, make_basic_console};
use worthless_js_rt::capture::{Answer, Capture, Query};
use worthless_js_rt::context::{Builtin, VERSION};
use worthless_js_rt::refcount::RefOp;
use worthless_js_rt::engine::{check_status, Call};
use worthless_js_rt::error::StackProbe;
use worthless_js_rt::tag::word;
use worthless_js_rt::value::Construction;
use worthless_js_rt::{Context, Error, JsException, Runtime, Value};

#[test]
fn stack_is_kept_for_error_shaped_values_only() {
    let probe = |raw: u64| Some(StackProbe { raw, text: Some(b"at <script>:1".to_vec()) });
    let e = JsException::from_raw(Some(b"Error: boom"), true, probe(word(-7, 0x100)));
    assert_eq!(e.message(), "Error: boom");
    assert_eq!(e.stack(), Some("at <script>:1"));
    let e = JsException::from_raw(Some(b"boom"), false, probe(word(-7, 0x100)));
    assert_eq!(e.message(), "boom");
    assert_eq!(e.stack(), None);
    let e = JsException::from_raw(Some(b"Error: boom"), true, probe(word(3, 0)));
    assert_eq!(e.stack(), None);
    let e = JsException::from_raw(Some(b"Error: boom"), true, None);
    assert_eq!(e.stack(), None);
    let e = JsException::from_raw(
        Some(b"bad \xff"),
        true,
        Some(StackProbe { raw: word(-7, 0x100), text: None }),
    );
    assert_eq!(e.message(), "bad \u{fffd}");
    assert_eq!(e.stack(), Some(""));
    let e = JsException::from_raw(None, false, None);
    assert_eq!(e.message(), "");
}

#[test]
fn exception_words_become_errors() {
    let ctx = Context::borrow_raw_unchecked(2, 1);
    let thrown = JsException::from_raw(Some(b"42"), false, None);
    assert_eq!(
        Value::from_raw(&ctx, word(6, 0), Some(thrown.clone())),
        Err(Error::JsException(thrown.clone()))
    );
    let ok = Value::from_raw(&ctx, word(0, 5), Some(thrown.clone())).unwrap();
    assert_eq!(ok.into_raw(), 5);
    let ok = Value::from_raw(&ctx, word(-1, 0x100), None).unwrap();
    assert_eq!(ok.ctx(), &ctx);
    assert_eq!(check_status(-1, Some(thrown.clone())), Err(Error::JsException(thrown.clone())));
    assert_eq!(check_status(0, None), Ok(()));
    assert_eq!(check_status(1, Some(thrown.clone())), Ok(()));
    assert_eq!(ctx.last_error(thrown.clone()), Error::JsException(thrown));
}

#[test]
fn errors_have_their_texts() {
    let thrown = JsException::from_raw(Some(b"x"), false, None);
    assert_eq!(Error::RuntimeInit.describe(), "quickjs failed to initialize runtime");
    assert_eq!(Error::ContextInit.describe(), "quickjs failed to initialize context");
    assert_eq!(Error::NulError(3).describe(), "unexpected null byte");
    assert_eq!(Error::JsException(thrown).describe(), "JavaScript exception");
    assert_eq!(Error::Utf8Error.describe(), "utf-8 error");
    assert_eq!(Error::IntOverflow.describe(), "int overflow in number conversion");
    assert_eq!(Error::InvalidLength.describe(), "invalid array length");
}

#[test]
fn handles_follow_the_engine_addresses() {
    assert_eq!(Runtime::new(0), Err(Error::RuntimeInit));
    let rt = Runtime::new(0x10).unwrap();
    assert_eq!(rt.ptr(), 0x10);
    assert!(rt.is_owner());
    assert_eq!(Context::new(&rt, 0), Err(Error::ContextInit));
    assert_eq!(Context::new_primed(&rt, 0), Err(Error::ContextInit));
    assert_eq!(Context::empty(&rt, 0), Err(Error::ContextInit));
    let ctx = Context::empty(&rt, 0x20).unwrap();
    assert_eq!(ctx.ptr(), 0x20);
    assert_eq!(ctx.rt(), &rt);
    assert!(ctx.is_owner());
    assert!(ctx.builtins().is_empty());
    let ctx = Context::new(&rt, 0x20).unwrap();
    assert_eq!(ctx.ptr(), 0x20);
    assert_eq!(ctx.rt(), &rt);
    assert!(ctx.is_owner());
    assert_eq!(ctx.builtins(), vec![Builtin::Console]);
    let borrowed = Context::borrow_raw_unchecked(0x20, 0x10);
    assert!(!borrowed.is_owner());
    assert!(!borrowed.rt().is_owner());
    assert_eq!(borrowed.rt().ptr(), 0x10);
    assert_eq!(borrowed.ptr(), 0x20);
    assert_eq!(Context::run(0, 0x20, |_| Ok(1)), Err(Error::RuntimeInit));
    assert_eq!(Context::run(0x10, 0, |_| Ok(1)), Err(Error::ContextInit));
    assert_eq!(Context::run(0x10, 0x20, |c| Ok(c.ptr())), Ok(0x20));
    assert_eq!(Context::run(0x10, 0x20, |c| Ok(c.builtins())), Ok(vec![Builtin::Console]));
    assert_eq!(
        Context::run(0x10, 0x20, |_| Err::<u8, Error>(Error::Utf8Error)),
        Err(Error::Utf8Error)
    );
}

#[test]
fn primed_contexts_offer_the_version() {
    let rt = Runtime::new(0x10).unwrap();
    let ctx = Context::new_primed(&rt, 0x20).unwrap();
    assert_eq!(ctx.builtins(), vec![Builtin::Version, Builtin::GetVersion]);
    assert_eq!(Builtin::Version.name(), "VERSION");
    assert_eq!(Builtin::GetVersion.name(), "getVersion");
    assert!(Builtin::GetVersion.is_function());
    assert!(!Builtin::Version.is_function());
    assert_eq!(
        ctx.version_value(),
        Construction::Engine(Call::NewStringLen { bytes: VERSION.as_bytes().to_vec() })
    );
    let global = ctx.global(word(-1, 0x40));
    assert_eq!(global.into_raw(), word(-1, 0x40));
}

#[test]
fn evaluation_takes_nul_free_code() {
    let ctx = Context::borrow_raw_unchecked(2, 1);
    assert_eq!(
        ctx.eval("1 + 1"),
        Ok(Call::Eval { code: b"1 + 1\0".to_vec(), len: 5, name: b"<script>\0".to_vec(), flags: 0 })
    );
    assert_eq!(ctx.eval("1 +\0 1"), Err(Error::NulError(3)));
    assert_eq!(
        ctx.eval(""),
        Ok(Call::Eval { code: vec![0], len: 0, name: b"<script>\0".to_vec(), flags: 0 })
    );
}

#[test]
fn capture_of_a_thrown_error() {
    let exc = word(-1, 0x100);
    let stack = word(-7, 0x200);
    let state = Capture::begin(exc);
    assert_eq!(state.query(), Query::Text(exc));
    let state = state.step(Answer::Text(Some(b"Error: boom".to_vec())));
    assert_eq!(state.query(), Query::IsError(exc));
    let state = state.step(Answer::IsError(1));
    assert_eq!(state.query(), Query::Stack(exc));
    let state = state.step(Answer::Property(stack));
    assert_eq!(state.query(), Query::Text(stack));
    let state = state.step(Answer::Text(Some(b"    at <eval>".to_vec())));
    assert_eq!(state.query(), Query::Finished);
    let (e, ops) = state.finish();
    assert_eq!(e.message(), "Error: boom");
    assert_eq!(e.stack(), Some("    at <eval>"));
    assert_eq!(ops, vec![RefOp::Free(stack), RefOp::Free(exc)]);
}

#[test]
fn capture_of_a_thrown_number() {
    let exc = word(0, 42);
    let state = Capture::begin(exc).step(Answer::Text(Some(b"42".to_vec())));
    let state = state.step(Answer::IsError(0));
    assert_eq!(state.query(), Query::Finished);
    let (e, ops) = state.finish();
    assert_eq!(e.message(), "42");
    assert_eq!(e.stack(), None);
    assert_eq!(ops, vec![RefOp::Nothing]);
}

#[test]
fn capture_without_a_stack() {
    let exc = word(-1, 0x100);
    let state = Capture::begin(exc)
        .step(Answer::Text(Some(b"Error".to_vec())))
        .step(Answer::IsError(1))
        .step(Answer::Property(word(3, 0)));
    assert_eq!(state.query(), Query::Finished);
    let (e, ops) = state.finish();
    assert_eq!(e.stack(), None);
    assert_eq!(ops, vec![RefOp::Nothing, RefOp::Free(exc)]);

    let nested = word(-1, 0x300);
    let state = Capture::begin(exc)
        .step(Answer::Text(None))
        .step(Answer::IsError(1))
        .step(Answer::Property(word(6, 0)));
    assert_eq!(state.query(), Query::Pending);
    let state = state.step(Answer::Pending(nested));
    assert_eq!(state.query(), Query::Finished);
    let (e, ops) = state.finish();
    assert_eq!(e.message(), "");
    assert_eq!(e.stack(), None);
    assert_eq!(ops, vec![RefOp::Free(nested), RefOp::Free(exc)]);
}

#[test]
fn capture_ignores_answers_out_of_turn() {
    let exc = word(-1, 0x100);
    let state = Capture::begin(exc).step(Answer::IsError(1));
    assert_eq!(state, Capture::Thrown { exc });
    let state = state.step(Answer::Property(5)).step(Answer::Pending(5));
    assert_eq!(state, Capture::Thrown { exc });
    let state = state.step(Answer::Text(None)).step(Answer::Text(None));
    assert_eq!(state, Capture::Described { exc, text: None });
}

#[test]
fn the_console_is_an_object_with_a_log_function() {
    let rt = Runtime::new(0x10).unwrap();
    let ctx = Context::new(&rt, 0x20).unwrap();
    assert_eq!(Builtin::Console.name(), "console");
    assert!(Builtin::Console.is_object());
    assert!(!Builtin::Console.is_function());
    assert!(!Builtin::GetVersion.is_object());
    assert_eq!(Builtin::Console.members(), vec!["log"]);
    assert!(Builtin::Version.members().is_empty());
    assert_eq!(
        log_function(&ctx),
        Call::NewCFunction2 { name: b"log\0".to_vec(), length: 1, cproto: 0, magic: 0 }
    );
    let log = Value::from_raw(&ctx, word(-1, 0x60), None).unwrap();
    let (console, define) = make_basic_console(&ctx, word(-1, 0x50), &log);
    assert_eq!(console.ctx(), &ctx);
    assert_eq!(console.as_raw(), word(-1, 0x50));
    assert_eq!(
        define,
        Call::DefinePropertyValueStr {
            this: word(-1, 0x50),
            key: b"log\0".to_vec(),
            value: word(-1, 0x60),
            flags: 7,
            acquire: RefOp::Dup(word(-1, 0x60)),
        }
    );
    assert!(log.is_function(1));
}
