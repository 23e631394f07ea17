use worthless_js_rt::builtins::log;
use worthless_js_rt::refcount::{acquire, release, RefOp};
use worthless_js_rt::tag::word;
use worthless_js_rt::trampoline::{arguments, nul_safe, reply, throw, Reply};
use worthless_js_rt::{Context, Error, Value};

#[test]
fn arguments_are_wrapped_and_acquired() {
    let ctx = Context::borrow_raw_unchecked(2, 1);
    let this = word(-1, 0x100);
    let argv = [word(0, 7), word(-7, 0x200), word(3, 0), word(-7, 0x200)];
    let (this_val, args, ops) = arguments(&ctx, this, &argv);
    assert_eq!(this_val.ctx(), &ctx);
    assert_eq!(this_val.into_raw(), this);
    assert_eq!(args.as_slice().len(), 4);
    let words: Vec<u64> = args.as_slice().iter().map(|v| v.as_raw()).collect();
    assert_eq!(words, argv.to_vec());
    assert_eq!(
        ops,
        vec![
            RefOp::Dup(this),
            RefOp::Nothing,
            RefOp::Dup(word(-7, 0x200)),
            RefOp::Nothing,
            RefOp::Dup(word(-7, 0x200)),
        ]
    );
    let (_, none, ops) = arguments(&ctx, word(3, 0), &[]);
    assert!(none.as_slice().is_empty());
    assert_eq!(ops, vec![RefOp::Nothing]);
}

#[test]
fn results_are_handed_on_and_errors_thrown() {
    let ctx = Context::borrow_raw_unchecked(2, 1);
    let value = Value::from_raw_unchecked(&ctx, word(-1, 0x100));
    assert_eq!(reply(Ok(value)), Reply::Return(word(-1, 0x100)));
    assert_eq!(reply(Err(Error::Utf8Error)), Reply::Throw(b"utf-8 error\0".to_vec()));
    assert_eq!(
        reply(Err(Error::NulError(1))),
        Reply::Throw(b"unexpected null byte\0".to_vec())
    );
}

#[test]
fn thrown_messages_lose_their_nul_bytes() {
    assert_eq!(throw("a\0b\0\0c"), Reply::Throw(b"abc\0".to_vec()));
    assert_eq!(throw("plain"), Reply::Throw(b"plain\0".to_vec()));
    assert_eq!(throw(""), Reply::Throw(vec![0]));
    assert_eq!(throw("\0"), Reply::Throw(vec![0]));
    assert_eq!(nul_safe(&[0, 1, 0, 2, 0]), vec![1, 2]);
    assert_eq!(nul_safe(&[]), Vec::<u8>::new());
}

#[test]
fn counted_words_are_acquired_and_released() {
    let ctx = Context::borrow_raw_unchecked(2, 1);
    for tag in -11..0 {
        let w = word(tag, 0x100);
        assert_eq!(acquire(w), RefOp::Dup(w));
        assert_eq!(release(w), RefOp::Free(w));
        let v = Value::from_raw_unchecked(&ctx, w);
        let (copy, op) = v.clone();
        assert_eq!(op, RefOp::Dup(w));
        assert_eq!(copy.drop(), RefOp::Free(w));
        assert_eq!(v.drop(), RefOp::Free(w));
    }
    for w in [word(0, 1), word(1, 1), word(2, 0), word(3, 0), word(6, 0), 1.5f64.to_bits()] {
        assert_eq!(acquire(w), RefOp::Nothing);
        assert_eq!(release(w), RefOp::Nothing);
        let v = Value::from_raw_unchecked(&ctx, w);
        let (copy, op) = v.clone();
        assert_eq!(op, RefOp::Nothing);
        assert_eq!(copy.drop(), RefOp::Nothing);
    }
}

#[test]
fn the_console_joins_its_arguments() {
    let ctx = Context::borrow_raw_unchecked(2, 1);
    let args = ["Hello World!".to_string(), "42".to_string(), "23".to_string()];
    let (line, value) = log(&ctx, &args);
    assert_eq!(line, "[console] Hello World! 42 23");
    assert_eq!(value.into_raw(), word(3, 0));
    assert_eq!(log(&ctx, &[]).0, "[console] ");
    assert_eq!(log(&ctx, &["x".to_string()]).0, "[console] x");
}
