use worthless_js_rt::engine::Call;
use worthless_js_rt::refcount::RefOp;
use worthless_js_rt::tag::word;
use worthless_js_rt::value::Construction;
use worthless_js_rt::{Context, Error, JsException, Primitive, Value, ValueKind};

const STRING_TAG: i32 = -7;
const SYMBOL_TAG: i32 = -8;
const OBJECT_TAG: i32 = -1;
const BIG_INT_TAG: i32 = -10;

fn ready(made: Construction) -> Value {
    match made {
        Construction::Ready(value) => value,
        other => panic!("not made inline: {:?}", other),
    }
}

fn text(bytes: &[u8]) -> Option<&[u8]> {
    Some(bytes)
}

#[test]
fn test_null() {
    Context::run(1, 2, |ctx| {
        let val = ready(Value::from_primitive(ctx, Primitive::Null));
        assert_eq!(val.kind(), ValueKind::Null);
        assert_eq!(val.as_primitive(None), Some(Primitive::Null));
        assert!(!val.is_true(None));
        assert_eq!(val.to_string_lossy(text(b"null")), "null");
        assert_eq!(val.len(None, 0), None);
        Ok(())
    })
    .unwrap()
}

#[test]
fn test_undefined() {
    Context::run(1, 2, |ctx| {
        let val = ready(Value::from_primitive(ctx, Primitive::Undefined));
        assert_eq!(val.kind(), ValueKind::Undefined);
        assert_eq!(val.as_primitive(None), Some(Primitive::Undefined));
        assert!(!val.is_true(None));
        assert_eq!(val.to_string_lossy(text(b"undefined")), "undefined");
        assert_eq!(val.len(None, 0), None);
        Ok(())
    })
    .unwrap()
}

#[test]
fn test_bool() {
    Context::run(1, 2, |ctx| {
        let val = ready(Value::from_primitive(ctx, Primitive::from(true)));
        assert_eq!(val.kind(), ValueKind::Boolean);
        assert_eq!(val.as_primitive(None), Some(Primitive::Bool(true)));
        assert_eq!(val.to_string_lossy(text(b"true")), "true");
        assert_eq!(val.len(None, 0), None);

        let val = ready(Value::from_primitive(ctx, Primitive::from(false)));
        assert_eq!(val.kind(), ValueKind::Boolean);
        assert_eq!(val.as_primitive(None), Some(Primitive::Bool(false)));
        assert_eq!(val.to_string_lossy(text(b"false")), "false");
        assert_eq!(val.len(None, 0), None);

        Ok(())
    })
    .unwrap()
}

#[test]
fn test_i32() {
    Context::run(1, 2, |ctx| {
        let val = ready(Value::from_primitive(ctx, Primitive::from(42i32)));
        assert_eq!(val.kind(), ValueKind::Number);
        assert_eq!(val.as_primitive(None), Some(Primitive::I32(42)));
        assert_eq!(val.to_string_lossy(text(b"42")), "42");
        assert_eq!(val.len(None, 0), None);
        Ok(())
    })
    .unwrap()
}

#[test]
fn test_i64() {
    Context::run(1, 2, |ctx| {
        let val = ready(Value::from_primitive(ctx, Primitive::from(42i64)));
        assert_eq!(val.kind(), ValueKind::Number);
        assert_eq!(val.as_primitive(None), Some(Primitive::I32(42)));
        assert_eq!(val.to_string_lossy(text(b"42")), "42");
        assert_eq!(val.len(None, 0), None);

        let val = ready(Value::from_primitive(ctx, Primitive::from(4244444444444i64)));
        assert_eq!(val.kind(), ValueKind::Number);
        assert_eq!(
            val.as_primitive(None),
            Some(Primitive::F64(4244444444444f64.to_bits()))
        );
        assert_eq!(val.to_string_lossy(text(b"4244444444444")), "4244444444444");
        assert_eq!(val.len(None, 0), None);

        Ok(())
    })
    .unwrap()
}

#[test]
fn test_str() {
    Context::run(1, 2, |ctx| {
        let made = Value::from_primitive(ctx, Primitive::from_str("Hello World!"));
        assert_eq!(
            made,
            Construction::Engine(Call::NewStringLen { bytes: b"Hello World!".to_vec() })
        );
        let val = Value::from_raw(ctx, word(STRING_TAG, 0x1000), None)?;
        assert_eq!(val.kind(), ValueKind::String);
        assert_eq!(
            val.as_primitive(text(b"Hello World!")),
            Some(Primitive::Str("Hello World!".to_string()))
        );
        assert_eq!(val.to_string_lossy(text(b"Hello World!")), "Hello World!");
        let length = ready(Value::from_primitive(ctx, Primitive::I32(12)));
        assert_eq!(val.len(Some(&length), 0), Some(12));

        Ok(())
    })
    .unwrap()
}

#[test]
fn test_array() {
    Context::run(1, 2, |ctx| {
        let arr = [
            Value::from_raw(ctx, word(STRING_TAG, 0x1000), None)?,
            Value::from_raw(ctx, word(STRING_TAG, 0x1010), None)?,
        ];
        let val = Value::new_array(ctx, word(OBJECT_TAG, 0x2000));
        let calls = Value::from_iter(&val, &arr);
        assert_eq!(calls.len(), 2);
        for (idx, item) in arr.iter().enumerate() {
            assert_eq!(
                calls[idx],
                Call::DefinePropertyValueUint32 {
                    this: word(OBJECT_TAG, 0x2000),
                    index: idx as u32,
                    value: word(STRING_TAG, 0x1000 + 0x10 * idx as i32),
                    flags: 7,
                    acquire: RefOp::Dup(word(STRING_TAG, 0x1000 + 0x10 * idx as i32)),
                }
            );
            let length = ready(Value::from_primitive(ctx, Primitive::I32(idx as i32)));
            let (copy, op) = item.clone();
            assert_eq!(op, RefOp::Dup(copy.into_raw()));
            assert_eq!(
                val.append(item, &length, 0),
                Ok(Call::DefinePropertyValueUint32 {
                    this: word(OBJECT_TAG, 0x2000),
                    index: idx as u32,
                    value: word(STRING_TAG, 0x1000 + 0x10 * idx as i32),
                    flags: 7,
                    acquire: RefOp::Dup(word(STRING_TAG, 0x1000 + 0x10 * idx as i32)),
                })
            );
        }
        assert_eq!(val.kind(), ValueKind::Object);
        assert!(val.is_array(1));
        let array = word(OBJECT_TAG, 0x2000);
        let answers = [word(STRING_TAG, 0x1000), word(STRING_TAG, 0x1010), word(3, 0)];
        let texts: [&[u8]; 3] = [b"Hello", b"World", b"undefined"];
        for idx in 0..3 {
            assert_eq!(
                val.get_by_index(idx),
                Ok(Call::GetPropertyUint32 { this: array, index: idx as u32 })
            );
        }
        let got = Value::from_raw(ctx, answers[0], None)?;
        assert_eq!(got.to_string_lossy(text(texts[0])), "Hello");
        let got = Value::from_raw(ctx, answers[1], None)?;
        assert_eq!(got.to_string_lossy(text(texts[1])), "World");
        let got = Value::from_raw(ctx, answers[2], None)?;
        assert_eq!(got.kind(), ValueKind::Undefined);
        assert_eq!(
            val.get_property("0"),
            Ok(Call::GetPropertyStr { this: array, key: b"0\0".to_vec() })
        );
        assert_eq!(
            val.get_property("1"),
            Ok(Call::GetPropertyStr { this: array, key: b"1\0".to_vec() })
        );
        assert_eq!(
            val.get_property("2"),
            Ok(Call::GetPropertyStr { this: array, key: b"2\0".to_vec() })
        );
        let got = Value::from_raw(ctx, answers[0], None)?;
        assert_eq!(got.to_string_lossy(text(texts[0])), "Hello");
        let got = Value::from_raw(ctx, answers[1], None)?;
        assert_eq!(got.to_string_lossy(text(texts[1])), "World");
        let got = Value::from_raw(ctx, answers[2], None)?;
        assert_eq!(got.kind(), ValueKind::Undefined);
        assert_eq!(val.as_primitive(text(b"Hello,World")), None);
        assert_eq!(val.to_string_lossy(text(b"Hello,World")), "Hello,World");
        let length = ready(Value::from_primitive(ctx, Primitive::I32(2)));
        assert_eq!(val.len(Some(&length), 0), Some(2));

        Ok(())
    })
    .unwrap()
}

#[test]
fn test_object() {
    Context::run(1, 2, |ctx| {
        let val = Value::new_object(ctx, word(OBJECT_TAG, 0x3000));
        let a = ready(Value::from_primitive(ctx, Primitive::from(42)));
        let b = ready(Value::from_primitive(ctx, Primitive::from(23)));
        assert_eq!(
            val.set_property("a", &a)?,
            Call::DefinePropertyValueStr {
                this: word(OBJECT_TAG, 0x3000),
                key: b"a\0".to_vec(),
                value: 42,
                flags: 7,
                acquire: RefOp::Nothing,
            }
        );
        assert_eq!(
            val.set_property("b", &b)?,
            Call::DefinePropertyValueStr {
                this: word(OBJECT_TAG, 0x3000),
                key: b"b\0".to_vec(),
                value: 23,
                flags: 7,
                acquire: RefOp::Nothing,
            }
        );
        assert_eq!(val.kind(), ValueKind::Object);
        assert_eq!(val.to_string_lossy(text(b"[object Object]")), "[object Object]");
        assert_eq!(val.as_primitive(text(b"[object Object]")), None);
        assert_eq!(a.to_string_lossy(text(b"42")), "42");
        assert_eq!(b.to_string_lossy(text(b"23")), "23");
        assert!(!val.is_array(0));
        Ok(())
    })
    .unwrap();
}

#[test]
fn truthiness() {
    let ctx = Context::borrow_raw_unchecked(2, 1);
    let string = Value::from_raw_unchecked(&ctx, word(STRING_TAG, 0x1000));
    assert!(!string.is_true(text(b"")));
    assert!(string.is_true(text(b"0")));
    assert!(!string.is_true(None));
    assert!(string.is_true(text(&[0xff])));
    let zero = ready(Value::from_primitive(&ctx, Primitive::I32(0)));
    assert!(!zero.is_true(None));
    let one = ready(Value::from_primitive(&ctx, Primitive::I32(-1)));
    assert!(one.is_true(None));
    for falsy in [0.0f64, -0.0, f64::NAN] {
        let v = ready(Value::from_primitive(&ctx, Primitive::F64(falsy.to_bits())));
        assert!(!v.is_true(None));
    }
    for truthy in [0.5f64, -1e300, f64::INFINITY, 5e-324] {
        let v = ready(Value::from_primitive(&ctx, Primitive::F64(truthy.to_bits())));
        assert!(v.is_true(None));
    }
    assert!(Value::from_raw_unchecked(&ctx, word(1, 1)).is_true(None));
    assert!(!Value::from_raw_unchecked(&ctx, word(1, 0)).is_true(None));
    assert!(Value::from_raw_unchecked(&ctx, word(OBJECT_TAG, 8)).is_true(None));
    assert!(Value::from_raw_unchecked(&ctx, word(SYMBOL_TAG, 8)).is_true(None));
    assert!(Value::from_raw_unchecked(&ctx, word(6, 0)).is_true(None));
}

#[test]
fn doubles_that_are_integers_are_stored_as_integers() {
    let ctx = Context::borrow_raw_unchecked(2, 1);
    let v = ready(Value::from_primitive(&ctx, Primitive::F64(42.0f64.to_bits())));
    assert_eq!(v.as_primitive(None), Some(Primitive::I32(42)));
    assert_eq!(v.as_i32(0), Some(42));
    let v = ready(Value::from_primitive(&ctx, Primitive::F64((-0.0f64).to_bits())));
    assert_eq!(v.as_primitive(None), Some(Primitive::F64((-0.0f64).to_bits())));
    assert_eq!(v.as_i32(0), Some(0));
    let v = ready(Value::from_primitive(&ctx, Primitive::F64(1.5f64.to_bits())));
    assert_eq!(v.as_primitive(None), Some(Primitive::F64(1.5f64.to_bits())));
    assert_eq!(v.as_i32(0), None);
    assert_eq!(v.as_i64(0), None);
    assert_eq!(v.as_f64(0), Some(1.5f64.to_bits()));
}

#[test]
fn numeric_extraction() {
    let ctx = Context::borrow_raw_unchecked(2, 1);
    let int = ready(Value::from_primitive(&ctx, Primitive::I32(-7)));
    assert_eq!(int.as_i32(99), Some(-7));
    assert_eq!(int.as_i64(99), Some(-7));
    assert_eq!(int.as_f64(99), Some((-7.0f64).to_bits()));
    let big = Value::from_raw_unchecked(&ctx, word(BIG_INT_TAG, 0x4000));
    assert_eq!(big.as_i32(5), Some(5));
    assert_eq!(big.as_i32(1 << 40), None);
    assert_eq!(big.as_i64(1 << 40), Some(1 << 40));
    assert_eq!(big.as_f64(5), Some(5.0f64.to_bits()));
    assert_eq!(big.as_f64(1 << 60), Some(((1u64 << 60) as f64).to_bits()));
    assert_eq!(big.as_f64((1 << 53) + 1), None);
    assert_eq!(big.as_f64(i64::MAX), None);
    assert_eq!(big.as_f64(i64::MIN), Some((i64::MIN as f64).to_bits()));
    let float = ready(Value::from_primitive(&ctx, Primitive::F64(3e9f64.to_bits())));
    assert_eq!(float.as_i32(0), None);
    assert_eq!(float.as_i64(0), None);
    let string = Value::from_raw_unchecked(&ctx, word(STRING_TAG, 0x1000));
    assert_eq!(string.as_i32(1), None);
    assert_eq!(string.as_i64(1), None);
    assert_eq!(string.as_f64(0), None);
}

#[test]
fn strings_from_the_engine() {
    let ctx = Context::borrow_raw_unchecked(2, 1);
    let string = Value::from_raw_unchecked(&ctx, word(STRING_TAG, 0x1000));
    assert_eq!(string.as_str(Ok(b"caf\xc3\xa9")), Ok("caf\u{e9}".to_string()));
    assert_eq!(string.as_str(Ok(b"ab\xff")), Err(Error::Utf8Error));
    let thrown = JsException::from_raw(Some(b"boom"), false, None);
    assert_eq!(string.as_str(Err(thrown.clone())), Err(Error::JsException(thrown)));
    assert_eq!(string.to_string_lossy(text(b"ab\xffcd")), "ab\u{fffd}cd");
    assert_eq!(string.to_string_lossy(None), "");
    assert_eq!(
        string.as_primitive(text(b"ab\xff")),
        Some(Primitive::InvalidStr("ab\u{fffd}".to_string()))
    );
    assert_eq!(string.as_primitive(None), Some(Primitive::Str(String::new())));
    let symbol = Value::from_raw_unchecked(&ctx, word(SYMBOL_TAG, 0x1000));
    assert_eq!(
        symbol.as_primitive(text(b"tag")),
        Some(Primitive::Symbol("tag".to_string()))
    );
    assert_eq!(symbol.as_primitive(text(b"\xff")), None);
    assert_eq!(symbol.as_primitive(None), None);
}

#[test]
fn keys_and_indices_are_checked() {
    let ctx = Context::borrow_raw_unchecked(2, 1);
    let object = Value::new_object(&ctx, word(OBJECT_TAG, 0x3000));
    let item = Value::from_raw_unchecked(&ctx, word(OBJECT_TAG, 0x3010));
    assert_eq!(object.get_property("a\0b"), Err(Error::NulError(1)));
    assert_eq!(object.set_property("\0", &item), Err(Error::NulError(0)));
    assert_eq!(
        object.set_by_index(3, &item),
        Ok(Call::DefinePropertyValueUint32 {
            this: word(OBJECT_TAG, 0x3000),
            index: 3,
            value: word(OBJECT_TAG, 0x3010),
            flags: 7,
            acquire: RefOp::Dup(word(OBJECT_TAG, 0x3010)),
        })
    );
    assert_eq!(object.get_by_index(1 << 32), Err(Error::IntOverflow));
    assert_eq!(object.get_by_index(u32::MAX as usize).is_ok(), true);
    assert_eq!(object.set_by_index(1 << 32, &item), Err(Error::IntOverflow));
    assert_eq!(object.set_by_index(u32::MAX as usize, &item).is_ok(), true);
    let negative = ready(Value::from_primitive(&ctx, Primitive::I32(-1)));
    assert_eq!(object.append(&item, &negative, 0), Err(Error::InvalidLength));
    let undefined = ready(Value::from_primitive(&ctx, Primitive::Undefined));
    assert_eq!(object.append(&item, &undefined, 0), Err(Error::InvalidLength));
    assert_eq!(object.len(Some(&negative), 0), None);
    assert_eq!(object.len(None, 0), None);
    let big = Value::from_raw_unchecked(&ctx, word(BIG_INT_TAG, 0x4000));
    assert_eq!(object.len(Some(&big), 1 << 33), Some(1 << 33));
    assert_eq!(object.append(&item, &big, 1 << 33), Err(Error::InvalidLength));
}

#[test]
fn calls_carry_the_words_of_their_arguments() {
    let ctx = Context::borrow_raw_unchecked(2, 1);
    let func = Value::from_raw_unchecked(&ctx, word(OBJECT_TAG, 0x5000));
    let this = Value::from_raw_unchecked(&ctx, word(3, 0));
    let args = [
        ready(Value::from_primitive(&ctx, Primitive::I32(1))),
        Value::from_raw_unchecked(&ctx, word(STRING_TAG, 0x1000)),
    ];
    match func.call(&this, &args) {
        Call::Call { func, this, args } => {
            assert_eq!(func, word(OBJECT_TAG, 0x5000));
            assert_eq!(this, word(3, 0));
            assert_eq!(args.to_vec(), vec![1, word(STRING_TAG, 0x1000)]);
        }
        other => panic!("not a call: {:?}", other),
    }
    assert_eq!(
        Value::from_func(&ctx, "log"),
        Ok(Call::NewCFunction2 { name: b"log\0".to_vec(), length: 1, cproto: 0, magic: 0 })
    );
    assert_eq!(Value::from_func(&ctx, "lo\0g"), Err(Error::NulError(2)));
    assert!(func.is_function(1));
    assert!(!func.is_function(0));
    assert!(!func.is_array(-1));
}
