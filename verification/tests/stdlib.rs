use ripsaw::compiler::closure::ItemKey;
use ripsaw::compiler::expression::{ExpressionError, Resolved};
use ripsaw::compiler::function::{Output, VariableKind};
use ripsaw::diagnostic::Span;
use ripsaw::stdlib::all::{all, All};
use ripsaw::stdlib::any::{any, Any};
use ripsaw::stdlib::assertion::{assert_condition, Assert};
use ripsaw::stdlib::map::MapFunction;
use ripsaw::stdlib::util::ConstOrExpr;
use ripsaw::value::kind;
use ripsaw::value::Value;

fn ints(xs: &[i64]) -> Value {
    Value::Array(xs.iter().map(|x| Value::Integer(*x)).collect())
}

fn ab() -> Value {
    Value::Object(vec![("a".to_string(), Value::Integer(1)), ("b".to_string(), Value::Integer(2))])
}

fn num(v: &Value) -> i64 {
    match v {
        Value::Integer(i) => *i,
        other => panic!("not an integer: {other:?}"),
    }
}

fn key(k: &ItemKey) -> &str {
    match k {
        ItemKey::Key(k) => k.as_str(),
        ItemKey::Index(_) => panic!("not a key"),
    }
}

fn index(k: &ItemKey) -> usize {
    match k {
        ItemKey::Index(i) => *i,
        ItemKey::Key(_) => panic!("not an index"),
    }
}

fn boolean(b: bool) -> Resolved {
    Ok(Value::Boolean(b))
}


/// `all` with a closure that keeps no state between calls.
fn all_of<F: Fn(ItemKey, &Value) -> Resolved>(v: Value, f: &F) -> Resolved {
    all(v, (), &|s: (), k: ItemKey, x: &Value| (s, f(k, x))).1
}

/// `any` with a closure that keeps no state between calls.
fn any_of<F: Fn(ItemKey, &Value) -> Resolved>(v: Value, f: &F) -> Resolved {
    any(v, (), &|s: (), k: ItemKey, x: &Value| (s, f(k, x))).1
}

/// `map` with a closure that keeps no state between calls.
fn map_of<F: Fn(ItemKey, &Value) -> Resolved>(v: Value, f: &F) -> Resolved {
    ripsaw::stdlib::map::map(v, (), &|s: (), k: ItemKey, x: &Value| (s, f(k, x))).1
}

#[test]
fn all_array() {
    assert_eq!(all_of(ints(&[1, 2, 3, 4]), &|_i, num_v: &Value| boolean(num(num_v) > 2)), Ok(Value::Boolean(false)));
    assert_eq!(all_of(ints(&[1, 2, 3, 4]), &|_i, num_v: &Value| boolean(num(num_v) > 0)), Ok(Value::Boolean(true)));
    assert_eq!(all_of(ints(&[1, 2]), &|i, _num: &Value| boolean(index(&i) < 3)), Ok(Value::Boolean(true)));
    assert_eq!(all_of(ints(&[1, 2]), &|_i, _num: &Value| boolean(true)), Ok(Value::Boolean(true)));
}

#[test]
fn all_object() {
    assert_eq!(
        all_of(ab(), &|k, num_v: &Value| boolean(key(&k) != "c" && num(num_v) > 0)),
        Ok(Value::Boolean(true))
    );
    assert_eq!(all_of(ab(), &|k, _num: &Value| boolean(key(&k) == "a")), Ok(Value::Boolean(false)));
    assert_eq!(all_of(ab(), &|_k, _num: &Value| boolean(false)), Ok(Value::Boolean(false)));
}

#[test]
fn any_array() {
    assert_eq!(any_of(ints(&[1, 2, 3, 4]), &|_i, num_v: &Value| boolean(num(num_v) > 2)), Ok(Value::Boolean(true)));
    assert_eq!(any_of(ints(&[1, 2, 3, 4]), &|_i, num_v: &Value| boolean(num(num_v) < 0)), Ok(Value::Boolean(false)));
    assert_eq!(any_of(ints(&[1, 2]), &|_i, _num: &Value| boolean(true)), Ok(Value::Boolean(true)));
}

#[test]
fn any_object() {
    assert_eq!(
        any_of(ab(), &|k, num_v: &Value| boolean(key(&k) == "a" && num(num_v) < 2)),
        Ok(Value::Boolean(true))
    );
    assert_eq!(any_of(ab(), &|k, _num: &Value| boolean(key(&k) == "c")), Ok(Value::Boolean(false)));
    assert_eq!(any_of(ab(), &|_k, _num: &Value| boolean(false)), Ok(Value::Boolean(false)));
}

#[test]
fn all_and_any_stop_at_the_deciding_item() {
    // The state handed from call to call counts the calls.
    let count = |n: u32, _i: ItemKey, v: &Value, b: bool| (n + 1, boolean(b && num(v) >= 0));
    let (calls, r) = all(ints(&[1, 5, 2, 7]), 0u32, &|n: u32, i: ItemKey, v: &Value| count(n, i, v, num(v) < 3));
    assert_eq!(r, Ok(Value::Boolean(false)));
    assert_eq!(calls, 2);
    let (calls, r) = any(ints(&[1, 5, 2, 7]), 0u32, &|n: u32, i: ItemKey, v: &Value| count(n, i, v, num(v) > 3));
    assert_eq!(r, Ok(Value::Boolean(true)));
    assert_eq!(calls, 2);
    let (calls, r) = all(ints(&[1, 2]), 0u32, &|n: u32, i: ItemKey, v: &Value| count(n, i, v, true));
    assert_eq!((calls, r), (2, Ok(Value::Boolean(true))));
    let (calls, r) = any(ints(&[]), 0u32, &|n: u32, i: ItemKey, v: &Value| count(n, i, v, true));
    assert_eq!((calls, r), (0, Ok(Value::Boolean(false))));
}

#[test]
fn map_runs_once_per_element_in_order() {
    // The state records the indices in the order the closure saw them.
    let (seen, r) = ripsaw::stdlib::map::map(ints(&[4, 5, 6]), Vec::new(), &|mut seen: Vec<usize>, i: ItemKey, v: &Value| {
        seen.push(index(&i));
        (seen, Ok(Value::Integer(num(v) + 1)))
    });
    assert_eq!(seen, vec![0, 1, 2]);
    assert_eq!(r, Ok(Value::Array(vec![Value::Integer(5), Value::Integer(6), Value::Integer(7)])));
    let (seen, r) = ripsaw::stdlib::map::map(ints(&[4, 5, 6]), Vec::new(), &|mut seen: Vec<usize>, i: ItemKey, v: &Value| {
        seen.push(index(&i));
        let out = if num(v) == 5 { Err(ExpressionError::Error { message: "five".to_string() }) } else { Ok(v.clone()) };
        (seen, out)
    });
    assert_eq!(seen, vec![0, 1]);
    assert_eq!(r, Err(ExpressionError::Error { message: "five".to_string() }));
    let (seen, r) = ripsaw::stdlib::map::map(ab(), Vec::new(), &|mut seen: Vec<usize>, i: ItemKey, v: &Value| {
        seen.push(index(&i));
        (seen, Ok(v.clone()))
    });
    assert!(seen.is_empty());
    assert!(r.is_err());
}

#[test]
fn closure_errors_are_passed_on() {
    let fail = |_i: ItemKey, v: &Value| -> Resolved {
        if num(v) == 2 {
            Err(ExpressionError::Error { message: "two".to_string() })
        } else {
            boolean(true)
        }
    };
    let err = Err(ExpressionError::Error { message: "two".to_string() });
    assert_eq!(all_of(ints(&[1, 2, 3]), &fail), err);
    assert_eq!(any_of(ints(&[1, 2, 3]), &|i, v: &Value| fail(i, v).map(|_| Value::Boolean(false))), err);
    assert_eq!(map_of(ints(&[1, 2, 3]), &fail), err);
}

#[test]
fn single_values_are_their_own_item() {
    let never = |_i: ItemKey, _v: &Value| -> Resolved { panic!("no closure runs on a single value") };
    assert_eq!(all_of(Value::Boolean(false), &never), Ok(Value::Boolean(false)));
    assert_eq!(all_of(Value::Integer(0), &never), Ok(Value::Boolean(true)));
    assert_eq!(any_of(Value::Boolean(true), &never), Ok(Value::Boolean(true)));
    assert_eq!(any_of(Value::Null, &never), Ok(Value::Boolean(false)));
}

#[test]
fn map_ints() {
    let output = map_of(ints(&[1, 2, 3, 4]), &|_i, num_v: &Value| Ok(Value::Integer(num(num_v) * 3)));
    assert_eq!(
        Ok(Value::Array(vec![Value::Integer(3), Value::Integer(6), Value::Integer(9), Value::Integer(12)])),
        output
    );
}

#[test]
fn map_requires_an_array() {
    assert_eq!(
        map_of(ab(), &|_i, v: &Value| Ok(v.clone())),
        Err(ExpressionError::Error { message: "function requires array type as input".to_string() })
    );
    assert_eq!(map_of(ints(&[]), &|_i, v: &Value| Ok(v.clone())), Ok(Value::Array(vec![])));
}

#[test]
fn assert_pass_test() {
    let output = assert_condition(
        Value::Boolean(true),
        Some(Value::Bytes(b"x must be 3".to_vec())),
        Some("x == 3".to_string()),
        Span::new(7, 39),
    );
    assert_eq!(Ok(Value::Boolean(true)), output);
}

#[test]
fn assert_error_message_test() {
    let script = r#"x = 3; assert!(x == 2, "x must be 2")"#;
    let err = assert_condition(
        Value::Boolean(false),
        Some(Value::Bytes(b"x must be 2".to_vec())),
        Some("x == 2".to_string()),
        Span::new(7, script.len()),
    )
    .expect_err("must fail");
    match err {
        ExpressionError::Abort { span, message } => {
            assert_eq!(Some("x must be 2".to_string()), message);
            assert_eq!((7, script.len()), (span.start(), span.end()));
        },
        other => panic!("received wrong type of error: {other:#?}"),
    }
}

#[test]
fn assert_error_no_message_test() {
    let script = "x = 3; assert!(x == 2)";
    let err = assert_condition(Value::Boolean(false), None, None, Span::new(7, script.len())).expect_err("must fail");
    match err {
        ExpressionError::Abort { span, message } => {
            assert_eq!(Some("assertion failed".to_string()), message);
            assert_eq!((7, script.len()), (span.start(), span.end()));
        },
        other => panic!("received wrong type of error: {other:#?}"),
    }
}

#[test]
fn assert_messages_and_kinds() {
    let span = Span::new(0, 1);
    let abort = |m: &str| Err(ExpressionError::Abort { span, message: Some(m.to_string()) });
    assert_eq!(assert_condition(Value::Boolean(false), None, Some("x == 2".to_string()), span), abort("assertion failed: x == 2"));
    assert_eq!(assert_condition(Value::Boolean(false), Some(Value::Bytes(vec![b'a', 0xff])), None, span), abort("a\u{fffd}"));
    assert_eq!(
        assert_condition(Value::Integer(1), None, None, span),
        Err(ExpressionError::Expected { got: kind::INTEGER, expected: kind::BOOLEAN })
    );
    assert_eq!(
        assert_condition(Value::Boolean(false), Some(Value::Integer(1)), None, span),
        Err(ExpressionError::Expected { got: kind::INTEGER, expected: kind::BYTES })
    );
    assert_eq!(assert_condition(Value::Boolean(true), Some(Value::Integer(1)), None, span), Ok(Value::Boolean(true)));
}

#[test]
fn functions_describe_themselves() {
    assert_eq!(All.identifier(), "all");
    assert_eq!(Any.identifier(), "any");
    assert_eq!(MapFunction.identifier(), "map");
    assert_eq!(Assert.identifier(), "assert");
    assert_eq!(All.category(), "Enumerate");
    assert_eq!(Assert.category(), "Debug");
    assert_eq!(MapFunction.return_kind(), kind::ARRAY);
    assert_eq!(Any.return_kind(), kind::BOOLEAN);
    assert!(All.usage().starts_with("Iterate over a collection, returning false"));
    let params = Assert.parameters();
    assert_eq!(params.len(), 2);
    assert_eq!(params[0].keyword, "condition");
    assert!(params[0].required);
    assert!(!params[1].required);
    assert_eq!(params[1].kind, kind::BYTES);
    assert_eq!(Assert.examples()[2].result, Err("assertion failed"));
    assert_eq!(Any.examples().len(), 2);
    let closure = MapFunction.closure().unwrap();
    assert!(closure.is_iterator);
    assert_eq!(closure.inputs[0].output, Output::Kind(kind::ANY));
    assert_eq!(closure.inputs[0].variables[0].kind, VariableKind::TargetInnerKey);
    assert_eq!(All.closure().unwrap().inputs[0].example.source, "all([1, 2]) -> |_index, value| { value < 2 }");
    assert_eq!(Any.closure().unwrap().inputs[0].example.result, Ok("false"));
}

#[test]
fn folded_arguments_resolve_to_their_value() {
    let folded: ConstOrExpr<&str> = ConstOrExpr::new("x", Some(Value::Integer(4)));
    assert_eq!(folded.resolve(|_e| panic!("a folded argument is not resolved")), Ok(Value::Integer(4)));
    let kept: ConstOrExpr<&str> = ConstOrExpr::new("x", None);
    assert_eq!(kept.resolve(|e| Ok(Value::Bytes(e.as_bytes().to_vec()))), Ok(Value::Bytes(b"x".to_vec())));
    assert!(ConstOrExpr::<&str>::optional(None, Some(Value::Null)).is_none());
}
