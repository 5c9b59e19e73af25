use rillrate_js::args::CallArgs;
use rillrate_js::dispatch::{decode_call, ProviderKind};
use rillrate_js::number::Number;
use rillrate_js::value::{ArgError, ArgType, ArgValue, Column, HostValue};

fn num(x: f64) -> Number {
    Number::from_bits(x.to_bits())
}

fn n(x: f64) -> HostValue {
    HostValue::Number(num(x))
}

fn s(x: &str) -> HostValue {
    HostValue::Text(x.to_string())
}

#[test]
fn uint32_of_small_integers() {
    assert_eq!(num(0.0).to_uint32(), 0);
    assert_eq!(num(42.0).to_uint32(), 42);
    assert_eq!(num(1.0).to_uint32(), 1);
    assert_eq!(num(4294967295.0).to_uint32(), 4294967295);
}

#[test]
fn uint32_truncates_toward_zero() {
    assert_eq!(num(3.7).to_uint32(), 3);
    assert_eq!(num(0.5).to_uint32(), 0);
    assert_eq!(num(-0.5).to_uint32(), 0);
    assert_eq!(num(-3.7).to_uint32(), 4294967293);
}

#[test]
fn uint32_wraps_modulo_two_pow_32() {
    assert_eq!(num(-1.0).to_uint32(), 4294967295);
    assert_eq!(num(4294967296.0).to_uint32(), 0);
    assert_eq!(num(4294967301.0).to_uint32(), 5);
    let big: f64 = 1e20;
    assert_eq!(num(big).to_uint32(), (100000000000000000000u128 % 4294967296u128) as u32);
    assert_eq!(num(2f64.powi(80)).to_uint32(), 0);
    assert_eq!(num(2f64.powi(31) * 3.0).to_uint32(), 2147483648);
}

#[test]
fn uint32_of_non_finite_is_zero() {
    assert_eq!(num(f64::NAN).to_uint32(), 0);
    assert_eq!(num(f64::INFINITY).to_uint32(), 0);
    assert_eq!(num(f64::NEG_INFINITY).to_uint32(), 0);
    assert_eq!(num(-0.0).to_uint32(), 0);
}

#[test]
fn non_negative_classification() {
    assert!(num(3.0).is_non_negative_number());
    assert!(num(0.0).is_non_negative_number());
    assert!(num(-0.0).is_non_negative_number());
    assert!(num(f64::INFINITY).is_non_negative_number());
    assert!(!num(-1.0).is_non_negative_number());
    assert!(!num(-1e-300).is_non_negative_number());
    assert!(!num(f64::NEG_INFINITY).is_non_negative_number());
    assert!(!num(f64::NAN).is_non_negative_number());
}

#[test]
fn text_present_missing_and_mismatched() {
    let args = CallArgs::new(vec![s("a.b.c"), n(1.0)]);
    assert_eq!(args.text(0), Ok("a.b.c".to_string()));
    assert_eq!(args.text(1), Err(ArgError::TypeMismatch { index: 1, expected: ArgType::Text }));
    assert_eq!(args.text(2), Err(ArgError::Missing { index: 2 }));
}

#[test]
fn number_and_uint32_extraction() {
    let args = CallArgs::new(vec![n(7.5), HostValue::Undefined, n(-2.0)]);
    assert_eq!(args.number(0), Ok(num(7.5)));
    assert_eq!(args.number(1), Err(ArgError::TypeMismatch { index: 1, expected: ArgType::Number }));
    assert_eq!(args.number(3), Err(ArgError::Missing { index: 3 }));
    assert_eq!(args.uint32(0), Ok(7));
    assert_eq!(args.uint32(2), Ok(4294967294));
    assert_eq!(args.non_negative(0), Ok(num(7.5)));
    assert_eq!(
        args.non_negative(2),
        Err(ArgError::TypeMismatch { index: 2, expected: ArgType::NonNegative })
    );
}

#[test]
fn number_list_reports_first_bad_element() {
    let good = CallArgs::new(vec![HostValue::Array(vec![n(1.0), n(5.0), n(10.0)])]);
    assert_eq!(good.numbers(0), Ok(vec![num(1.0), num(5.0), num(10.0)]));
    let empty = CallArgs::new(vec![HostValue::Array(vec![])]);
    assert_eq!(empty.numbers(0), Ok(vec![]));
    let bad = CallArgs::new(vec![
        s("path"),
        HostValue::Array(vec![n(1.0), s("x"), HostValue::Null]),
    ]);
    assert_eq!(
        bad.numbers(1),
        Err(ArgError::ElementMismatch { index: 1, element: 1, expected: ArgType::NumberList })
    );
    assert_eq!(
        bad.numbers(0),
        Err(ArgError::TypeMismatch { index: 0, expected: ArgType::NumberList })
    );
}

#[test]
fn column_list_reads_index_and_name() {
    let args = CallArgs::new(vec![HostValue::Array(vec![
        HostValue::Array(vec![n(0.0), s("a")]),
        HostValue::Array(vec![n(1.0), s("b")]),
    ])]);
    assert_eq!(
        args.columns(0),
        Ok(vec![
            Column { index: 0, name: "a".to_string() },
            Column { index: 1, name: "b".to_string() },
        ])
    );
}

#[test]
fn column_list_refuses_malformed_records() {
    let three = CallArgs::new(vec![HostValue::Array(vec![
        HostValue::Array(vec![n(0.0), s("a")]),
        HostValue::Array(vec![n(1.0), s("b"), s("c")]),
    ])]);
    assert_eq!(
        three.columns(0),
        Err(ArgError::ElementMismatch { index: 0, element: 1, expected: ArgType::ColumnList })
    );
    let swapped = CallArgs::new(vec![HostValue::Array(vec![HostValue::Array(vec![s("a"), n(0.0)])])]);
    assert_eq!(
        swapped.columns(0),
        Err(ArgError::ElementMismatch { index: 0, element: 0, expected: ArgType::ColumnList })
    );
    let flat = CallArgs::new(vec![HostValue::Array(vec![n(0.0)])]);
    assert_eq!(
        flat.columns(0),
        Err(ArgError::ElementMismatch { index: 0, element: 0, expected: ArgType::ColumnList })
    );
}

#[test]
fn decode_call_checks_count_and_positions() {
    let params = vec![ArgType::Text, ArgType::Number, ArgType::Number];
    let ok = CallArgs::new(vec![s("g"), n(0.0), n(100.0)]);
    assert_eq!(
        decode_call(&params, &ok),
        Ok(vec![
            ArgValue::Text("g".to_string()),
            ArgValue::Number(num(0.0)),
            ArgValue::Number(num(100.0)),
        ])
    );
    let many = CallArgs::new(vec![s("g"), n(0.0), n(100.0), n(1.0)]);
    assert_eq!(decode_call(&params, &many), Err(ArgError::TooMany { declared: 3, given: 4 }));
    let short = CallArgs::new(vec![s("g")]);
    assert_eq!(decode_call(&params, &short), Err(ArgError::Missing { index: 1 }));
    let wrong = CallArgs::new(vec![n(1.0), s("x")]);
    assert_eq!(
        decode_call(&params, &wrong),
        Err(ArgError::TypeMismatch { index: 0, expected: ArgType::Text })
    );
}

#[test]
fn decode_call_with_no_params() {
    let params: Vec<ArgType> = vec![];
    assert_eq!(decode_call(&params, &CallArgs::new(vec![])), Ok(vec![]));
    assert_eq!(
        decode_call(&params, &CallArgs::new(vec![HostValue::Boolean(true)])),
        Err(ArgError::TooMany { declared: 0, given: 1 })
    );
    let _ = ProviderKind::Counter;
}
