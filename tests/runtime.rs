use rillrate_js::args::CallArgs;
use rillrate_js::command::{Command, Creation};
use rillrate_js::dispatch::{
    class_name, constructor_descriptor, kinds, method_descriptor, method_name, methods_of, Method,
    ProviderKind,
};
use rillrate_js::number::Number;
use rillrate_js::runtime::{BindingError, Runtime};
use rillrate_js::value::{ArgError, ArgType, Column, HostValue};

fn num(x: f64) -> Number {
    Number::from_bits(x.to_bits())
}

fn n(x: f64) -> HostValue {
    HostValue::Number(num(x))
}

fn s(x: &str) -> HostValue {
    HostValue::Text(x.to_string())
}

fn args(values: Vec<HostValue>) -> CallArgs {
    CallArgs::new(values)
}

fn installed() -> Runtime<&'static str, u32> {
    let mut rt = Runtime::new();
    assert_eq!(rt.install("client"), Ok(()));
    rt
}

/// Constructs a provider of `kind` on `object` the way the host module does.
fn construct(rt: &mut Runtime<&'static str, u32>, object: u64, kind: ProviderKind, values: Vec<HostValue>, payload: u32) {
    let creation = rt.prepare_construct(object, kind, &args(values));
    assert!(creation.is_ok(), "{:?}", creation);
    assert_eq!(rt.bind(object, kind, payload), Ok(()));
}

#[test]
fn install_succeeds_exactly_once() {
    let mut rt: Runtime<&'static str, u32> = Runtime::new();
    assert!(!rt.is_installed());
    assert_eq!(rt.client(), Err(BindingError::NotInstalled));
    assert_eq!(rt.install("first"), Ok(()));
    assert!(rt.is_installed());
    assert_eq!(rt.install("second"), Err(BindingError::AlreadyInstalled));
    assert_eq!(rt.install("third"), Err(BindingError::AlreadyInstalled));
    assert_eq!(rt.client(), Ok(&"first"));
}

#[test]
fn install_stays_after_bindings_come_and_go() {
    let mut rt = installed();
    construct(&mut rt, 1, ProviderKind::Counter, vec![s("app.hits")], 10);
    assert_eq!(rt.release(1), Some(10));
    assert_eq!(rt.install("again"), Err(BindingError::AlreadyInstalled));
}

#[test]
fn construction_before_install_fails() {
    let rt: Runtime<&'static str, u32> = Runtime::new();
    for kind in kinds() {
        assert_eq!(
            rt.prepare_construct(1, kind, &args(vec![s("a.b")])).err(),
            Some(BindingError::NotInstalled)
        );
        assert_eq!(rt.prepare_construct(1, kind, &args(vec![])).err(), Some(BindingError::NotInstalled));
    }
    let mut rt: Runtime<&'static str, u32> = Runtime::new();
    assert_eq!(rt.bind(1, ProviderKind::Counter, 0), Err(BindingError::NotInstalled));
}

#[test]
fn counter_takes_positive_and_refuses_negative_delta() {
    let mut rt = installed();
    construct(&mut rt, 7, ProviderKind::Counter, vec![s("app.requests")], 1);
    let first = rt.prepare_call(7, ProviderKind::Counter, Method::Inc, &args(vec![n(3.0)]));
    assert_eq!(first, Ok((&1, Command::Inc(num(3.0)))));
    let second = rt.prepare_call(7, ProviderKind::Counter, Method::Inc, &args(vec![n(-1.0)]));
    assert_eq!(
        second,
        Err(BindingError::Argument(ArgError::TypeMismatch { index: 0, expected: ArgType::NonNegative }))
    );
    let nan = rt.prepare_call(7, ProviderKind::Counter, Method::Inc, &args(vec![n(f64::NAN)]));
    assert!(nan.is_err());
    let zero = rt.prepare_call(7, ProviderKind::Counter, Method::Inc, &args(vec![n(-0.0)]));
    assert_eq!(zero, Ok((&1, Command::Inc(num(-0.0)))));
}

#[test]
fn pulse_takes_negative_values() {
    let mut rt = installed();
    construct(&mut rt, 3, ProviderKind::Pulse, vec![s("app.load")], 5);
    assert_eq!(
        rt.prepare_call(3, ProviderKind::Pulse, Method::Dec, &args(vec![n(-2.5)])),
        Ok((&5, Command::Dec(num(-2.5))))
    );
    assert_eq!(
        rt.prepare_call(3, ProviderKind::Pulse, Method::Inc, &args(vec![n(1.0)])),
        Ok((&5, Command::Inc(num(1.0))))
    );
    assert_eq!(
        rt.prepare_call(3, ProviderKind::Pulse, Method::SetValue, &args(vec![n(9.0)])),
        Ok((&5, Command::SetValue(num(9.0))))
    );
}

#[test]
fn histogram_keeps_bounds_and_forwards_observation() {
    let mut rt = installed();
    let values = vec![s("app.latency"), HostValue::Array(vec![n(1.0), n(5.0), n(10.0)])];
    assert_eq!(
        rt.prepare_construct(4, ProviderKind::Histogram, &args(values)),
        Ok(Creation::Histogram {
            path: "app.latency".to_string(),
            bounds: vec![num(1.0), num(5.0), num(10.0)],
        })
    );
    assert_eq!(rt.bind(4, ProviderKind::Histogram, 40), Ok(()));
    assert_eq!(
        rt.prepare_call(4, ProviderKind::Histogram, Method::Add, &args(vec![n(7.0)])),
        Ok((&40, Command::Add(num(7.0))))
    );
}

#[test]
fn table_rows_are_added_and_deleted_by_id() {
    let mut rt = installed();
    let schema = HostValue::Array(vec![
        HostValue::Array(vec![n(0.0), s("a")]),
        HostValue::Array(vec![n(1.0), s("b")]),
    ]);
    assert_eq!(
        rt.prepare_construct(9, ProviderKind::Table, &args(vec![s("app.jobs"), schema])),
        Ok(Creation::Table {
            path: "app.jobs".to_string(),
            columns: vec![
                Column { index: 0, name: "a".to_string() },
                Column { index: 1, name: "b".to_string() },
            ],
        })
    );
    assert_eq!(rt.bind(9, ProviderKind::Table, 90), Ok(()));
    assert_eq!(
        rt.prepare_call(9, ProviderKind::Table, Method::AddRow, &args(vec![n(42.0)])),
        Ok((&90, Command::AddRow(42)))
    );
    assert_eq!(
        rt.prepare_call(9, ProviderKind::Table, Method::DelRow, &args(vec![n(42.0)])),
        Ok((&90, Command::DelRow(42)))
    );
}

#[test]
fn gauge_dict_and_logger_commands() {
    let mut rt = installed();
    assert_eq!(
        rt.prepare_construct(1, ProviderKind::Gauge, &args(vec![s("g"), n(0.0), n(100.0)])),
        Ok(Creation::Gauge { path: "g".to_string(), min: num(0.0), max: num(100.0) })
    );
    assert_eq!(rt.bind(1, ProviderKind::Gauge, 1), Ok(()));
    assert_eq!(
        rt.prepare_call(1, ProviderKind::Gauge, Method::SetValue, &args(vec![n(55.5)])),
        Ok((&1, Command::SetValue(num(55.5))))
    );
    construct(&mut rt, 2, ProviderKind::Dict, vec![s("d")], 2);
    assert_eq!(
        rt.prepare_call(2, ProviderKind::Dict, Method::SetValue, &args(vec![s("k"), s("v")])),
        Ok((&2, Command::SetEntry { key: "k".to_string(), value: "v".to_string() }))
    );
    assert_eq!(
        rt.prepare_call(2, ProviderKind::Dict, Method::SetValue, &args(vec![s("k"), n(1.0)])),
        Err(BindingError::Argument(ArgError::TypeMismatch { index: 1, expected: ArgType::Text }))
    );
    construct(&mut rt, 3, ProviderKind::Logger, vec![s("l")], 3);
    assert_eq!(
        rt.prepare_call(3, ProviderKind::Logger, Method::Log, &args(vec![s("hello")])),
        Ok((&3, Command::Log("hello".to_string())))
    );
    assert_eq!(
        rt.prepare_call(3, ProviderKind::Logger, Method::IsActive, &args(vec![])),
        Ok((&3, Command::IsActive))
    );
}

#[test]
fn method_on_unbound_object_fails() {
    let mut rt = installed();
    for kind in kinds() {
        for method in methods_of(kind) {
            assert_eq!(
                rt.prepare_call(99, kind, method, &args(vec![n(1.0), s("x")])).err(),
                Some(BindingError::Unbound)
            );
        }
    }
    construct(&mut rt, 5, ProviderKind::Logger, vec![s("l")], 0);
    assert_eq!(
        rt.prepare_call(5, ProviderKind::Counter, Method::Inc, &args(vec![n(1.0)])).err(),
        Some(BindingError::KindMismatch { expected: ProviderKind::Counter, found: ProviderKind::Logger })
    );
    assert_eq!(
        rt.fetch(5, ProviderKind::Table),
        Err(BindingError::KindMismatch { expected: ProviderKind::Table, found: ProviderKind::Logger })
    );
    assert_eq!(rt.fetch(5, ProviderKind::Logger), Ok(&0));
    let fresh: Runtime<&'static str, u32> = Runtime::new();
    assert_eq!(
        fresh.prepare_call(1, ProviderKind::Table, Method::IsActive, &args(vec![])).err(),
        Some(BindingError::Unbound)
    );
}

#[test]
fn binding_is_exclusive_and_released() {
    let mut rt = installed();
    construct(&mut rt, 1, ProviderKind::Counter, vec![s("c")], 11);
    assert_eq!(rt.bind(1, ProviderKind::Gauge, 12), Err(BindingError::AlreadyBound));
    assert_eq!(
        rt.prepare_construct(1, ProviderKind::Counter, &args(vec![s("c")])).err(),
        Some(BindingError::AlreadyBound)
    );
    assert_eq!(rt.fetch(1, ProviderKind::Counter), Ok(&11));
    assert_eq!(rt.release(1), Some(11));
    assert_eq!(rt.release(1), None);
    assert_eq!(rt.fetch(1, ProviderKind::Counter), Err(BindingError::Unbound));
    assert_eq!(rt.bind(1, ProviderKind::Gauge, 12), Ok(()));
    assert_eq!(rt.fetch(1, ProviderKind::Gauge), Ok(&12));
}

#[test]
fn argument_errors_surface_from_calls() {
    let mut rt = installed();
    assert_eq!(
        rt.prepare_construct(1, ProviderKind::Gauge, &args(vec![s("g"), n(0.0)])).err(),
        Some(BindingError::Argument(ArgError::Missing { index: 2 }))
    );
    assert_eq!(
        rt.prepare_construct(1, ProviderKind::Counter, &args(vec![s("c"), s("extra")])).err(),
        Some(BindingError::Argument(ArgError::TooMany { declared: 1, given: 2 }))
    );
    assert_eq!(
        rt.prepare_construct(
            1,
            ProviderKind::Histogram,
            &args(vec![s("h"), HostValue::Array(vec![n(1.0), HostValue::Boolean(false)])])
        )
        .err(),
        Some(BindingError::Argument(ArgError::ElementMismatch {
            index: 1,
            element: 1,
            expected: ArgType::NumberList
        }))
    );
    construct(&mut rt, 2, ProviderKind::Counter, vec![s("c")], 0);
    assert_eq!(
        rt.prepare_call(2, ProviderKind::Counter, Method::Log, &args(vec![s("x")])).err(),
        Some(BindingError::NoSuchMethod)
    );
    assert_eq!(
        rt.prepare_call(2, ProviderKind::Counter, Method::IsActive, &args(vec![n(1.0)])).err(),
        Some(BindingError::Argument(ArgError::TooMany { declared: 0, given: 1 }))
    );
}

#[test]
fn error_reasons_are_distinct() {
    let errors = vec![
        BindingError::Argument(ArgError::Missing { index: 0 }),
        BindingError::Argument(ArgError::TypeMismatch { index: 0, expected: ArgType::Text }),
        BindingError::Argument(ArgError::ElementMismatch { index: 0, element: 0, expected: ArgType::NumberList }),
        BindingError::Argument(ArgError::TooMany { declared: 0, given: 1 }),
        BindingError::NotInstalled,
        BindingError::AlreadyInstalled,
        BindingError::Unbound,
        BindingError::KindMismatch { expected: ProviderKind::Counter, found: ProviderKind::Gauge },
        BindingError::AlreadyBound,
        BindingError::NoSuchMethod,
    ];
    let reasons: Vec<&str> = errors.iter().map(|e| e.reason()).collect();
    for (i, a) in reasons.iter().enumerate() {
        assert!(!a.is_empty());
        for b in reasons.iter().skip(i + 1) {
            assert_ne!(a, b);
        }
    }
    assert_eq!(BindingError::NotInstalled.reason(), "the telemetry client is not installed");
}

#[test]
fn module_tables_list_every_class_and_method() {
    let names: Vec<&str> = kinds().into_iter().map(class_name).collect();
    assert_eq!(names, vec!["Counter", "Gauge", "Histogram", "Pulse", "Dict", "Logger", "Table"]);
    let table: Vec<&str> = methods_of(ProviderKind::Table).into_iter().map(method_name).collect();
    assert_eq!(table, vec!["isActive", "add_row", "del_row"]);
    let pulse: Vec<&str> = methods_of(ProviderKind::Pulse).into_iter().map(method_name).collect();
    assert_eq!(pulse, vec!["isActive", "inc", "dec", "set"]);
    for kind in kinds() {
        for method in methods_of(kind) {
            assert!(method_descriptor(kind, method).is_some());
        }
        assert_eq!(constructor_descriptor(kind)[0], ArgType::Text);
    }
    assert_eq!(method_descriptor(ProviderKind::Gauge, Method::Inc), None);
    assert_eq!(
        constructor_descriptor(ProviderKind::Gauge),
        vec![ArgType::Text, ArgType::Number, ArgType::Number]
    );
    assert_eq!(method_descriptor(ProviderKind::Counter, Method::Inc), Some(vec![ArgType::NonNegative]));
}
