use glib::object::{check_handler_return, validate_signal_arguments, HandlerReturnError, SignalQuery};
use glib::types::{Type, TypeLineage};
use glib::value::{ToValue, Value, ValueData};

fn object_value(t: Type, supers: Vec<Type>) -> Value {
    Value::new(
        TypeLineage::new(Type::object(), vec![]),
        ValueData::Object(Some(TypeLineage::new(t, supers))),
    )
}

#[test]
fn signal_arguments_are_checked() {
    let q = SignalQuery::new("changed".to_string(), vec![Type::i32(), Type(1000)]);
    assert_eq!(q.signal_name(), "changed");
    assert_eq!(q.n_params(), 2);

    let mut args = vec![5i32.to_value(), object_value(Type(1100), vec![Type(1000), Type::object()])];
    assert!(validate_signal_arguments(Type::object(), &q, &mut args).is_ok());
    assert_eq!(args[1].type_(), Type(1000));

    let mut too_few = vec![5i32.to_value()];
    assert!(validate_signal_arguments(Type::object(), &q, &mut too_few).is_err());

    let mut wrong = vec![5u32.to_value(), object_value(Type(1100), vec![Type(1000)])];
    assert!(validate_signal_arguments(Type::object(), &q, &mut wrong).is_err());

    let mut foreign = vec![5i32.to_value(), object_value(Type(1200), vec![])];
    assert!(validate_signal_arguments(Type::object(), &q, &mut foreign).is_err());
    assert_eq!(foreign[1].type_(), Type::object());

    let mut no_object = vec![
        5i32.to_value(),
        Value::new(TypeLineage::new(Type::object(), vec![]), ValueData::Object(None)),
    ];
    assert!(validate_signal_arguments(Type::object(), &q, &mut no_object).is_ok());
}

#[test]
fn value_round_trip() {
    let v = "text".to_string().to_value();
    assert_eq!(v.type_(), Type::string());
    let b = true.to_value();
    assert_eq!(b.type_(), Type::bool());
    assert_eq!(7u64.to_value().type_(), Type::u64());
    assert_eq!((-7i64).to_value().type_(), Type::i64());
}

#[test]
fn handler_return_values() {

    assert!(matches!(check_handler_return(Type::unit(), None), Ok(None)));
    assert_eq!(check_handler_return(Type::unit(), Some(1i32.to_value())).unwrap_err(), HandlerReturnError::UnexpectedValue);
    assert_eq!(check_handler_return(Type::i32(), None).unwrap_err(), HandlerReturnError::MissingValue);
    assert_eq!(check_handler_return(Type::i32(), Some(true.to_value())).unwrap_err(), HandlerReturnError::WrongType);
    assert_eq!(check_handler_return(Type::i32(), Some(2i32.to_value())).unwrap().unwrap().type_(), Type::i32());
    let obj = object_value(Type(1100), vec![Type(1000), Type::object()]);
    assert_eq!(check_handler_return(Type(1000), Some(obj)).unwrap().unwrap().type_(), Type(1000));
    let other = object_value(Type(1200), vec![Type::object()]);
    assert_eq!(check_handler_return(Type(1000), Some(other)).unwrap_err(), HandlerReturnError::WrongType);
}

#[test]
fn arguments_before_a_misfit_are_retyped() {
    let q = SignalQuery::new("moved".to_string(), vec![Type(1000), Type::i32()]);
    let mut args = vec![object_value(Type(1100), vec![Type(1000), Type::object()]), 5u32.to_value()];
    assert!(validate_signal_arguments(Type::object(), &q, &mut args).is_err());
    assert_eq!(args[0].type_(), Type(1000));
    assert_eq!(args[1].type_(), Type::u32());
}
