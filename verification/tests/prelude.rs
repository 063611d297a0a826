use std::cell::Cell;

use method_taskifier::prelude::{OptionInspector, ResultInspector};

#[test]
fn result_inspect_sees_the_success_value_only() {
    let seen = Cell::new(0);
    let ok: Result<i32, String> = Ok(5);
    let back = ResultInspector::inspect(ok, |v: &i32| seen.set(*v));
    assert_eq!(back, Ok(5));
    assert_eq!(seen.get(), 5);

    let err: Result<i32, String> = Err("bad".to_string());
    let back = ResultInspector::inspect(err, |_: &i32| seen.set(100));
    assert_eq!(back, Err("bad".to_string()));
    assert_eq!(seen.get(), 5);
}

#[test]
fn result_inspect_err_sees_the_error_only() {
    let seen = Cell::new(String::new());
    let err: Result<i32, String> = Err("bad".to_string());
    let back = ResultInspector::inspect_err(&err, |e: &String| seen.set(e.clone()));
    assert_eq!(back, &Err("bad".to_string()));
    assert_eq!(seen.take(), "bad");

    let ok: Result<i32, String> = Ok(1);
    let back = ResultInspector::inspect_err(&ok, |_: &String| seen.set("called".to_string()));
    assert_eq!(back, &Ok(1));
    assert_eq!(seen.take(), "");
}

#[test]
fn result_reference_inspect() {
    let seen = Cell::new(0);
    let ok: Result<i32, ()> = Ok(3);
    let back = ResultInspector::inspect(&ok, |v: &i32| seen.set(*v * 2));
    assert_eq!(back, &Ok(3));
    assert_eq!(seen.get(), 6);
    let back = ResultInspector::inspect_err(ok, |_: &()| seen.set(0));
    assert_eq!(back, Ok(3));
    assert_eq!(seen.get(), 6);
}

#[test]
fn option_inspect_and_inspect_none() {
    let seen = Cell::new(0);
    let some = Some(8);
    assert_eq!(OptionInspector::inspect(some, |v: &i32| seen.set(*v)), Some(8));
    assert_eq!(seen.get(), 8);
    assert_eq!(OptionInspector::inspect_none(some, || seen.set(-1)), Some(8));
    assert_eq!(seen.get(), 8);

    let none: Option<i32> = None;
    assert_eq!(OptionInspector::inspect(&none, |_: &i32| seen.set(1)), &None);
    assert_eq!(seen.get(), 8);
    assert_eq!(OptionInspector::inspect_none(&none, || seen.set(-1)), &None);
    assert_eq!(seen.get(), -1);
    assert_eq!(OptionInspector::inspect(&some, |v: &i32| seen.set(*v + 1)), &Some(8));
    assert_eq!(seen.get(), 9);
}
