use http_error::cause::Cause;
use http_error::downcast::{downcast_into, if_downcast_into};
use http_error::error::ErrorValue;
use http_error::header::InvalidHeaderValue;
use http_error::status::InvalidStatusCode;

#[test]
fn matching_type_runs_body_once() {
    let mut calls = 0;
    let val = InvalidStatusCode::caused_by(Cause::new(String::from("six")));
    let r = if_downcast_into::<InvalidStatusCode, InvalidStatusCode, _, _>(val, |b| {
        calls += 1;
        b
    });
    assert_eq!(calls, 1);
    assert_eq!(
        r.ok().unwrap(),
        InvalidStatusCode::caused_by(Cause::new(String::from("six")))
    );
}

#[test]
fn other_type_skips_body_and_keeps_value() {
    let mut calls = 0;
    let val = InvalidHeaderValue::caused_by(Cause::new(String::from("kept")));
    let r = if_downcast_into::<InvalidHeaderValue, InvalidStatusCode, _, _>(val, |b| {
        calls += 1;
        b
    });
    assert_eq!(calls, 0);
    let back = r.err().unwrap();
    assert_eq!(
        back,
        InvalidHeaderValue::caused_by(Cause::new(String::from("kept")))
    );
    assert_eq!(back.source().unwrap().message(), "kept");
}

#[test]
fn downcast_into_moves_or_returns() {
    let r = downcast_into::<InvalidStatusCode, InvalidStatusCode>(InvalidStatusCode::new());
    assert_eq!(r.ok().unwrap(), InvalidStatusCode::new());
    let r = downcast_into::<InvalidStatusCode, InvalidHeaderValue>(InvalidStatusCode::new());
    assert_eq!(r.err().unwrap(), InvalidStatusCode::new());
}
