use http_error::cause::Cause;
use http_error::error::{Error, ErrorKind, ErrorType, ErrorValue};
use http_error::header::{self, InvalidHeaderName, InvalidHeaderValue, MaxSizeReached};
use http_error::method::InvalidMethod;
use http_error::status;
use http_error::uri::{InvalidUri, InvalidUriParts};

#[test]
fn inner_error_is_invalid_status_code() {
    if let Err(e) = status::StatusCode::from_u16(6666) {
        let err: Error = e.into();
        let ie = err.get_ref();
        assert!(!ie.is::<header::InvalidHeaderValue>());
        assert!(ie.is::<status::InvalidStatusCode>());
        ie.downcast_ref::<status::InvalidStatusCode>().unwrap();

        assert!(!err.is::<header::InvalidHeaderValue>());
        assert!(err.is::<status::InvalidStatusCode>());
    } else {
        panic!("Bad status allowed!");
    }
}

fn answers(err: &Error) -> [bool; 7] {
    [
        err.is::<status::InvalidStatusCode>(),
        err.is::<InvalidMethod>(),
        err.is::<InvalidUri>(),
        err.is::<InvalidUriParts>(),
        err.is::<InvalidHeaderName>(),
        err.is::<InvalidHeaderValue>(),
        err.is::<MaxSizeReached>(),
    ]
}

fn only(i: usize) -> [bool; 7] {
    let mut a = [false; 7];
    a[i] = true;
    a
}

#[test]
fn is_holds_for_the_origin_type_only() {
    assert_eq!(answers(&status::InvalidStatusCode::new().into()), only(0));
    assert_eq!(answers(&InvalidMethod::new().into()), only(1));
    assert_eq!(answers(&InvalidUri::new().into()), only(2));
    assert_eq!(answers(&InvalidUriParts::new().into()), only(3));
    assert_eq!(answers(&InvalidHeaderName::new().into()), only(4));
    assert_eq!(answers(&InvalidHeaderValue::new().into()), only(5));
    assert_eq!(answers(&MaxSizeReached::new().into()), only(6));
}

#[test]
fn kind_reports_its_type() {
    let err: Error = InvalidUriParts::new().into();
    assert_eq!(err.get_ref().type_of(), ErrorType::UriParts);
    assert_eq!(InvalidUriParts::tag(), ErrorType::UriParts);
    let err: Error = MaxSizeReached::new().into();
    assert_eq!(err.get_ref().type_of(), ErrorType::MaxSizeReached);
}

#[test]
fn get_ref_downcasts_to_the_wrapped_value() {
    let cause = Cause::new(String::from("bad byte"));
    let err: Error = InvalidHeaderName::caused_by(cause).into();
    let back = err.get_ref().downcast_ref::<InvalidHeaderName>().unwrap();
    assert_eq!(
        back,
        &InvalidHeaderName::caused_by(Cause::new(String::from("bad byte")))
    );
    assert!(err.get_ref().downcast_ref::<InvalidHeaderValue>().is_none());
    assert!(err.get_ref().downcast_ref::<InvalidMethod>().is_none());
}

#[test]
fn get_ref_is_the_wrapped_kind() {
    let err: Error = InvalidMethod::new().into();
    assert_eq!(err.get_ref(), &ErrorKind::Method(InvalidMethod::new()));
}

#[test]
fn source_is_the_wrapped_chain() {
    let chain = || {
        Cause::caused_by(
            String::from("outer"),
            Cause::new(String::from("inner")),
        )
    };
    let wrapped = InvalidUri::caused_by(chain());
    let direct = wrapped.source().unwrap();
    assert_eq!(direct, &chain());
    let err: Error = InvalidUri::caused_by(chain()).into();
    let through = err.source().unwrap();
    assert_eq!(through, direct);
    assert_eq!(through.message(), "outer");
    let next = through.source().unwrap();
    assert_eq!(next.message(), "inner");
    assert!(next.source().is_none());
}

#[test]
fn source_is_none_without_cause() {
    let err: Error = InvalidHeaderValue::new().into();
    assert!(err.source().is_none());
    assert!(InvalidHeaderValue::new().source().is_none());
}

#[test]
fn message_is_the_wrapped_message() {
    let pairs: [(Error, &str); 7] = [
        (status::InvalidStatusCode::new().into(), status::InvalidStatusCode::new().message()),
        (InvalidMethod::new().into(), InvalidMethod::new().message()),
        (InvalidUri::new().into(), InvalidUri::new().message()),
        (InvalidUriParts::new().into(), InvalidUriParts::new().message()),
        (InvalidHeaderName::new().into(), InvalidHeaderName::new().message()),
        (InvalidHeaderValue::new().into(), InvalidHeaderValue::new().message()),
        (MaxSizeReached::new().into(), MaxSizeReached::new().message()),
    ];
    for (err, text) in pairs.iter() {
        assert_eq!(err.message(), *text);
    }
}

#[test]
fn message_has_no_framing() {
    let err: Error = status::InvalidStatusCode::new().into();
    assert_eq!(err.message(), "invalid status code");
    let err: Error = InvalidMethod::new().into();
    assert_eq!(err.message(), "invalid HTTP method");
    let err: Error = InvalidHeaderValue::new().into();
    assert_eq!(err.message(), "failed to parse header value");
    let err: Error = MaxSizeReached::new().into();
    assert_eq!(err.message(), "max size reached");
}

#[test]
fn new_matches_from() {
    let a = Error::new(InvalidUri::new());
    let b: Error = InvalidUri::new().into();
    assert_eq!(a, b);
}

#[test]
fn status_code_range() {
    assert!(status::StatusCode::from_u16(99).is_err());
    assert_eq!(status::StatusCode::from_u16(100).unwrap().as_u16(), 100);
    assert_eq!(status::StatusCode::from_u16(999).unwrap().as_u16(), 999);
    assert!(status::StatusCode::from_u16(1000).is_err());
    assert!(status::StatusCode::from_u16(0).is_err());
    assert_eq!(
        status::StatusCode::from_u16(6666).unwrap_err(),
        status::InvalidStatusCode::new()
    );
}

#[test]
fn cause_links() {
    let c = Cause::new(String::from("root"));
    assert_eq!(c.message(), "root");
    assert!(c.source().is_none());
}
