use lineproto::{CustomError, LogicError, Response};

#[test]
fn code_variant_has_fixed_description_and_no_cause() {
    let e = LogicError::Code(Response::new(550));
    assert_eq!(e.description(), "server responded with error response code");
    assert!(e.cause().is_none());
}

#[test]
fn unexpected_code_variant_has_fixed_description_and_no_cause() {
    let e = LogicError::UnexpectedCode(Response::new(240));
    assert_eq!(
        e.description(),
        "server responded with unexpected non-error response code"
    );
    assert!(e.cause().is_none());
}

#[test]
fn custom_variant_reproduces_description_verbatim() {
    let inner = CustomError::new(String::from("mailbox quota exceeded"));
    assert_eq!(inner.description(), "mailbox quota exceeded");
    let e = LogicError::Custom(inner);
    assert_eq!(e.description(), "mailbox quota exceeded");
}

#[test]
fn custom_variant_reproduces_cause_verbatim() {
    let root = CustomError::new(String::from("disk full"));
    let inner = CustomError::with_cause(String::from("message rejected"), root);
    let e = LogicError::Custom(inner);
    assert_eq!(e.description(), "message rejected");
    let cause = e.cause().expect("a recorded cause must come through");
    assert_eq!(cause.description(), "disk full");
    assert!(cause.cause().is_none());
}

#[test]
fn custom_variant_without_cause_reports_none() {
    let e = LogicError::Custom(CustomError::new(String::from("command withdrawn")));
    assert!(e.cause().is_none());
}
