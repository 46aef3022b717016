use demohost::outcome::{Failure, FailureKind, Outcome};
use demohost::response::{decimal_text, respond, Response, STATUS_FAILED, STATUS_OK};

fn fault(kind: FailureKind, detail: &str) -> Outcome {
    Outcome::Fault(Failure::new(kind, detail.to_string()))
}

#[test]
fn statuses_are_200_and_500() {
    assert_eq!(STATUS_OK, 200);
    assert_eq!(STATUS_FAILED, 500);
}

#[test]
fn decimal_text_of_small_numbers() {
    assert_eq!(decimal_text(0), "0");
    assert_eq!(decimal_text(5), "5");
    assert_eq!(decimal_text(9), "9");
    assert_eq!(decimal_text(10), "10");
    assert_eq!(decimal_text(42), "42");
    assert_eq!(decimal_text(100), "100");
    assert_eq!(decimal_text(1234567890), "1234567890");
}

#[test]
fn decimal_text_of_negative_numbers() {
    assert_eq!(decimal_text(-1), "-1");
    assert_eq!(decimal_text(-10), "-10");
    assert_eq!(decimal_text(-907), "-907");
}

#[test]
fn decimal_text_at_the_ends() {
    assert_eq!(decimal_text(i32::MAX), "2147483647");
    assert_eq!(decimal_text(i32::MIN), "-2147483648");
}

#[test]
fn decimal_text_agrees_with_the_standard_library() {
    let mut v: i32 = -2147483000;
    for _ in 0..4000 {
        assert_eq!(decimal_text(v), format!("{v}"));
        v = v.wrapping_add(1073741);
    }
}

#[test]
fn value_gives_success_and_the_result() {
    assert_eq!(
        respond(&Outcome::Value(5)),
        Response { status: 200, body: "result: 5".to_string() }
    );
    assert_eq!(
        respond(&Outcome::Value(-12)),
        Response { status: 200, body: "result: -12".to_string() }
    );
    assert_eq!(
        respond(&Outcome::Value(0)),
        Response { status: 200, body: "result: 0".to_string() }
    );
}

#[test]
fn fault_gives_failure_and_names_the_kind() {
    assert_eq!(
        respond(&fault(FailureKind::Trap, "wasm trap: out of bounds memory access")),
        Response {
            status: 500,
            body: "failed to run module: Trap: wasm trap: out of bounds memory access".to_string(),
        }
    );
    assert_eq!(
        respond(&fault(FailureKind::MissingEntryPoint, "no export named do_work")),
        Response {
            status: 500,
            body: "failed to run module: MissingEntryPoint: no export named do_work".to_string(),
        }
    );
}

#[test]
fn every_kind_has_its_own_label() {
    assert_eq!(FailureKind::MalformedBinary.label(), "MalformedBinary");
    assert_eq!(FailureKind::ValidationFailed.label(), "ValidationFailed");
    assert_eq!(FailureKind::LinkFailed.label(), "LinkFailed");
    assert_eq!(FailureKind::MissingEntryPoint.label(), "MissingEntryPoint");
    assert_eq!(FailureKind::SignatureMismatch.label(), "SignatureMismatch");
    assert_eq!(FailureKind::Trap.label(), "Trap");
}

#[test]
fn message_is_label_colon_detail() {
    let failure = Failure::new(FailureKind::LinkFailed, "unknown import env::add".to_string());
    assert_eq!(failure.message(), "LinkFailed: unknown import env::add");
    let bare = Failure::new(FailureKind::Trap, String::new());
    assert_eq!(bare.message(), "Trap: ");
    assert!(!bare.message().is_empty());
}
