use decision_flow::guard::{check_photo_key, GuardOutcome, ACCEPTED_KEY, PHOTO_HEADER};

#[test]
fn missing_header_is_rejected_as_missing() {
    let o = check_photo_key(None);
    assert_eq!(o, GuardOutcome::RejectMissing);
    assert_eq!(o.status(), 400);
    assert!(!o.is_admitted());
}

#[test]
fn wrong_value_is_rejected_as_invalid() {
    let o = check_photo_key(Some("no"));
    assert_eq!(o, GuardOutcome::RejectInvalid);
    assert_eq!(o.status(), 403);
    assert!(!o.is_admitted());
}

#[test]
fn accepted_value_is_admitted() {
    let o = check_photo_key(Some("yes"));
    assert_eq!(o, GuardOutcome::Admit);
    assert_eq!(o.status(), 200);
    assert!(o.is_admitted());
}

#[test]
fn near_misses_are_invalid() {
    assert_eq!(check_photo_key(Some("")), GuardOutcome::RejectInvalid);
    assert_eq!(check_photo_key(Some("YES")), GuardOutcome::RejectInvalid);
    assert_eq!(check_photo_key(Some("yes ")), GuardOutcome::RejectInvalid);
}

#[test]
fn header_name_and_key() {
    assert_eq!(PHOTO_HEADER, "nice-photo");
    assert_eq!(ACCEPTED_KEY, "yes");
}
