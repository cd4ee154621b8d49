use tanoshi::fetch::{body_on_success, is_success, is_unauthorized};

#[test]
fn success_statuses() {
    assert!(is_success(200));
    assert!(is_success(204));
    assert!(is_success(299));
    assert!(!is_success(199));
    assert!(!is_success(300));
    assert!(!is_success(404));
    assert!(!is_success(0));
    assert!(!is_success(1200));
}

#[test]
fn unauthorized_status() {
    assert!(is_unauthorized(401));
    assert!(!is_unauthorized(403));
    assert!(!is_unauthorized(200));
    assert!(!is_unauthorized(4010));
}

#[test]
fn body_kept_only_on_success() {
    assert_eq!(body_on_success(200, Some(5)), Some(5));
    assert_eq!(body_on_success(500, Some(5)), None);
    assert_eq!(body_on_success::<i32>(200, None), None);
}
