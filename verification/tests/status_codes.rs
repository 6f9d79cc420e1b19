use flash_algo::status::{status_to_result, ErrorCode, FAPI_STATUS_SUCCESS};

#[test]
fn zero_status_is_success() {
    assert_eq!(FAPI_STATUS_SUCCESS, 0);
    assert!(status_to_result(0).is_ok());
    assert!(ErrorCode::new(0).is_none());
}

#[test]
fn nonzero_status_keeps_its_code_verbatim() {
    for status in [1u32, 0x42, 0x0000_0003, 0x8000_0000, u32::MAX] {
        let err = status_to_result(status).unwrap_err();
        assert_eq!(err.code(), status);
        let wrapped = ErrorCode::new(status).unwrap();
        assert_eq!(wrapped.code(), status);
        assert_eq!(ErrorCode::from_failure(status).code(), status);
    }
}

#[test]
fn distinct_statuses_stay_distinct() {
    let a = status_to_result(0x42).unwrap_err();
    let b = status_to_result(0x43).unwrap_err();
    assert_ne!(a, b);
    assert_eq!(a, ErrorCode::from_failure(0x42));
}
