use bootloader::status::{FirmwareError, StatusCode};
use uefi::Status;

fn failure(status: Status) -> FirmwareError {
    FirmwareError::new(StatusCode::new(status.0)).unwrap()
}

#[test]
fn zero_is_the_only_success() {
    assert!(StatusCode::new(0).is_success());
    assert!(StatusCode::new(Status::SUCCESS.0).is_success());
    assert!(!StatusCode::new(1).is_success());
    assert!(!StatusCode::new(Status::WARN_RESET_REQUIRED.0).is_success());
    assert!(!StatusCode::new(Status::NOT_FOUND.0).is_success());
    assert!(!StatusCode::new(usize::MAX).is_success());
}

#[test]
fn not_found_is_error_fourteen() {
    let top_bit = usize::MAX / 2 + 1;
    assert_eq!(StatusCode::not_found_code().raw, top_bit + 14);
    assert_eq!(StatusCode::not_found_code().raw, Status::NOT_FOUND.0);
    assert!(StatusCode::new(Status::NOT_FOUND.0).is_not_found());
    assert!(StatusCode::new(top_bit | 14).is_not_found());
    assert!(!StatusCode::new(14).is_not_found());
    assert!(!StatusCode::new(0).is_not_found());
    assert!(!StatusCode::new(Status::OUT_OF_RESOURCES.0).is_not_found());
    assert!(!StatusCode::new(Status::UNSUPPORTED.0).is_not_found());
}

#[test]
fn out_of_resources_is_error_nine() {
    let top_bit = usize::MAX / 2 + 1;
    assert_eq!(StatusCode::out_of_resources_code().raw, top_bit + 9);
    assert_eq!(StatusCode::out_of_resources_code().raw, Status::OUT_OF_RESOURCES.0);
    assert!(StatusCode::new(Status::OUT_OF_RESOURCES.0).is_out_of_resources());
    assert!(!StatusCode::new(9).is_out_of_resources());
    assert!(!StatusCode::new(0).is_out_of_resources());
    assert!(!StatusCode::new(Status::NOT_FOUND.0).is_out_of_resources());
}

#[test]
fn unsupported_is_error_three() {
    let top_bit = usize::MAX / 2 + 1;
    assert_eq!(StatusCode::unsupported_code().raw, top_bit + 3);
    assert_eq!(StatusCode::unsupported_code().raw, Status::UNSUPPORTED.0);
    assert!(StatusCode::new(Status::UNSUPPORTED.0).is_unsupported());
    assert!(!StatusCode::new(3).is_unsupported());
    assert!(!StatusCode::new(Status::WARN_WRITE_FAILURE.0).is_unsupported());
    assert!(!StatusCode::new(0).is_unsupported());
    assert!(!StatusCode::new(Status::LOAD_ERROR.0).is_unsupported());
}

#[test]
fn success_makes_no_error() {
    assert_eq!(FirmwareError::new(StatusCode::new(0)), None);
    assert_eq!(FirmwareError::new(StatusCode::new(Status::SUCCESS.0)), None);
}

#[test]
fn every_other_status_makes_an_error_that_keeps_it() {
    for raw in [1usize, 7, Status::LOAD_ERROR.0, Status::NOT_FOUND.0, usize::MAX] {
        let error = FirmwareError::new(StatusCode::new(raw)).unwrap();
        assert_eq!(error.status(), StatusCode::new(raw));
        assert_eq!(error.status().raw, raw);
    }
}

#[test]
fn a_known_error_is_described_by_its_name() {
    assert_eq!(failure(Status::NOT_FOUND).describe(), "Error { status: NOT_FOUND, data: () }");
    assert_eq!(failure(Status::LOAD_ERROR).describe(), "Error { status: LOAD_ERROR, data: () }");
    assert_eq!(
        failure(Status::OUT_OF_RESOURCES).describe(),
        "Error { status: OUT_OF_RESOURCES, data: () }"
    );
}

#[test]
fn a_warning_is_described_by_its_name() {
    assert_eq!(
        failure(Status::WARN_DELETE_FAILURE).describe(),
        "Error { status: WARN_DELETE_FAILURE, data: () }"
    );
}

#[test]
fn an_unknown_status_is_described_by_its_number() {
    let error = FirmwareError::new(StatusCode::new(12345)).unwrap();
    assert_eq!(error.describe(), "Error { status: Status(12345), data: () }");
}

#[test]
fn the_description_is_what_the_firmware_interface_prints() {
    for status in [Status::UNSUPPORTED, Status::DEVICE_ERROR, Status::ABORTED, Status(99)] {
        assert_eq!(failure(status).describe(), format!("{:?}", uefi::Error::from(status)));
    }
}
