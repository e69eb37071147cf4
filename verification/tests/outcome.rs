use bootloader::outcome::{InitError, Outcome, ReadError, ReadStep, ResolveError};
use bootloader::status::{FirmwareError, StatusCode};
use uefi::fs::{IoError, IoErrorContext, Path, PathBuf};
use uefi::{CString16, Status};

fn failure(status: Status) -> FirmwareError {
    FirmwareError::new(StatusCode::new(status.0)).unwrap()
}

fn io(step: ReadStep, status: Status) -> ReadError {
    ReadError::Io { step, status: failure(status) }
}

/// The error that the firmware interface makes when a read of the kernel
/// fails in `context` with `status`, as it formats itself.
fn firmware_io_error(context: &IoErrorContext, status: Status) -> String {
    let kernel = CString16::try_from("\\brisbane\\boot\\kernel").unwrap();
    let path = Path::new(&kernel).to_path_buf();
    format!("{:?}", IoError { path, context: context.clone(), uefi_error: status.into() })
}

#[test]
fn a_missing_file_means_kernel_not_found() {
    let outcome = Outcome::of_read(io(ReadStep::OpenFile, Status::NOT_FOUND));
    assert_eq!(outcome, Outcome::KernelNotFound);
    assert_eq!(outcome.message(), "Kernel not found.");
}

#[test]
fn exhausted_memory_has_a_message_of_its_own() {
    let outcome = Outcome::of_read(io(ReadStep::ReadFile, Status::OUT_OF_RESOURCES));
    assert_eq!(outcome, Outcome::KernelReadExhausted);
    assert_eq!(outcome.message(), "Not enough system memory to load the kernel.");
}

#[test]
fn any_other_firmware_failure_on_the_file_is_a_read_fault() {
    for status in [Status::DEVICE_ERROR, Status::VOLUME_CORRUPTED, Status::UNSUPPORTED, Status(77)] {
        let outcome = Outcome::of_read(io(ReadStep::ReadFile, status));
        assert_eq!(outcome, Outcome::KernelRead(io(ReadStep::ReadFile, status)));
        assert_eq!(outcome.heading(), "Internal system error while reading kernel: ");
        assert_eq!(outcome.status(), Some(StatusCode::new(status.0)));
    }
}

#[test]
fn a_read_fault_is_told_as_the_firmware_interface_prints_it() {
    let steps = [
        (ReadStep::OpenFile, IoErrorContext::OpenError),
        (ReadStep::NotAFile, IoErrorContext::NotAFile),
        (ReadStep::Metadata, IoErrorContext::Metadata),
        (ReadStep::ReadFile, IoErrorContext::ReadFailure),
    ];
    for (step, context) in steps {
        for status in [Status::DEVICE_ERROR, Status::INVALID_PARAMETER, Status(0x1234)] {
            let outcome = Outcome::of_read(io(step, status));
            assert_eq!(outcome.detail(), firmware_io_error(&context, status));
            assert_eq!(
                outcome.message(),
                format!(
                    "Internal system error while reading kernel: {}",
                    firmware_io_error(&context, status)
                )
            );
        }
    }
}

#[test]
fn a_read_fault_names_path_step_and_status() {
    let outcome = Outcome::of_read(io(ReadStep::ReadFile, Status::DEVICE_ERROR));
    let kernel = CString16::try_from("\\brisbane\\boot\\kernel").unwrap();
    assert_eq!(
        outcome.message(),
        format!(
            "Internal system error while reading kernel: IoError {{ path: {:?}, context: ReadFailure, uefi_error: Error {{ status: DEVICE_ERROR, data: () }} }}",
            PathBuf::from(kernel)
        )
    );
    assert!(outcome.message().ends_with(
        "context: ReadFailure, uefi_error: Error { status: DEVICE_ERROR, data: () } }"
    ));
}

#[test]
fn a_volume_whose_root_does_not_open_is_told_with_the_root_path() {
    let outcome = Outcome::of_read(io(ReadStep::OpenVolume, Status::VOLUME_CORRUPTED));
    let mut root = PathBuf::new();
    root.push(uefi::fs::SEPARATOR_STR);
    let expected = format!(
        "{:?}",
        IoError {
            path: root,
            context: IoErrorContext::CantOpenVolume,
            uefi_error: Status::VOLUME_CORRUPTED.into()
        }
    );
    assert_eq!(outcome.detail(), expected);
    assert_eq!(outcome.status(), Some(StatusCode::new(Status::VOLUME_CORRUPTED.0)));
}

#[test]
fn a_missing_file_is_not_found_at_whatever_step_it_shows() {
    for step in [
        ReadStep::OpenVolume,
        ReadStep::OpenFile,
        ReadStep::NotAFile,
        ReadStep::Metadata,
        ReadStep::ReadFile,
    ] {
        assert_eq!(Outcome::of_read(io(step, Status::NOT_FOUND)), Outcome::KernelNotFound);
        assert_eq!(
            Outcome::of_read(io(step, Status::OUT_OF_RESOURCES)),
            Outcome::KernelReadExhausted
        );
    }
}

#[test]
fn an_empty_read_is_a_read_fault_without_a_status() {
    let outcome = Outcome::of_read(ReadError::Empty);
    assert_eq!(outcome, Outcome::KernelRead(ReadError::Empty));
    assert_eq!(
        outcome.message(),
        "Internal system error while reading kernel: the kernel file is empty"
    );
    assert_eq!(outcome.detail(), "the kernel file is empty");
    assert_eq!(outcome.status(), None);
    assert!(outcome.is_failure());
}

#[test]
fn a_read_that_failed_before_the_firmware_is_a_read_fault() {
    let error = ReadError::Other { detail: "Path(Empty)".to_string() };
    let outcome = Outcome::of_read(error.clone());
    assert_eq!(outcome, Outcome::KernelRead(error));
    assert_eq!(outcome.message(), "Internal system error while reading kernel: Path(Empty)");
    assert_eq!(outcome.status(), None);
}

#[test]
fn a_volume_that_does_not_open_is_never_a_missing_kernel() {
    for status in [Status::NOT_FOUND, Status::OUT_OF_RESOURCES, Status::UNSUPPORTED] {
        let outcome = Outcome::of_read(ReadError::Volume(failure(status)));
        assert_eq!(outcome, Outcome::KernelRead(ReadError::Volume(failure(status))));
        assert_eq!(outcome.status(), Some(StatusCode::new(status.0)));
    }
    let outcome = Outcome::of_read(ReadError::Volume(failure(Status::NOT_FOUND)));
    assert_eq!(
        outcome.message(),
        "called `Result::unwrap()` on an `Err` value: Error { status: NOT_FOUND, data: () }"
    );
}

#[test]
fn a_kernel_that_returns_success_is_the_unexpected_success() {
    let outcome = Outcome::of_start(StatusCode::new(Status::SUCCESS.0));
    assert_eq!(outcome, Outcome::UnexpectedSuccess);
    assert_eq!(outcome.message(), "Operation completed successfully.");
    assert!(!outcome.is_failure());
    assert_eq!(outcome.status(), Some(StatusCode::new(0)));
}

#[test]
fn a_kernel_that_returns_unsupported_has_reported_itself() {
    let outcome = Outcome::of_start(StatusCode::new(Status::UNSUPPORTED.0));
    assert_eq!(outcome, Outcome::KernelReported);
    assert_eq!(outcome.message(), "System error encountered in kernel (look above).");
    assert!(outcome.is_failure());
    assert_eq!(outcome.status(), Some(StatusCode::new(Status::UNSUPPORTED.0)));
}

#[test]
fn any_other_return_is_a_start_fault_with_its_status() {
    for status in [Status::LOAD_ERROR, Status::ABORTED, Status::WARN_STALE_DATA, Status::NOT_FOUND] {
        let outcome = Outcome::of_start(StatusCode::new(status.0));
        assert_eq!(outcome, Outcome::KernelStart(failure(status)));
        assert_eq!(outcome.status(), Some(StatusCode::new(status.0)));
        assert_eq!(
            outcome.message(),
            format!("Internal system error while starting kernel: {:?}", uefi::Error::from(status))
        );
    }
    let outcome = Outcome::of_start(StatusCode::new(Status::ABORTED.0));
    assert_eq!(
        outcome.message(),
        "Internal system error while starting kernel: Error { status: ABORTED, data: () }"
    );
}

#[test]
fn only_the_error_unsupported_is_the_kernels_own_report() {
    let outcome = Outcome::of_start(StatusCode::new(3));
    assert_eq!(outcome, Outcome::KernelStart(FirmwareError::new(StatusCode::new(3)).unwrap()));
    assert_eq!(
        outcome.message(),
        "Internal system error while starting kernel: Error { status: WARN_WRITE_FAILURE, data: () }"
    );
}

#[test]
fn a_load_fault_shows_the_firmware_error() {
    let outcome = Outcome::KernelLoad(failure(Status::LOAD_ERROR));
    assert_eq!(
        outcome.message(),
        "Internal system error while loading kernel: Error { status: LOAD_ERROR, data: () }"
    );
    assert_eq!(outcome.heading(), "Internal system error while loading kernel: ");
    assert_eq!(outcome.detail(), "Error { status: LOAD_ERROR, data: () }");
    assert_eq!(outcome.status(), Some(StatusCode::new(Status::LOAD_ERROR.0)));
    assert!(outcome.is_failure());
}

#[test]
fn the_environment_faults_have_their_messages() {
    let services = Outcome::EnvironmentInit(InitError::Services(failure(Status::UNSUPPORTED)));
    assert_eq!(
        services.message(),
        "called `Result::unwrap()` on an `Err` value: Error { status: UNSUPPORTED, data: () }"
    );
    assert_eq!(services.status(), Some(StatusCode::new(Status::UNSUPPORTED.0)));
    let console = Outcome::EnvironmentInit(InitError::Console(failure(Status::DEVICE_ERROR)));
    assert_eq!(
        console.message(),
        "Failed to clear screen buffer: Error { status: DEVICE_ERROR, data: () }"
    );
    assert_eq!(console.status(), Some(StatusCode::new(Status::DEVICE_ERROR.0)));
}

#[test]
fn the_device_faults_have_their_messages() {
    let protocol =
        Outcome::DevicePathResolution(ResolveError::Protocol(failure(Status::ACCESS_DENIED)));
    assert_eq!(
        protocol.message(),
        "called `Result::unwrap()` on an `Err` value: Error { status: ACCESS_DENIED, data: () }"
    );
    assert_eq!(protocol.status(), Some(StatusCode::new(Status::ACCESS_DENIED.0)));
    let text = Outcome::DevicePathResolution(ResolveError::Text { detail: "OutOfMemory".to_string() });
    assert_eq!(text.message(), "called `Result::unwrap()` on an `Err` value: OutOfMemory");
    assert_eq!(text.status(), None);
}

#[test]
fn the_fixed_messages_have_no_detail() {
    for outcome in [
        Outcome::KernelNotFound,
        Outcome::KernelReadExhausted,
        Outcome::KernelReported,
        Outcome::UnexpectedSuccess,
    ] {
        assert_eq!(outcome.detail(), "");
        assert_eq!(outcome.message(), outcome.heading());
    }
    assert_eq!(Outcome::KernelNotFound.status(), Some(StatusCode::new(Status::NOT_FOUND.0)));
    assert_eq!(
        Outcome::KernelReadExhausted.status(),
        Some(StatusCode::new(Status::OUT_OF_RESOURCES.0))
    );
}

#[test]
fn a_message_is_its_heading_and_then_the_detail() {
    let outcome = Outcome::KernelStart(failure(Status::ABORTED));
    assert_eq!(
        outcome.message_with("anything at all"),
        "Internal system error while starting kernel: anything at all"
    );
    assert_eq!(outcome.message_with(""), "Internal system error while starting kernel: ");
    assert_eq!(Outcome::KernelNotFound.message_with("!"), "Kernel not found.!");
    assert_eq!(outcome.message(), format!("{}{}", outcome.heading(), outcome.detail()));
}

#[test]
fn everything_but_the_unexpected_success_is_a_failure() {
    assert!(Outcome::KernelNotFound.is_failure());
    assert!(Outcome::KernelReadExhausted.is_failure());
    assert!(Outcome::KernelReported.is_failure());
    assert!(Outcome::KernelLoad(failure(Status::LOAD_ERROR)).is_failure());
    assert!(Outcome::KernelStart(failure(Status::ABORTED)).is_failure());
    assert!(Outcome::KernelRead(ReadError::Other { detail: String::new() }).is_failure());
    assert!(Outcome::EnvironmentInit(InitError::Console(failure(Status::ABORTED))).is_failure());
    assert!(!Outcome::UnexpectedSuccess.is_failure());
}
