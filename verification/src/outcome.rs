//! The ways in which a boot attempt ends, and what the operator is told of
//! each.

use vstd::prelude::*;
use crate::path::{
    kernel_path, kernel_path_text, root_path, root_path_text, ucs2_units, FirmwarePath,
};
use crate::status::{error_code, error_debug, FirmwareError, StatusCode};

verus! {

/// Why the firmware environment could not be set up.
#[derive(Clone, Debug, PartialEq, Eq)]
pub enum InitError {
    /// The firmware's services could not be reached.
    Services(FirmwareError),
    /// The console did not reset.
    Console(FirmwareError),
}

/// Why the loader could not tell which device it was started from.
#[derive(Clone, Debug, PartialEq, Eq)]
pub enum ResolveError {
    /// The firmware did not hand out the device path of the running image.
    Protocol(FirmwareError),
    /// The device path was there, but no text could be had for it.
    Text { detail: String },
}

/// The step of a whole-file read at which the firmware failed.
#[derive(Clone, Copy, Debug, PartialEq, Eq, Structural)]
pub enum ReadStep {
    /// The root directory of the volume did not open.
    OpenVolume,
    /// The file did not open. It may not be there.
    OpenFile,
    /// What opened at the path is no file.
    NotAFile,
    /// The file's size could not be had.
    Metadata,
    /// The bytes could not be read.
    ReadFile,
}

/// Why the kernel's bytes could not be fetched.
#[derive(Clone, Debug, PartialEq, Eq)]
pub enum ReadError {
    /// The file system on the boot device could not be opened.
    Volume(FirmwareError),
    /// The firmware failed at `step` of the read, with `status`.
    Io { step: ReadStep, status: FirmwareError },
    /// The read failed before the firmware was asked.
    Other { detail: String },
    /// The read went through and brought no bytes: there is nothing to load.
    Empty,
}

impl ReadStep {
    /// The path that a failure at this step is reported for: the root for
    /// the volume, the kernel's path for everything that follows.
    pub open spec fn path_text(self) -> Seq<char> {
        match self {
            ReadStep::OpenVolume => root_path_text(),
            _ => kernel_path_text(),
        }
    }

    /// The path that a failure at this step is reported for.
    pub fn path(self) -> (path: FirmwarePath)
        ensures
            path@ == ucs2_units(self.path_text()),
    {
        match self {
            ReadStep::OpenVolume => root_path(),
            _ => kernel_path(),
        }
    }
}

/// What `uefi::fs::IoError` prints of itself with `{:?}` when it holds the
/// path with the code units `path`, the context that stands for `step`, and
/// the firmware error with the status `raw`, on a machine whose words have
/// `word_bits` bits.
pub uninterp spec fn io_error_debug(
    path: Seq<u16>,
    step: ReadStep,
    raw: usize,
    word_bits: u32,
) -> Seq<char>;

/// Formats, with `{:?}`, a `uefi::fs::IoError` made of `path`, of the
/// crate's `IoErrorContext` of the same name as `step`, and of the
/// `uefi::Error<()>` with `status`. The crate panics on a success status,
/// which `requires` leaves out; a path is a terminated UCS-2 string by its
/// type, so that reading it back cannot fail.
#[verifier::external_body]
fn debug_io_error(path: &FirmwarePath, step: ReadStep, status: StatusCode) -> (text: String)
    requires
        !status.success(),
    ensures
        text@ == io_error_debug(path@, step, status.raw, usize::BITS),
{
    let context = match step {
        ReadStep::OpenVolume => uefi::fs::IoErrorContext::CantOpenVolume,
        ReadStep::OpenFile => uefi::fs::IoErrorContext::OpenError,
        ReadStep::NotAFile => uefi::fs::IoErrorContext::NotAFile,
        ReadStep::Metadata => uefi::fs::IoErrorContext::Metadata,
        ReadStep::ReadFile => uefi::fs::IoErrorContext::ReadFailure,
    };
    let path = uefi::fs::PathBuf::from(uefi::CStr16::from_u16_with_nul(path.units()).unwrap());
    let uefi_error = uefi::Error::from(uefi::Status(status.raw));
    format!("{:?}", uefi::fs::IoError { path, context, uefi_error })
}

/// How a boot attempt ended. None of these is recovered from: the loader
/// reports it and halts.
#[derive(Clone, Debug, PartialEq, Eq)]
pub enum Outcome {
    /// Services or console were not available.
    EnvironmentInit(InitError),
    /// The boot device could not be determined.
    DevicePathResolution(ResolveError),
    /// There is no kernel at the fixed path.
    KernelNotFound,
    /// Memory did not suffice to hold the kernel.
    KernelReadExhausted,
    /// The kernel could not be read, for any other reason.
    KernelRead(ReadError),
    /// The firmware did not accept the bytes as an image.
    KernelLoad(FirmwareError),
    /// The kernel ran, failed by itself, and has said why.
    KernelReported,
    /// The image could not be started, or ended with a failure of its own.
    KernelStart(FirmwareError),
    /// The kernel ran and handed control back as if nothing were wrong.
    UnexpectedSuccess,
}

/// The outcome of a failed read. Only a firmware failure on the file itself
/// can say that the kernel is missing or that memory ran out.
pub open spec fn read_outcome(error: ReadError) -> Outcome {
    match error {
        ReadError::Io { step, status } => if status.code().not_found() {
            Outcome::KernelNotFound
        } else if status.code().out_of_resources() {
            Outcome::KernelReadExhausted
        } else {
            Outcome::KernelRead(error)
        },
        _ => Outcome::KernelRead(error),
    }
}

/// The outcome of a started image that came back with `status`.
pub open spec fn start_outcome(status: StatusCode) -> Outcome {
    if status.success() {
        Outcome::UnexpectedSuccess
    } else if status.unsupported() {
        Outcome::KernelReported
    } else {
        Outcome::KernelStart(FirmwareError::of(status))
    }
}

/// How the message begins where a step failed that the loader cannot do
/// without and has no words of its own for.
pub open spec fn unwrapped_text() -> Seq<char> {
    "called `Result::unwrap()` on an `Err` value: "@
}

impl Outcome {
    /// Whether the outcome is a failure. A kernel that returns in good
    /// order is out of the ordinary, but has not failed.
    pub open spec fn failed(&self) -> bool {
        !(self is UnexpectedSuccess)
    }

    /// The fixed part of the message.
    pub open spec fn heading_text(self) -> Seq<char> {
        match self {
            Outcome::EnvironmentInit(InitError::Services(_)) => unwrapped_text(),
            Outcome::EnvironmentInit(InitError::Console(_)) => "Failed to clear screen buffer: "@,
            Outcome::DevicePathResolution(_) => unwrapped_text(),
            Outcome::KernelNotFound => "Kernel not found."@,
            Outcome::KernelReadExhausted => "Not enough system memory to load the kernel."@,
            Outcome::KernelRead(ReadError::Volume(_)) => unwrapped_text(),
            Outcome::KernelRead(_) => "Internal system error while reading kernel: "@,
            Outcome::KernelLoad(_) => "Internal system error while loading kernel: "@,
            Outcome::KernelReported => "System error encountered in kernel (look above)."@,
            Outcome::KernelStart(_) => "Internal system error while starting kernel: "@,
            Outcome::UnexpectedSuccess => "Operation completed successfully."@,
        }
    }

    /// The firmware error whose own text ends the message, if one does.
    pub open spec fn cause(self) -> Option<FirmwareError> {
        match self {
            Outcome::EnvironmentInit(InitError::Services(error)) => Some(error),
            Outcome::EnvironmentInit(InitError::Console(error)) => Some(error),
            Outcome::DevicePathResolution(ResolveError::Protocol(error)) => Some(error),
            Outcome::KernelRead(ReadError::Volume(error)) => Some(error),
            Outcome::KernelLoad(error) => Some(error),
            Outcome::KernelStart(error) => Some(error),
            _ => None,
        }
    }

    /// What an empty read is told as.
    pub open spec fn empty_text() -> Seq<char> {
        "the kernel file is empty"@
    }

    /// The detail of a failure that is no plain firmware error: the failed
    /// read in the words of the firmware interface, with its path, its step
    /// and its status; the detail that was handed in; or the fixed words
    /// for an empty file.
    pub open spec fn given_detail(self) -> Seq<char> {
        match self {
            Outcome::DevicePathResolution(ResolveError::Text { detail }) => detail@,
            Outcome::KernelRead(ReadError::Io { step, status }) => io_error_debug(
                ucs2_units(step.path_text()),
                step,
                status.code().raw,
                usize::BITS,
            ),
            Outcome::KernelRead(ReadError::Other { detail }) => detail@,
            Outcome::KernelRead(ReadError::Empty) => Outcome::empty_text(),
            _ => Seq::empty(),
        }
    }

    /// The part of the message that says what exactly went wrong.
    pub open spec fn detail_text(self) -> Seq<char> {
        match self.cause() {
            Some(error) => error_debug(error.code().raw, usize::BITS),
            None => self.given_detail(),
        }
    }

    /// The one message that the operator reads.
    pub open spec fn message_text(self) -> Seq<char> {
        self.heading_text() + self.detail_text()
    }

    /// The status code that lies under the outcome: the one that the
    /// firmware reported, or the one that the outcome stands for.
    pub open spec fn status_code(self) -> Option<StatusCode> {
        match self {
            Outcome::KernelNotFound => Some(StatusCode { raw: error_code(14) as usize }),
            Outcome::KernelReadExhausted => Some(StatusCode { raw: error_code(9) as usize }),
            Outcome::KernelRead(ReadError::Io { step, status }) => Some(status.code()),
            Outcome::KernelReported => Some(StatusCode { raw: error_code(3) as usize }),
            Outcome::UnexpectedSuccess => Some(StatusCode { raw: 0 }),
            _ => match self.cause() {
                Some(error) => Some(error.code()),
                None => None,
            },
        }
    }

    /// Sorts a failed read into the outcome that it means.
    pub fn of_read(error: ReadError) -> (outcome: Outcome)
        ensures
            outcome == read_outcome(error),
    {
        let (missing, exhausted) = match &error {
            ReadError::Io { step, status } => {
                let code = status.status();
                (code.is_not_found(), code.is_out_of_resources())
            },
            _ => (false, false),
        };
        if missing {
            Outcome::KernelNotFound
        } else if exhausted {
            Outcome::KernelReadExhausted
        } else {
            Outcome::KernelRead(error)
        }
    }

    /// Reads the status with which a started image came back.
    pub fn of_start(status: StatusCode) -> (outcome: Outcome)
        ensures
            outcome == start_outcome(status),
    {
        match FirmwareError::new(status) {
            None => Outcome::UnexpectedSuccess,
            Some(error) => if status.is_unsupported() {
                Outcome::KernelReported
            } else {
                Outcome::KernelStart(error)
            },
        }
    }

    /// Whether the outcome is a failure.
    #[verifier::when_used_as_spec(failed)]
    pub fn is_failure(&self) -> (yes: bool)
        ensures
            yes == self.failed(),
    {
        match self {
            Outcome::UnexpectedSuccess => false,
            _ => true,
        }
    }

    /// The fixed part of the message.
    pub fn heading(&self) -> (text: String)
        ensures
            text@ == self.heading_text(),
    {
        let text = match self {
            Outcome::EnvironmentInit(InitError::Services(_)) => "called `Result::unwrap()` on an `Err` value: ",
            Outcome::EnvironmentInit(InitError::Console(_)) => "Failed to clear screen buffer: ",
            Outcome::DevicePathResolution(_) => "called `Result::unwrap()` on an `Err` value: ",
            Outcome::KernelNotFound => "Kernel not found.",
            Outcome::KernelReadExhausted => "Not enough system memory to load the kernel.",
            Outcome::KernelRead(ReadError::Volume(_)) => "called `Result::unwrap()` on an `Err` value: ",
            Outcome::KernelRead(_) => "Internal system error while reading kernel: ",
            Outcome::KernelLoad(_) => "Internal system error while loading kernel: ",
            Outcome::KernelReported => "System error encountered in kernel (look above).",
            Outcome::KernelStart(_) => "Internal system error while starting kernel: ",
            Outcome::UnexpectedSuccess => "Operation completed successfully.",
        };
        String::from_str(text)
    }

    /// The message with `detail` as its second part.
    pub fn message_with(&self, detail: &str) -> (text: String)
        ensures
            text@ == self.heading_text() + detail@,
    {
        let mut text = self.heading();
        text.append(detail);
        text
    }

    /// The part of the message that says what exactly went wrong: the
    /// firmware error in its own words, or the detail that came with the
    /// failure, or nothing.
    pub fn detail(&self) -> (text: String)
        ensures
            text@ == self.detail_text(),
    {
        match self {
            Outcome::EnvironmentInit(InitError::Services(error)) => error.describe(),
            Outcome::EnvironmentInit(InitError::Console(error)) => error.describe(),
            Outcome::DevicePathResolution(ResolveError::Protocol(error)) => error.describe(),
            Outcome::DevicePathResolution(ResolveError::Text { detail }) => detail.clone(),
            Outcome::KernelRead(ReadError::Volume(error)) => error.describe(),
            Outcome::KernelRead(ReadError::Io { step, status }) => {
                let path = step.path();
                debug_io_error(&path, *step, status.status())
            },
            Outcome::KernelRead(ReadError::Other { detail }) => detail.clone(),
            Outcome::KernelRead(ReadError::Empty) => String::from_str("the kernel file is empty"),
            Outcome::KernelLoad(error) => error.describe(),
            Outcome::KernelStart(error) => error.describe(),
            _ => String::new(),
        }
    }

    /// The one message that the operator reads.
    pub fn message(&self) -> (text: String)
        ensures
            text@ == self.message_text(),
    {
        let detail = self.detail();
        self.message_with(detail.as_str())
    }

    /// The status code that lies under the outcome, if there is one.
    pub fn status(&self) -> (status: Option<StatusCode>)
        ensures
            status == self.status_code(),
    {
        match self {
            Outcome::EnvironmentInit(InitError::Services(error)) => Some(error.status()),
            Outcome::EnvironmentInit(InitError::Console(error)) => Some(error.status()),
            Outcome::DevicePathResolution(ResolveError::Protocol(error)) => Some(error.status()),
            Outcome::DevicePathResolution(ResolveError::Text { detail }) => None,
            Outcome::KernelNotFound => Some(StatusCode::not_found_code()),
            Outcome::KernelReadExhausted => Some(StatusCode::out_of_resources_code()),
            Outcome::KernelRead(ReadError::Volume(error)) => Some(error.status()),
            Outcome::KernelRead(ReadError::Io { step, status }) => Some(status.status()),
            Outcome::KernelRead(ReadError::Other { detail }) => None,
            Outcome::KernelRead(ReadError::Empty) => None,
            Outcome::KernelLoad(error) => Some(error.status()),
            Outcome::KernelReported => Some(StatusCode::unsupported_code()),
            Outcome::KernelStart(error) => Some(error.status()),
            Outcome::UnexpectedSuccess => Some(StatusCode::new(0)),
        }
    }
}

} // verus!
