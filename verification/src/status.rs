//! Firmware status codes and the errors that carry them.

use vstd::prelude::*;

verus! {

/// The outcome code that the firmware returns from a fallible operation.
///
/// Zero is success. A code with the top bit of the machine word set is an
/// error; any other code is a warning.
#[derive(Clone, Copy, Debug, PartialEq, Eq, Structural)]
pub struct StatusCode {
    pub raw: usize,
}

/// The value of the error with number `number`: the top bit of the machine
/// word, plus the number.
pub open spec fn error_code(number: int) -> int {
    usize::MAX / 2 + 1 + number
}

/// `uefi::Status::UNSUPPORTED`: the crate defines it as its error bit, which
/// is the top bit of a `usize`, or-ed with 3.
#[verifier::external_body]
fn unsupported_status() -> (status: StatusCode)
    ensures
        status.raw == error_code(3),
{
    StatusCode { raw: uefi::Status::UNSUPPORTED.0 }
}

/// `uefi::Status::OUT_OF_RESOURCES`: the crate defines it as its error bit,
/// which is the top bit of a `usize`, or-ed with 9.
#[verifier::external_body]
fn out_of_resources_status() -> (status: StatusCode)
    ensures
        status.raw == error_code(9),
{
    StatusCode { raw: uefi::Status::OUT_OF_RESOURCES.0 }
}

/// `uefi::Status::NOT_FOUND`: the crate defines it as its error bit, which is
/// the top bit of a `usize`, or-ed with 14.
#[verifier::external_body]
fn not_found_status() -> (status: StatusCode)
    ensures
        status.raw == error_code(14),
{
    StatusCode { raw: uefi::Status::NOT_FOUND.0 }
}

impl StatusCode {
    /// Whether the code reports success: only the code zero does.
    pub open spec fn success(self) -> bool {
        self.raw == 0
    }

    /// Whether the code says that the operation is not supported. A started
    /// image that hands control back with this code has failed by itself.
    pub open spec fn unsupported(self) -> bool {
        self.raw == error_code(3)
    }

    /// Whether the code says that a resource has run out.
    pub open spec fn out_of_resources(self) -> bool {
        self.raw == error_code(9)
    }

    /// Whether the code says that the item asked for was not found.
    pub open spec fn not_found(self) -> bool {
        self.raw == error_code(14)
    }

    /// The code with the given value.
    pub fn new(raw: usize) -> (status: StatusCode)
        ensures
            status.raw == raw,
    {
        StatusCode { raw }
    }

    /// The code for an operation that is not supported.
    pub fn unsupported_code() -> (status: StatusCode)
        ensures
            status.raw == error_code(3),
    {
        unsupported_status()
    }

    /// The code for a resource that has run out.
    pub fn out_of_resources_code() -> (status: StatusCode)
        ensures
            status.raw == error_code(9),
    {
        out_of_resources_status()
    }

    /// The code for an item that was not found.
    pub fn not_found_code() -> (status: StatusCode)
        ensures
            status.raw == error_code(14),
    {
        not_found_status()
    }

    /// Whether the code reports success.
    #[verifier::when_used_as_spec(success)]
    pub fn is_success(self) -> (yes: bool)
        ensures
            yes == self.success(),
    {
        self.raw == 0
    }

    /// Whether the code says that the operation is not supported.
    #[verifier::when_used_as_spec(unsupported)]
    pub fn is_unsupported(self) -> (yes: bool)
        ensures
            yes == self.unsupported(),
    {
        self.raw == unsupported_status().raw
    }

    /// Whether the code says that a resource has run out.
    #[verifier::when_used_as_spec(out_of_resources)]
    pub fn is_out_of_resources(self) -> (yes: bool)
        ensures
            yes == self.out_of_resources(),
    {
        self.raw == out_of_resources_status().raw
    }

    /// Whether the code says that the item asked for was not found.
    #[verifier::when_used_as_spec(not_found)]
    pub fn is_not_found(self) -> (yes: bool)
        ensures
            yes == self.not_found(),
    {
        self.raw == not_found_status().raw
    }
}

/// What `uefi::Error<()>` prints of itself with `{:?}` when it holds the
/// status `raw`, on a machine whose words have `word_bits` bits. The word
/// size decides which codes are errors, and so which of them have a name.
pub uninterp spec fn error_debug(raw: usize, word_bits: u32) -> Seq<char>;

/// A failure that the firmware reported: a status code other than success.
#[derive(Clone, Copy, Debug, PartialEq, Eq)]
pub struct FirmwareError {
    status: StatusCode,
}

/// Formats, with `{:?}`, the `uefi::Error<()>` made from `status` by the
/// crate's `From<Status>`. The crate panics on a success status, which
/// `requires` leaves out; the text is a function of the code and of the
/// machine's word size.
#[verifier::external_body]
fn debug_error(status: StatusCode) -> (text: String)
    requires
        !status.success(),
    ensures
        text@ == error_debug(status.raw, usize::BITS),
{
    format!("{:?}", uefi::Error::from(uefi::Status(status.raw)))
}

impl FirmwareError {
    #[verifier::type_invariant]
    spec fn failed(self) -> bool {
        !self.status.success()
    }

    /// The status code that the firmware reported.
    pub closed spec fn code(self) -> StatusCode {
        self.status
    }

    /// The error that carries `status`.
    pub closed spec fn of(status: StatusCode) -> FirmwareError {
        FirmwareError { status }
    }

    /// The error that carries a status has that status as its code.
    pub broadcast proof fn lemma_code_of(status: StatusCode)
        ensures
            (#[trigger] FirmwareError::of(status)).code() == status,
    {
    }

    /// The error with the given status, unless the status is success.
    pub fn new(status: StatusCode) -> (error: Option<FirmwareError>)
        ensures
            error == if status.success() {
                None
            } else {
                Some(FirmwareError::of(status))
            },
            error is Some ==> error->0.code() == status,
    {
        if status.is_success() {
            None
        } else {
            Some(FirmwareError { status })
        }
    }

    /// The status code that the firmware reported. It is never success.
    pub fn status(&self) -> (status: StatusCode)
        ensures
            status == self.code(),
            !status.success(),
    {
        proof {
            use_type_invariant(self);
        }
        self.status
    }

    /// The error as the firmware interface's own error type prints it.
    pub fn describe(&self) -> (text: String)
        ensures
            text@ == error_debug(self.code().raw, usize::BITS),
    {
        proof {
            use_type_invariant(self);
        }
        debug_error(self.status)
    }
}

} // verus!
