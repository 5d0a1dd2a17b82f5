//! Error codes, statuses and the labels under which errors are counted.

use std::io::ErrorKind;
use thin_status::ErrorCode;
use vstd::prelude::*;

verus! {

/// `std::io::ErrorKind`, with all its variants.
#[verifier::external_type_specification]
pub struct ExErrorKind(std::io::ErrorKind);

/// `thin_status::ErrorCode`, with all its variants.
#[verifier::external_type_specification]
pub struct ExErrorCode(thin_status::ErrorCode);

/// The number of an error code, as in gRPC.
pub open spec fn code_number(code: ErrorCode) -> i32 {
    match code {
        ErrorCode::Cancelled => 1,
        ErrorCode::Unknown => 2,
        ErrorCode::InvalidArgument => 3,
        ErrorCode::DeadlineExceeded => 4,
        ErrorCode::NotFound => 5,
        ErrorCode::AlreadyExists => 6,
        ErrorCode::PermissionDenied => 7,
        ErrorCode::ResourceExhausted => 8,
        ErrorCode::FailedPrecondition => 9,
        ErrorCode::Aborted => 10,
        ErrorCode::OutOfRange => 11,
        ErrorCode::Unimplemented => 12,
        ErrorCode::Internal => 13,
        ErrorCode::Unavailable => 14,
        ErrorCode::DataLoss => 15,
        ErrorCode::Unauthenticated => 16,
        _ => 0,
    }
}

/// The upper-case name of an error code.
pub open spec fn code_name(code: ErrorCode) -> Seq<char> {
    match code {
        ErrorCode::Cancelled => "CANCELLED"@,
        ErrorCode::Unknown => "UNKNOWN"@,
        ErrorCode::InvalidArgument => "INVALID_ARGUMENT"@,
        ErrorCode::DeadlineExceeded => "DEADLINE_EXCEEDED"@,
        ErrorCode::NotFound => "NOT_FOUND"@,
        ErrorCode::AlreadyExists => "ALREADY_EXISTS"@,
        ErrorCode::PermissionDenied => "PERMISSION_DENIED"@,
        ErrorCode::ResourceExhausted => "RESOURCE_EXHAUSTED"@,
        ErrorCode::FailedPrecondition => "FAILED_PRECONDITION"@,
        ErrorCode::Aborted => "ABORTED"@,
        ErrorCode::OutOfRange => "OUT_OF_RANGE"@,
        ErrorCode::Unimplemented => "UNIMPLEMENTED"@,
        ErrorCode::Internal => "INTERNAL"@,
        ErrorCode::Unavailable => "UNAVAILABLE"@,
        ErrorCode::DataLoss => "DATA_LOSS"@,
        ErrorCode::Unauthenticated => "UNAUTHENTICATED"@,
        _ => Seq::empty(),
    }
}

/// The error code that stands for an I/O error of the given kind.
pub open spec fn kind_code(kind: ErrorKind) -> ErrorCode {
    match kind {
        ErrorKind::NotFound => ErrorCode::NotFound,
        ErrorKind::PermissionDenied => ErrorCode::PermissionDenied,
        ErrorKind::AlreadyExists => ErrorCode::AlreadyExists,
        ErrorKind::InvalidInput | ErrorKind::ArgumentListTooLong => ErrorCode::InvalidArgument,
        ErrorKind::TimedOut => ErrorCode::DeadlineExceeded,
        ErrorKind::StorageFull | ErrorKind::QuotaExceeded | ErrorKind::OutOfMemory => {
            ErrorCode::ResourceExhausted
        },
        ErrorKind::DirectoryNotEmpty
        | ErrorKind::IsADirectory
        | ErrorKind::NotADirectory
        | ErrorKind::NotConnected
        | ErrorKind::AddrInUse
        | ErrorKind::ResourceBusy
        | ErrorKind::ExecutableFileBusy
        | ErrorKind::ReadOnlyFilesystem
        | ErrorKind::CrossesDevices
        | ErrorKind::NotSeekable => ErrorCode::FailedPrecondition,
        ErrorKind::FileTooLarge => ErrorCode::OutOfRange,
        ErrorKind::Unsupported => ErrorCode::Unimplemented,
        ErrorKind::WouldBlock
        | ErrorKind::Interrupted
        | ErrorKind::BrokenPipe
        | ErrorKind::ConnectionRefused
        | ErrorKind::ConnectionReset
        | ErrorKind::ConnectionAborted
        | ErrorKind::HostUnreachable
        | ErrorKind::NetworkUnreachable
        | ErrorKind::NetworkDown => ErrorCode::Unavailable,
        ErrorKind::Deadlock | ErrorKind::StaleNetworkFileHandle => ErrorCode::Aborted,
        ErrorKind::InvalidData | ErrorKind::WriteZero | ErrorKind::UnexpectedEof => {
            ErrorCode::DataLoss
        },
        _ => ErrorCode::Unknown,
    }
}

/// Calls `NonZeroI32::from(ErrorCode)` of `thin_status`: it gives the number that the code has in
/// gRPC, which is never 0.
#[verifier::external_body]
fn error_code_number(code: ErrorCode) -> (r: i32)
    ensures
        r == code_number(code),
        r != 0,
{
    std::num::NonZeroI32::from(code).get()
}

/// Calls `ErrorCode::try_from(i32)` of `thin_status`: it gives the code that has the number, and
/// an error exactly where no code has it.
#[verifier::external_body]
fn error_code_of_number(number: i32) -> (r: Option<ErrorCode>)
    ensures
        r is Some <==> 1 <= number <= 16,
        r is Some ==> code_number(r->0) == number,
{
    ErrorCode::try_from(number).ok()
}

/// Calls the conversion of `thin_status::ErrorCode` into a string: it gives the name of the code
/// in upper case, with underscores between words.
#[verifier::external_body]
fn error_code_name(code: ErrorCode) -> (r: &'static str)
    ensures
        r@ == code_name(code),
{
    code.into()
}

/// Calls `ErrorCode::from_error_kind` of `thin_status`: it gives the code that its table assigns
/// to the kind, and `Unknown` for the kinds that the table leaves out.
#[verifier::external_body]
fn error_code_of_kind(kind: ErrorKind) -> (r: ErrorCode)
    ensures
        r == kind_code(kind),
{
    ErrorCode::from_error_kind(kind)
}

/// Why an operation failed: a number that is not 0, most often that of an `ErrorCode`, and a
/// message that may be empty.
#[derive(Debug)]
pub struct Status {
    pub code: i32,
    pub message: String,
}

impl Status {
    /// A status never holds the number 0, which would mean success.
    pub open spec fn wf(self) -> bool {
        self.code != 0
    }

    /// Whether this is the status with the given code and message.
    pub open spec fn is(self, code: ErrorCode, message: Seq<char>) -> bool {
        self.code == code_number(code) && self.message@ == message
    }

    /// Whether this status means that the operation was cancelled.
    pub open spec fn is_cancelled(self) -> bool {
        self.code == code_number(ErrorCode::Cancelled)
    }

    /// A status with one of the known codes.
    pub fn new(code: ErrorCode, message: String) -> (r: Status)
        ensures
            r.wf(),
            r.is(code, message@),
            r.code == code_number(code),
            r.message@ == message@,
    {
        Status { code: error_code_number(code), message }
    }

    /// A status that stands for an I/O error.
    pub fn from_io(failure: &IoFailure) -> (r: Status)
        ensures
            r.wf(),
            r.is(kind_code(failure.kind), failure.message@),
            r.code == code_number(kind_code(failure.kind)),
            r.message@ == failure.message@,
    {
        Status::new(error_code_of_kind(failure.kind), failure.message.clone())
    }

    /// The code that has this status' number, if one of the known codes has it.
    pub fn code(&self) -> (r: Option<ErrorCode>)
        ensures
            r is Some <==> 1 <= self.code <= 16,
            r is Some ==> code_number(r->0) == self.code,
    {
        error_code_of_number(self.code)
    }

    /// The code and the reason with which a connection is closed on account of this status. The
    /// code is the number taken modulo 2^32, the reason the bytes of the message.
    pub fn close_frame(&self) -> (r: (u32, Vec<u8>))
        ensures
            r.0 as int == (self.code as int) % 0x1_0000_0000,
            r.1@ == vstd::utf8::encode_utf8(self.message@),
    {
        let code: i32 = self.code;
        assert(code as u32 as int == (code as int) % 0x1_0000_0000) by {
            assert(code >= 0 ==> code as u32 == code) by (bit_vector);
            assert(code < 0 ==> code as u32 == code + 0x1_0000_0000) by (bit_vector);
        }
        (code as u32, vstd::slice::slice_to_vec(self.message.as_str().as_bytes()))
    }
}

impl Clone for Status {
    fn clone(&self) -> (r: Status)
        ensures
            r.code == self.code,
            r.message@ == self.message@,
    {
        Status { code: self.code, message: self.message.clone() }
    }
}

/// What is known of a failed I/O operation.
#[derive(Debug)]
pub struct IoFailure {
    /// The number that the operating system gave, if the error came from it.
    pub raw_os_error: Option<i32>,
    pub kind: ErrorKind,
    pub message: String,
}

/// A name and a value under which a metric is recorded.
#[derive(Debug)]
pub struct Label {
    pub name: String,
    pub value: String,
}

impl Label {
    /// Whether this is the label with the given name and value.
    pub open spec fn is(self, name: Seq<char>, value: Seq<char>) -> bool {
        self.name@ == name && self.value@ == value
    }

    pub fn new(name: &str, value: &str) -> (r: Label)
        ensures
            r.is(name@, value@),
            r.name@ == name@,
            r.value@ == value@,
    {
        Label { name: name.to_owned(), value: value.to_owned() }
    }
}

/// The name of an error kind. Kinds that have no name of their own share that of `Other`.
pub open spec fn kind_name(kind: ErrorKind) -> Seq<char> {
    match kind {
        ErrorKind::NotFound => "NotFound"@,
        ErrorKind::PermissionDenied => "PermissionDenied"@,
        ErrorKind::ConnectionRefused => "ConnectionRefused"@,
        ErrorKind::ConnectionReset => "ConnectionReset"@,
        ErrorKind::HostUnreachable => "HostUnreachable"@,
        ErrorKind::NetworkUnreachable => "NetworkUnreachable"@,
        ErrorKind::ConnectionAborted => "ConnectionAborted"@,
        ErrorKind::NotConnected => "NotConnected"@,
        ErrorKind::AddrInUse => "AddrInUse"@,
        ErrorKind::AddrNotAvailable => "AddrNotAvailable"@,
        ErrorKind::NetworkDown => "NetworkDown"@,
        ErrorKind::BrokenPipe => "BrokenPipe"@,
        ErrorKind::AlreadyExists => "AlreadyExists"@,
        ErrorKind::WouldBlock => "WouldBlock"@,
        ErrorKind::NotADirectory => "NotADirectory"@,
        ErrorKind::IsADirectory => "IsADirectory"@,
        ErrorKind::DirectoryNotEmpty => "DirectoryNotEmpty"@,
        ErrorKind::ReadOnlyFilesystem => "ReadOnlyFilesystem"@,
        ErrorKind::StaleNetworkFileHandle => "StaleNetworkFileHandle"@,
        ErrorKind::InvalidInput => "InvalidInput"@,
        ErrorKind::InvalidData => "InvalidData"@,
        ErrorKind::TimedOut => "TimedOut"@,
        ErrorKind::WriteZero => "WriteZero"@,
        ErrorKind::StorageFull => "StorageFull"@,
        ErrorKind::NotSeekable => "NotSeekable"@,
        ErrorKind::QuotaExceeded => "QuotaExceeded"@,
        ErrorKind::FileTooLarge => "FileTooLarge"@,
        ErrorKind::ResourceBusy => "ResourceBusy"@,
        ErrorKind::ExecutableFileBusy => "ExecutableFileBusy"@,
        ErrorKind::Deadlock => "Deadlock"@,
        ErrorKind::CrossesDevices => "CrossesDevices"@,
        ErrorKind::TooManyLinks => "TooManyLinks"@,
        ErrorKind::InvalidFilename => "InvalidFilename"@,
        ErrorKind::ArgumentListTooLong => "ArgumentListTooLong"@,
        ErrorKind::Interrupted => "Interrupted"@,
        ErrorKind::Unsupported => "Unsupported"@,
        ErrorKind::UnexpectedEof => "UnexpectedEof"@,
        ErrorKind::OutOfMemory => "OutOfMemory"@,
        _ => "Other"@,
    }
}

/// Gives the name of an error kind.
pub fn error_kind_str(kind: ErrorKind) -> (r: &'static str)
    ensures
        r@ == kind_name(kind),
{
    match kind {
        ErrorKind::NotFound => "NotFound",
        ErrorKind::PermissionDenied => "PermissionDenied",
        ErrorKind::ConnectionRefused => "ConnectionRefused",
        ErrorKind::ConnectionReset => "ConnectionReset",
        ErrorKind::HostUnreachable => "HostUnreachable",
        ErrorKind::NetworkUnreachable => "NetworkUnreachable",
        ErrorKind::ConnectionAborted => "ConnectionAborted",
        ErrorKind::NotConnected => "NotConnected",
        ErrorKind::AddrInUse => "AddrInUse",
        ErrorKind::AddrNotAvailable => "AddrNotAvailable",
        ErrorKind::NetworkDown => "NetworkDown",
        ErrorKind::BrokenPipe => "BrokenPipe",
        ErrorKind::AlreadyExists => "AlreadyExists",
        ErrorKind::WouldBlock => "WouldBlock",
        ErrorKind::NotADirectory => "NotADirectory",
        ErrorKind::IsADirectory => "IsADirectory",
        ErrorKind::DirectoryNotEmpty => "DirectoryNotEmpty",
        ErrorKind::ReadOnlyFilesystem => "ReadOnlyFilesystem",
        ErrorKind::StaleNetworkFileHandle => "StaleNetworkFileHandle",
        ErrorKind::InvalidInput => "InvalidInput",
        ErrorKind::InvalidData => "InvalidData",
        ErrorKind::TimedOut => "TimedOut",
        ErrorKind::WriteZero => "WriteZero",
        ErrorKind::StorageFull => "StorageFull",
        ErrorKind::NotSeekable => "NotSeekable",
        ErrorKind::QuotaExceeded => "QuotaExceeded",
        ErrorKind::FileTooLarge => "FileTooLarge",
        ErrorKind::ResourceBusy => "ResourceBusy",
        ErrorKind::ExecutableFileBusy => "ExecutableFileBusy",
        ErrorKind::Deadlock => "Deadlock",
        ErrorKind::CrossesDevices => "CrossesDevices",
        ErrorKind::TooManyLinks => "TooManyLinks",
        ErrorKind::InvalidFilename => "InvalidFilename",
        ErrorKind::ArgumentListTooLong => "ArgumentListTooLong",
        ErrorKind::Interrupted => "Interrupted",
        ErrorKind::Unsupported => "Unsupported",
        ErrorKind::UnexpectedEof => "UnexpectedEof",
        ErrorKind::OutOfMemory => "OutOfMemory",
        _ => "Other",
    }
}

/// Holds an error code and an error kind, from which labels are made.
#[derive(Debug)]
pub struct ExtractedErrorCode {
    pub code: ErrorCode,
    pub kind: ErrorKind,
}

impl ExtractedErrorCode {
    /// Takes the kind of an I/O error, and the code that stands for it.
    pub fn from_io(error: &IoFailure) -> (r: ExtractedErrorCode)
        ensures
            r.kind == error.kind,
            r.code == kind_code(error.kind),
    {
        ExtractedErrorCode { code: error_code_of_kind(error.kind), kind: error.kind }
    }

    /// Whether this is what an error carries, given the kind and the status in it.
    pub open spec fn extracts(self, kind: Option<ErrorKind>, status: Option<Status>) -> bool {
        &&& self.kind == (match kind {
            Some(kind) => kind,
            None => ErrorKind::Other,
        })
        &&& if status is Some && 1 <= status->0.code <= 16 {
            code_number(self.code) == status->0.code
        } else {
            self.code == (match kind {
                Some(kind) => kind_code(kind),
                None => ErrorCode::Unknown,
            })
        }
    }

    /// Extracts what an error carries: the kind, if there is an I/O error in it, and the status, if
    /// there is one. Without a status that has a known code, the code is the one that stands for
    /// the kind. What is not available is replaced by `ErrorCode::Unknown` and `ErrorKind::Other`.
    pub fn from_anyhow(kind: Option<ErrorKind>, status: Option<&Status>) -> (r: ExtractedErrorCode)
        ensures
            r.extracts(
                kind,
                match status {
                    Some(status) => Some(*status),
                    None => None,
                },
            ),
            r.kind == (if kind is Some { kind->0 } else { ErrorKind::Other }),
            status is Some && 1 <= status->0.code <= 16 ==> code_number(r.code) == status->0.code,
            !(status is Some && 1 <= status->0.code <= 16) ==> r.code == (if kind is Some {
                kind_code(kind->0)
            } else {
                ErrorCode::Unknown
            }),
    {
        let known = match status {
            Some(status) => status.code(),
            None => None,
        };
        let code = match (known, kind) {
            (Some(code), _) => code,
            (None, Some(kind)) => error_code_of_kind(kind),
            (None, None) => ErrorCode::Unknown,
        };
        let kind = match kind {
            Some(kind) => kind,
            None => ErrorKind::Other,
        };
        ExtractedErrorCode { code, kind }
    }

    /// Makes two labels: `ERROR_CODE` and `ERROR_KIND`.
    pub fn into_labels(&self) -> (r: Vec<Label>)
        ensures
            r@.len() == 2,
            r@[0].is("ERROR_CODE"@, code_name(self.code)),
            r@[1].is("ERROR_KIND"@, kind_name(self.kind)),
            r@[0].name@ == "ERROR_CODE"@ && r@[0].value@ == code_name(self.code),
            r@[1].name@ == "ERROR_KIND"@ && r@[1].value@ == kind_name(self.kind),
    {
        let mut labels = Vec::new();
        labels.push(Label::new("ERROR_CODE", error_code_name(self.code)));
        labels.push(Label::new("ERROR_KIND", error_kind_str(self.kind)));
        labels
    }

    /// Makes the two labels of `into_labels`, and adds one more.
    pub fn labels_with(&self, name: &str, value: &str) -> (r: Vec<Label>)
        ensures
            r@.len() == 3,
            r@[0].is("ERROR_CODE"@, code_name(self.code)),
            r@[1].is("ERROR_KIND"@, kind_name(self.kind)),
            r@[2].is(name@, value@),
            r@[0].name@ == "ERROR_CODE"@ && r@[0].value@ == code_name(self.code),
            r@[1].name@ == "ERROR_KIND"@ && r@[1].value@ == kind_name(self.kind),
            r@[2].name@ == name@ && r@[2].value@ == value@,
    {
        let mut labels = self.into_labels();
        labels.push(Label::new(name, value));
        labels
    }
}

/// The code of an error is that of its status, if that is one of the known codes; or else the one that
/// stands for its kind; or else it is unknown. The kind is that of the I/O error in it, or `Other`.
pub proof fn the_status_comes_before_the_kind(
    extracted: ExtractedErrorCode,
    kind: Option<ErrorKind>,
    status: Option<Status>,
)
    requires
        extracted.extracts(kind, status),
    ensures
        kind is Some ==> extracted.kind == kind->0,
        kind is None ==> extracted.kind == ErrorKind::Other,
        status is Some && 1 <= status->0.code <= 16 ==> code_number(extracted.code)
            == status->0.code,
        status is None && kind is Some ==> extracted.code == kind_code(kind->0),
        status is None && kind is None ==> extracted.code == ErrorCode::Unknown,
        status is Some && !(1 <= status->0.code <= 16) && kind is Some ==> extracted.code
            == kind_code(kind->0),
        status is Some && !(1 <= status->0.code <= 16) && kind is None ==> extracted.code
            == ErrorCode::Unknown,
{
}

/// If `result` is `Cancelled`, converts it into a `()`.
pub fn mask_cancelled(result: Result<(), Status>) -> (r: Result<(), Status>)
    ensures
        match result {
            Err(status) if !status.is_cancelled() => r == Err::<(), Status>(status),
            _ => r is Ok,
        },
        r is Ok <==> result is Ok || result->Err_0.code == 1,
        r is Err ==> r == result,
{
    match result {
        Err(status) => {
            match status.code() {
                Some(ErrorCode::Cancelled) => Ok(()),
                _ => Err(status),
            }
        },
        Ok(()) => Ok(()),
    }
}

/// How a task ended that did not return: it was cancelled, or it panicked.
#[derive(Debug)]
pub struct JoinError {
    pub cancelled: bool,
    pub message: String,
}

/// If `result` reports a cancelled task, it's converted to `Cancelled`. Any other way not to return
/// (a panic) is converted into `Internal`.
pub fn unwrap_join_handle<T>(result: Result<Result<T, Status>, JoinError>) -> (r: Result<T, Status>)
    ensures
        match result {
            Ok(returned) => r == returned,
            Err(join) => r is Err && r->Err_0.is(
                if join.cancelled {
                    ErrorCode::Cancelled
                } else {
                    ErrorCode::Internal
                },
                join.message@,
            ),
        },
        result is Err ==> r->Err_0.message@ == result->Err_0.message@ && r->Err_0.code == (
        if result->Err_0.cancelled {
            1i32
        } else {
            13
        }),
{
    match result {
        Ok(returned) => returned,
        Err(join) => {
            if join.cancelled {
                Err(Status::new(ErrorCode::Cancelled, join.message))
            } else {
                Err(Status::new(ErrorCode::Internal, join.message))
            }
        },
    }
}

/// Unwraps the result of a joined task using `unwrap_join_handle` and `mask_cancelled`.
pub fn await_loop_result(joined: Result<Result<(), Status>, JoinError>) -> (r: Result<(), Status>)
    ensures
        match joined {
            Ok(Err(status)) if !status.is_cancelled() => r == Err::<(), Status>(status),
            Ok(_) => r is Ok,
            Err(join) => if join.cancelled {
                r is Ok
            } else {
                r is Err && r->Err_0.is(ErrorCode::Internal, join.message@)
            },
        },
        joined is Ok && joined->Ok_0 is Err ==> (r is Ok <==> joined->Ok_0->Err_0.code == 1),
        joined is Err && r is Err ==> r->Err_0.code == 13 && r->Err_0.message@
            == joined->Err_0.message@,
{
    mask_cancelled(unwrap_join_handle(joined))
}

/// The message of a failed equality check.
pub open spec fn not_equal_message(left: Seq<char>, right: Seq<char>) -> Seq<char> {
    left + " != "@ + right
}

/// Turns the outcome of a comparison into a result. `left` and `right` are the texts of the
/// expressions that were compared.
pub fn check_eq(equal: bool, left: &str, right: &str) -> (r: Result<(), Status>)
    ensures
        equal <==> r is Ok,
        r is Err ==> r->Err_0.is(ErrorCode::Internal, not_equal_message(left@, right@)),
        r is Err ==> r->Err_0.code == 13 && r->Err_0.message@ == left@ + " != "@ + right@,
{
    if equal {
        Ok(())
    } else {
        let mut message = left.to_owned();
        message.append(" != ");
        message.append(right);
        Err(Status::new(ErrorCode::Internal, message))
    }
}

/// The kinds are named as in `std`.
pub proof fn kinds_are_named_as_in_std()
    ensures
        kind_name(ErrorKind::NotFound) == "NotFound"@,
        kind_name(ErrorKind::PermissionDenied) == "PermissionDenied"@,
        kind_name(ErrorKind::ConnectionRefused) == "ConnectionRefused"@,
        kind_name(ErrorKind::ConnectionReset) == "ConnectionReset"@,
        kind_name(ErrorKind::HostUnreachable) == "HostUnreachable"@,
        kind_name(ErrorKind::NetworkUnreachable) == "NetworkUnreachable"@,
        kind_name(ErrorKind::ConnectionAborted) == "ConnectionAborted"@,
        kind_name(ErrorKind::NotConnected) == "NotConnected"@,
        kind_name(ErrorKind::AddrInUse) == "AddrInUse"@,
        kind_name(ErrorKind::AddrNotAvailable) == "AddrNotAvailable"@,
        kind_name(ErrorKind::NetworkDown) == "NetworkDown"@,
        kind_name(ErrorKind::BrokenPipe) == "BrokenPipe"@,
        kind_name(ErrorKind::AlreadyExists) == "AlreadyExists"@,
        kind_name(ErrorKind::WouldBlock) == "WouldBlock"@,
        kind_name(ErrorKind::NotADirectory) == "NotADirectory"@,
        kind_name(ErrorKind::IsADirectory) == "IsADirectory"@,
        kind_name(ErrorKind::DirectoryNotEmpty) == "DirectoryNotEmpty"@,
        kind_name(ErrorKind::ReadOnlyFilesystem) == "ReadOnlyFilesystem"@,
        kind_name(ErrorKind::StaleNetworkFileHandle) == "StaleNetworkFileHandle"@,
        kind_name(ErrorKind::InvalidInput) == "InvalidInput"@,
        kind_name(ErrorKind::InvalidData) == "InvalidData"@,
        kind_name(ErrorKind::TimedOut) == "TimedOut"@,
        kind_name(ErrorKind::WriteZero) == "WriteZero"@,
        kind_name(ErrorKind::StorageFull) == "StorageFull"@,
        kind_name(ErrorKind::NotSeekable) == "NotSeekable"@,
        kind_name(ErrorKind::QuotaExceeded) == "QuotaExceeded"@,
        kind_name(ErrorKind::FileTooLarge) == "FileTooLarge"@,
        kind_name(ErrorKind::ResourceBusy) == "ResourceBusy"@,
        kind_name(ErrorKind::ExecutableFileBusy) == "ExecutableFileBusy"@,
        kind_name(ErrorKind::Deadlock) == "Deadlock"@,
        kind_name(ErrorKind::CrossesDevices) == "CrossesDevices"@,
        kind_name(ErrorKind::TooManyLinks) == "TooManyLinks"@,
        kind_name(ErrorKind::InvalidFilename) == "InvalidFilename"@,
        kind_name(ErrorKind::ArgumentListTooLong) == "ArgumentListTooLong"@,
        kind_name(ErrorKind::Interrupted) == "Interrupted"@,
        kind_name(ErrorKind::Unsupported) == "Unsupported"@,
        kind_name(ErrorKind::UnexpectedEof) == "UnexpectedEof"@,
        kind_name(ErrorKind::OutOfMemory) == "OutOfMemory"@,
        kind_name(ErrorKind::Other) == "Other"@,
{
}

/// A status is that of a code and a message exactly if it has the number of the code, and the message.
pub proof fn statuses_tell_code_and_message(status: Status, code: ErrorCode, message: Seq<char>)
    ensures
        status.is(code, message) <==> status.code == code_number(code) && status.message@ == message,
        status.is_cancelled() <==> status.code == 1,
        status.wf() <==> status.code != 0,
{
}

/// A label is that of a name and a value exactly if it has both.
pub proof fn labels_tell_name_and_value(label: Label, name: Seq<char>, value: Seq<char>)
    ensures
        label.is(name, value) <==> label.name@ == name && label.value@ == value,
{
}

/// No two codes share a number, so a status that was made with a code tells just that code.
pub proof fn code_numbers_are_distinct(a: ErrorCode, b: ErrorCode)
    ensures
        1 <= code_number(a) <= 16,
        code_number(a) == code_number(b) ==> a == b,
{
}

} // verus!
