use vstd::prelude::*;

verus! {

/// Boundary-stable error codes, one for every way an image operation can
/// fail, plus a code that means no error at all.
#[derive(Clone, Copy, Debug, PartialEq, Eq, Structural)]
#[allow(non_camel_case_types)]
pub enum ErrorType {
    IMAGE_ERROR_NONE,
    IMAGE_ERROR_DECODING,
    IMAGE_ERROR_ENCODING,
    IMAGE_ERROR_PARAMETER_DIMENSION_MISMATCH,
    IMAGE_ERROR_PARAMETER_FAILED_ALREADY,
    IMAGE_ERROR_PARAMETER_MALFORMED,
    IMAGE_ERROR_PARAMETER_NO_MORE_DATA,
    IMAGE_ERROR_INSUFFICIENT_MEMORY,
    IMAGE_ERROR_LIMITS_UNSUPPORTED,
    IMAGE_ERROR_DIMENSION_ERROR,
    IMAGE_ERROR_UNSUPPORTED_COLOR,
    IMAGE_ERROR_UNSUPPORTED_FORMAT,
    IMAGE_ERROR_UNSUPPORTED_OTHER,
    IMAGE_ERROR_IO_NOT_FOUND,
    IMAGE_ERROR_IO_PERMISSION_DENIED,
    IMAGE_ERROR_IO_CONNECTION_REFUSED,
    IMAGE_ERROR_IO_CONNECTION_RESET,
    IMAGE_ERROR_IO_CONNECTION_ABORTED,
    IMAGE_ERROR_IO_NOT_CONNECTED,
    IMAGE_ERROR_IO_ADDR_IN_USE,
    IMAGE_ERROR_IO_ADDR_NOT_AVALIABLE,
    IMAGE_ERROR_IO_BROKEN_PIPE,
    IMAGE_ERROR_IO_ALREADY_EXISTS,
    IMAGE_ERROR_IO_WOULD_BLOCK,
    IMAGE_ERROR_IO_INVALID_INPUT,
    IMAGE_ERROR_IO_INVALID_DATA,
    IMAGE_ERROR_IO_TIMED_OUT,
    IMAGE_ERROR_IO_WRITE_ZERO,
    IMAGE_ERROR_IO_INTERRUPTED,
    IMAGE_ERROR_IO_UNSUPPORED,
    IMAGE_ERROR_IO_UNEXPECTED_EOF,
    IMAGE_ERROR_IO_OUT_OF_MEMORY,
    IMAGE_ERROR_IO_OTHER,
    IMAGE_ERROR_UNKNOWN,
}

/// What kind of parameter error the image library reported.
#[derive(Clone, Copy, Debug, PartialEq, Eq, Structural)]
pub enum ParameterKind {
    DimensionMismatch,
    FailedAlready,
    Generic,
    NoMoreData,
    Other,
}

/// What kind of limit error the image library reported.
#[derive(Clone, Copy, Debug, PartialEq, Eq, Structural)]
pub enum LimitKind {
    DimensionError,
    InsufficientMemory,
    Unsupported,
    Other,
}

/// What kind of unsupported-input error the image library reported.
#[derive(Clone, Copy, Debug, PartialEq, Eq, Structural)]
pub enum UnsupportedKind {
    Color,
    Format,
    GenericFeature,
    Other,
}

/// What kind of input/output failure the operating system reported.
#[derive(Clone, Copy, Debug, PartialEq, Eq, Structural)]
pub enum IoKind {
    NotFound,
    PermissionDenied,
    ConnectionRefused,
    ConnectionReset,
    ConnectionAborted,
    NotConnected,
    AddrInUse,
    AddrNotAvailable,
    BrokenPipe,
    AlreadyExists,
    WouldBlock,
    InvalidInput,
    InvalidData,
    TimedOut,
    WriteZero,
    Interrupted,
    Unsupported,
    UnexpectedEof,
    OutOfMemory,
    Other,
    Unknown,
}

#[verifier::external_type_specification]
#[verifier::external_body]
pub struct ExImageError(image::ImageError);

#[verifier::external_type_specification]
#[verifier::external_body]
pub struct ExParameterError(image::error::ParameterError);

#[verifier::external_type_specification]
#[verifier::external_body]
pub struct ExLimitError(image::error::LimitError);

#[verifier::external_type_specification]
#[verifier::external_body]
pub struct ExUnsupportedError(image::error::UnsupportedError);

#[verifier::external_type_specification]
#[verifier::external_body]
pub struct ExIoError(std::io::Error);

/// An image-library error split into its top-level variants, each
/// carrying its original payload.
pub enum ErrorParts {
    Decoding,
    Encoding,
    Parameter(image::error::ParameterError),
    Limits(image::error::LimitError),
    Unsupported(image::error::UnsupportedError),
    Io(std::io::Error),
}

/// Relies on matching the variants of image::ImageError; each arm only
/// moves the payload out.
#[verifier::external_body]
fn split_image_error(e: image::ImageError) -> (r: ErrorParts) {
    match e {
        image::ImageError::Decoding(_) => ErrorParts::Decoding,
        image::ImageError::Encoding(_) => ErrorParts::Encoding,
        image::ImageError::Parameter(p) => ErrorParts::Parameter(p),
        image::ImageError::Limits(l) => ErrorParts::Limits(l),
        image::ImageError::Unsupported(u) => ErrorParts::Unsupported(u),
        image::ImageError::IoError(io) => ErrorParts::Io(io),
    }
}

/// Relies on image::error::ParameterError::kind; each arm only tells the
/// kinds apart.
#[verifier::external_body]
fn parameter_kind(e: &image::error::ParameterError) -> (r: ParameterKind) {
    match e.kind() {
        image::error::ParameterErrorKind::DimensionMismatch => ParameterKind::DimensionMismatch,
        image::error::ParameterErrorKind::FailedAlready => ParameterKind::FailedAlready,
        image::error::ParameterErrorKind::Generic(_) => ParameterKind::Generic,
        image::error::ParameterErrorKind::NoMoreData => ParameterKind::NoMoreData,
        _ => ParameterKind::Other,
    }
}

/// Relies on image::error::LimitError::kind; each arm only tells the
/// kinds apart.
#[verifier::external_body]
fn limit_kind(e: &image::error::LimitError) -> (r: LimitKind) {
    match e.kind() {
        image::error::LimitErrorKind::DimensionError => LimitKind::DimensionError,
        image::error::LimitErrorKind::InsufficientMemory => LimitKind::InsufficientMemory,
        image::error::LimitErrorKind::Unsupported { .. } => LimitKind::Unsupported,
        _ => LimitKind::Other,
    }
}

/// Relies on image::error::UnsupportedError::kind; each arm only tells
/// the kinds apart.
#[verifier::external_body]
fn unsupported_kind(e: &image::error::UnsupportedError) -> (r: UnsupportedKind) {
    match e.kind() {
        image::error::UnsupportedErrorKind::Color(_) => UnsupportedKind::Color,
        image::error::UnsupportedErrorKind::Format(_) => UnsupportedKind::Format,
        image::error::UnsupportedErrorKind::GenericFeature(_) => UnsupportedKind::GenericFeature,
        _ => UnsupportedKind::Other,
    }
}

/// Relies on std::io::Error::kind; each arm only tells the
/// connection-related kinds apart, answering nothing for the rest.
#[verifier::external_body]
fn io_kind_connection(e: &std::io::Error) -> (r: Option<IoKind>) {
    match e.kind() {
        std::io::ErrorKind::ConnectionRefused => Some(IoKind::ConnectionRefused),
        std::io::ErrorKind::ConnectionReset => Some(IoKind::ConnectionReset),
        std::io::ErrorKind::ConnectionAborted => Some(IoKind::ConnectionAborted),
        std::io::ErrorKind::NotConnected => Some(IoKind::NotConnected),
        std::io::ErrorKind::AddrInUse => Some(IoKind::AddrInUse),
        std::io::ErrorKind::AddrNotAvailable => Some(IoKind::AddrNotAvailable),
        std::io::ErrorKind::BrokenPipe => Some(IoKind::BrokenPipe),
        std::io::ErrorKind::TimedOut => Some(IoKind::TimedOut),
        std::io::ErrorKind::WouldBlock => Some(IoKind::WouldBlock),
        _ => None,
    }
}

/// Relies on std::io::Error::kind; each arm only tells the remaining
/// kinds apart.
#[verifier::external_body]
fn io_kind_storage(e: &std::io::Error) -> (r: IoKind) {
    match e.kind() {
        std::io::ErrorKind::NotFound => IoKind::NotFound,
        std::io::ErrorKind::PermissionDenied => IoKind::PermissionDenied,
        std::io::ErrorKind::AlreadyExists => IoKind::AlreadyExists,
        std::io::ErrorKind::InvalidInput => IoKind::InvalidInput,
        std::io::ErrorKind::InvalidData => IoKind::InvalidData,
        std::io::ErrorKind::WriteZero => IoKind::WriteZero,
        std::io::ErrorKind::Interrupted => IoKind::Interrupted,
        std::io::ErrorKind::Unsupported => IoKind::Unsupported,
        std::io::ErrorKind::UnexpectedEof => IoKind::UnexpectedEof,
        std::io::ErrorKind::OutOfMemory => IoKind::OutOfMemory,
        std::io::ErrorKind::Other => IoKind::Other,
        _ => IoKind::Unknown,
    }
}

/// Classify an operating-system error into the boundary's own kinds.
fn io_error_kind(e: &std::io::Error) -> IoKind {
    match io_kind_connection(e) {
        Some(k) => k,
        None => io_kind_storage(e),
    }
}

/// The boundary error code for a parameter error of the given kind.
pub open spec fn spec_parameter_error_type(k: ParameterKind) -> ErrorType {
    match k {
        ParameterKind::DimensionMismatch => ErrorType::IMAGE_ERROR_PARAMETER_DIMENSION_MISMATCH,
        ParameterKind::FailedAlready => ErrorType::IMAGE_ERROR_PARAMETER_FAILED_ALREADY,
        ParameterKind::Generic => ErrorType::IMAGE_ERROR_PARAMETER_MALFORMED,
        ParameterKind::NoMoreData => ErrorType::IMAGE_ERROR_PARAMETER_NO_MORE_DATA,
        ParameterKind::Other => ErrorType::IMAGE_ERROR_UNKNOWN,
    }
}

/// The boundary error code for a limit error of the given kind.
pub open spec fn spec_limit_error_type(k: LimitKind) -> ErrorType {
    match k {
        LimitKind::DimensionError => ErrorType::IMAGE_ERROR_DIMENSION_ERROR,
        LimitKind::InsufficientMemory => ErrorType::IMAGE_ERROR_INSUFFICIENT_MEMORY,
        LimitKind::Unsupported => ErrorType::IMAGE_ERROR_LIMITS_UNSUPPORTED,
        LimitKind::Other => ErrorType::IMAGE_ERROR_UNKNOWN,
    }
}

/// The boundary error code for an unsupported-input error of the given
/// kind.
pub open spec fn spec_unsupported_error_type(k: UnsupportedKind) -> ErrorType {
    match k {
        UnsupportedKind::Color => ErrorType::IMAGE_ERROR_UNSUPPORTED_COLOR,
        UnsupportedKind::Format => ErrorType::IMAGE_ERROR_UNSUPPORTED_FORMAT,
        UnsupportedKind::GenericFeature => ErrorType::IMAGE_ERROR_UNSUPPORTED_OTHER,
        UnsupportedKind::Other => ErrorType::IMAGE_ERROR_UNKNOWN,
    }
}

/// The boundary error code for an input/output failure of the given
/// kind.
pub open spec fn spec_io_error_type(k: IoKind) -> ErrorType {
    match k {
        IoKind::NotFound => ErrorType::IMAGE_ERROR_IO_NOT_FOUND,
        IoKind::PermissionDenied => ErrorType::IMAGE_ERROR_IO_PERMISSION_DENIED,
        IoKind::ConnectionRefused => ErrorType::IMAGE_ERROR_IO_CONNECTION_REFUSED,
        IoKind::ConnectionReset => ErrorType::IMAGE_ERROR_IO_CONNECTION_RESET,
        IoKind::ConnectionAborted => ErrorType::IMAGE_ERROR_IO_CONNECTION_ABORTED,
        IoKind::NotConnected => ErrorType::IMAGE_ERROR_IO_NOT_CONNECTED,
        IoKind::AddrInUse => ErrorType::IMAGE_ERROR_IO_ADDR_IN_USE,
        IoKind::AddrNotAvailable => ErrorType::IMAGE_ERROR_IO_ADDR_NOT_AVALIABLE,
        IoKind::BrokenPipe => ErrorType::IMAGE_ERROR_IO_BROKEN_PIPE,
        IoKind::AlreadyExists => ErrorType::IMAGE_ERROR_IO_ALREADY_EXISTS,
        IoKind::WouldBlock => ErrorType::IMAGE_ERROR_IO_WOULD_BLOCK,
        IoKind::InvalidInput => ErrorType::IMAGE_ERROR_IO_INVALID_INPUT,
        IoKind::InvalidData => ErrorType::IMAGE_ERROR_IO_INVALID_DATA,
        IoKind::TimedOut => ErrorType::IMAGE_ERROR_IO_TIMED_OUT,
        IoKind::WriteZero => ErrorType::IMAGE_ERROR_IO_WRITE_ZERO,
        IoKind::Interrupted => ErrorType::IMAGE_ERROR_IO_INTERRUPTED,
        IoKind::Unsupported => ErrorType::IMAGE_ERROR_IO_UNSUPPORED,
        IoKind::UnexpectedEof => ErrorType::IMAGE_ERROR_IO_UNEXPECTED_EOF,
        IoKind::OutOfMemory => ErrorType::IMAGE_ERROR_IO_OUT_OF_MEMORY,
        IoKind::Other => ErrorType::IMAGE_ERROR_IO_OTHER,
        IoKind::Unknown => ErrorType::IMAGE_ERROR_UNKNOWN,
    }
}

/// Translate a parameter-error kind into its boundary error code.
pub fn parameter_error_type(k: ParameterKind) -> (r: ErrorType)
    ensures
        r == spec_parameter_error_type(k),
        r != ErrorType::IMAGE_ERROR_NONE,
{
    match k {
        ParameterKind::DimensionMismatch => ErrorType::IMAGE_ERROR_PARAMETER_DIMENSION_MISMATCH,
        ParameterKind::FailedAlready => ErrorType::IMAGE_ERROR_PARAMETER_FAILED_ALREADY,
        ParameterKind::Generic => ErrorType::IMAGE_ERROR_PARAMETER_MALFORMED,
        ParameterKind::NoMoreData => ErrorType::IMAGE_ERROR_PARAMETER_NO_MORE_DATA,
        ParameterKind::Other => ErrorType::IMAGE_ERROR_UNKNOWN,
    }
}

/// Translate a limit-error kind into its boundary error code.
pub fn limit_error_type(k: LimitKind) -> (r: ErrorType)
    ensures
        r == spec_limit_error_type(k),
        r != ErrorType::IMAGE_ERROR_NONE,
{
    match k {
        LimitKind::DimensionError => ErrorType::IMAGE_ERROR_DIMENSION_ERROR,
        LimitKind::InsufficientMemory => ErrorType::IMAGE_ERROR_INSUFFICIENT_MEMORY,
        LimitKind::Unsupported => ErrorType::IMAGE_ERROR_LIMITS_UNSUPPORTED,
        LimitKind::Other => ErrorType::IMAGE_ERROR_UNKNOWN,
    }
}

/// Translate an unsupported-input kind into its boundary error code.
pub fn unsupported_error_type(k: UnsupportedKind) -> (r: ErrorType)
    ensures
        r == spec_unsupported_error_type(k),
        r != ErrorType::IMAGE_ERROR_NONE,
{
    match k {
        UnsupportedKind::Color => ErrorType::IMAGE_ERROR_UNSUPPORTED_COLOR,
        UnsupportedKind::Format => ErrorType::IMAGE_ERROR_UNSUPPORTED_FORMAT,
        UnsupportedKind::GenericFeature => ErrorType::IMAGE_ERROR_UNSUPPORTED_OTHER,
        UnsupportedKind::Other => ErrorType::IMAGE_ERROR_UNKNOWN,
    }
}

/// Translate an input/output failure kind into its boundary error code.
pub fn io_error_type(k: IoKind) -> (r: ErrorType)
    ensures
        r == spec_io_error_type(k),
        r != ErrorType::IMAGE_ERROR_NONE,
{
    match k {
        IoKind::NotFound => ErrorType::IMAGE_ERROR_IO_NOT_FOUND,
        IoKind::PermissionDenied => ErrorType::IMAGE_ERROR_IO_PERMISSION_DENIED,
        IoKind::ConnectionRefused => ErrorType::IMAGE_ERROR_IO_CONNECTION_REFUSED,
        IoKind::ConnectionReset => ErrorType::IMAGE_ERROR_IO_CONNECTION_RESET,
        IoKind::ConnectionAborted => ErrorType::IMAGE_ERROR_IO_CONNECTION_ABORTED,
        IoKind::NotConnected => ErrorType::IMAGE_ERROR_IO_NOT_CONNECTED,
        IoKind::AddrInUse => ErrorType::IMAGE_ERROR_IO_ADDR_IN_USE,
        IoKind::AddrNotAvailable => ErrorType::IMAGE_ERROR_IO_ADDR_NOT_AVALIABLE,
        IoKind::BrokenPipe => ErrorType::IMAGE_ERROR_IO_BROKEN_PIPE,
        IoKind::AlreadyExists => ErrorType::IMAGE_ERROR_IO_ALREADY_EXISTS,
        IoKind::WouldBlock => ErrorType::IMAGE_ERROR_IO_WOULD_BLOCK,
        IoKind::InvalidInput => ErrorType::IMAGE_ERROR_IO_INVALID_INPUT,
        IoKind::InvalidData => ErrorType::IMAGE_ERROR_IO_INVALID_DATA,
        IoKind::TimedOut => ErrorType::IMAGE_ERROR_IO_TIMED_OUT,
        IoKind::WriteZero => ErrorType::IMAGE_ERROR_IO_WRITE_ZERO,
        IoKind::Interrupted => ErrorType::IMAGE_ERROR_IO_INTERRUPTED,
        IoKind::Unsupported => ErrorType::IMAGE_ERROR_IO_UNSUPPORED,
        IoKind::UnexpectedEof => ErrorType::IMAGE_ERROR_IO_UNEXPECTED_EOF,
        IoKind::OutOfMemory => ErrorType::IMAGE_ERROR_IO_OUT_OF_MEMORY,
        IoKind::Other => ErrorType::IMAGE_ERROR_IO_OTHER,
        IoKind::Unknown => ErrorType::IMAGE_ERROR_UNKNOWN,
    }
}

/// Translate an image-library error into its boundary error code.  The
/// code is never the no-error code, whatever classification the library
/// hands back.
pub fn get_image_error(er: image::ImageError) -> (r: ErrorType)
    ensures
        r != ErrorType::IMAGE_ERROR_NONE,
{
    match split_image_error(er) {
        ErrorParts::Decoding => ErrorType::IMAGE_ERROR_DECODING,
        ErrorParts::Encoding => ErrorType::IMAGE_ERROR_ENCODING,
        ErrorParts::Parameter(p) => parameter_error_type(parameter_kind(&p)),
        ErrorParts::Limits(l) => limit_error_type(limit_kind(&l)),
        ErrorParts::Unsupported(u) => unsupported_error_type(unsupported_kind(&u)),
        ErrorParts::Io(io) => io_error_type(io_error_kind(&io)),
    }
}

} // verus!
