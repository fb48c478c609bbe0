//! The error type of the engine, and the check of native return values.

use vstd::prelude::*;
use vstd::std_specs::convert::FromSpecImpl;

verus! {

/// `std::io::Error`, an error of an I/O operation. Nothing is known of what
/// a value holds.
#[verifier::external_type_specification]
#[verifier::external_body]
pub struct ExIoError(std::io::Error);

/// An error code of the operating system.
#[derive(Copy, Clone, Debug, PartialEq, Eq, Structural)]
pub struct SysError {
    pub code: i32,
}

/// What went wrong.
#[derive(Debug)]
pub enum ErrorKind {
    /// The operating system refused a call.
    Sys(SysError),
    /// A rule of the engine was broken; the text says which.
    Other(String),
    /// A pipe operation failed.
    Io(std::io::Error),
}

/// An error of the engine.
#[derive(Debug)]
pub struct Error {
    kind: ErrorKind,
}

/// The code of the last error of the operating system on this thread, read
/// with `std::io::Error::last_os_error`. It depends on the calls made
/// before, so nothing is claimed of it.
#[verifier::external_body]
fn last_os_code() -> (code: Option<i32>) {
    std::io::Error::last_os_error().raw_os_error()
}

/// The operating system's text for an error code, as the `Display` of
/// `std::io::Error::from_raw_os_error` gives it. The text differs between
/// systems, so nothing is claimed of it.
#[verifier::external_body]
fn os_error_text(code: i32) -> (text: String) {
    std::io::Error::from_raw_os_error(code).to_string()
}

/// The text of an I/O error, as its `Display` gives it. Nothing is claimed
/// of it.
#[verifier::external_body]
fn io_error_text(err: &std::io::Error) -> (text: String) {
    err.to_string()
}

impl SysError {
    /// The last error of the operating system on this thread; code zero
    /// where it reports none.
    pub fn last() -> (err: SysError) {
        SysError::from_raw_os_error(
            // What the system holds for this thread at this moment.
            last_os_code(),
        )
    }
}

impl Error {
    fn new(k: ErrorKind) -> (err: Error)
        ensures
            err.kind() == k,
    {
        Error { kind: k }
    }

    /// What went wrong.
    pub closed spec fn kind(&self) -> ErrorKind {
        self.kind
    }

    /// The error for the last failure of the operating system on this
    /// thread.
    pub fn last_os_error() -> (err: Error)
        ensures
            err.kind() is Sys,
    {
        Error::from(SysError::last())
    }

    /// The operating system's code, for an error that carries one.
    pub fn os_code(&self) -> (code: Option<i32>)
        ensures
            code == match self.kind() {
                ErrorKind::Sys(e) => Some(e.code),
                _ => None,
            },
    {
        match &self.kind {
            ErrorKind::Sys(e) => Some(e.code),
            _ => None,
        }
    }

    /// Whether the error comes from a pipe operation.
    pub fn is_io(&self) -> (r: bool)
        ensures
            r == (self.kind() is Io),
    {
        match &self.kind {
            ErrorKind::Io(_) => true,
            _ => false,
        }
    }

    /// The text of the error: for a broken rule of the engine the text it
    /// was made with, else what the system says of the failure.
    pub fn message(&self) -> (text: String)
        ensures
            self.kind() matches ErrorKind::Other(s) ==> text@ == s@,
    {
        match &self.kind {
            ErrorKind::Io(e) => io_error_text(e),
            ErrorKind::Sys(e) => os_error_text(e.code),
            ErrorKind::Other(s) => s.clone(),
        }
    }
}

impl SysError {
    /// The error for what the system reports as its raw code: that code,
    /// and code zero where it reports none.
    pub fn from_raw_os_error(raw: Option<i32>) -> (err: SysError)
        ensures
            err.code == match raw {
                Some(code) => code,
                None => 0,
            },
    {
        match raw {
            Some(code) => SysError { code },
            None => SysError { code: 0 },
        }
    }
}

impl From<std::io::Error> for Error {
    fn from(err: std::io::Error) -> (e: Error)
        ensures
            e.kind() == ErrorKind::Io(err),
    {
        Error::new(ErrorKind::Io(err))
    }
}

impl FromSpecImpl<std::io::Error> for Error {
    open spec fn obeys_from_spec() -> bool {
        true
    }

    closed spec fn from_spec(err: std::io::Error) -> Error {
        Error { kind: ErrorKind::Io(err) }
    }
}

impl From<String> for Error {
    fn from(s: String) -> (e: Error)
        ensures
            e.kind() == ErrorKind::Other(s),
    {
        Error::new(ErrorKind::Other(s))
    }
}

impl FromSpecImpl<String> for Error {
    open spec fn obeys_from_spec() -> bool {
        true
    }

    closed spec fn from_spec(s: String) -> Error {
        Error { kind: ErrorKind::Other(s) }
    }
}

impl From<SysError> for Error {
    fn from(err: SysError) -> (e: Error)
        ensures
            e.kind() == ErrorKind::Sys(err),
    {
        Error::new(ErrorKind::Sys(err))
    }
}

impl FromSpecImpl<SysError> for Error {
    open spec fn obeys_from_spec() -> bool {
        true
    }

    closed spec fn from_spec(err: SysError) -> Error {
        Error { kind: ErrorKind::Sys(err) }
    }
}

impl From<&'static str> for Error {
    fn from(s: &'static str) -> (e: Error)
        ensures
            e.kind() matches ErrorKind::Other(text) && text@ == s@,
    {
        Error::new(ErrorKind::Other(s.to_owned()))
    }
}

impl FromSpecImpl<&'static str> for Error {
    /// The text is copied into a new string, which only its view pins.
    open spec fn obeys_from_spec() -> bool {
        false
    }

    closed spec fn from_spec(s: &'static str) -> Error {
        arbitrary()
    }
}

/// The result of a worker that was joined: its own result, or for a worker
/// that panicked, shown here as `None`, the error "Runner thread panicked".
pub fn worker_result<T>(joined: Option<Result<T, Error>>) -> (r: Result<T, Error>)
    ensures
        joined matches Some(own) ==> r == own,
        joined is None ==> (r matches Err(e) && e.kind() matches ErrorKind::Other(text) && text@
            == "Runner thread panicked"@),
{
    match joined {
        Some(own) => own,
        None => Err(Error::from("Runner thread panicked")),
    }
}

/// A value that a native call returns and that may be zero.
pub trait IsZero {
    spec fn spec_is_zero(&self) -> bool;

    fn is_zero(&self) -> (r: bool)
        ensures
            r == self.spec_is_zero(),
    ;
}

/// Returns the last error of the operating system if the value is zero, as
/// a native call reports its failure, and the value itself if it is not.
pub fn cvt<T: IsZero>(v: T) -> (r: Result<T, Error>)
    ensures
        v.spec_is_zero() ==> (r matches Err(e) && e.kind() is Sys),
        !v.spec_is_zero() ==> r == Ok::<T, Error>(v),
{
    if v.is_zero() {
        Err(Error::last_os_error())
    } else {
        Ok(v)
    }
}


impl IsZero for i8 {
    open spec fn spec_is_zero(&self) -> bool {
        *self == 0
    }

    fn is_zero(&self) -> (r: bool) {
        *self == 0
    }
}

impl IsZero for i16 {
    open spec fn spec_is_zero(&self) -> bool {
        *self == 0
    }

    fn is_zero(&self) -> (r: bool) {
        *self == 0
    }
}

impl IsZero for i32 {
    open spec fn spec_is_zero(&self) -> bool {
        *self == 0
    }

    fn is_zero(&self) -> (r: bool) {
        *self == 0
    }
}

impl IsZero for i64 {
    open spec fn spec_is_zero(&self) -> bool {
        *self == 0
    }

    fn is_zero(&self) -> (r: bool) {
        *self == 0
    }
}

impl IsZero for isize {
    open spec fn spec_is_zero(&self) -> bool {
        *self == 0
    }

    fn is_zero(&self) -> (r: bool) {
        *self == 0
    }
}

impl IsZero for u8 {
    open spec fn spec_is_zero(&self) -> bool {
        *self == 0
    }

    fn is_zero(&self) -> (r: bool) {
        *self == 0
    }
}

impl IsZero for u16 {
    open spec fn spec_is_zero(&self) -> bool {
        *self == 0
    }

    fn is_zero(&self) -> (r: bool) {
        *self == 0
    }
}

impl IsZero for u32 {
    open spec fn spec_is_zero(&self) -> bool {
        *self == 0
    }

    fn is_zero(&self) -> (r: bool) {
        *self == 0
    }
}

impl IsZero for u64 {
    open spec fn spec_is_zero(&self) -> bool {
        *self == 0
    }

    fn is_zero(&self) -> (r: bool) {
        *self == 0
    }
}

impl IsZero for usize {
    open spec fn spec_is_zero(&self) -> bool {
        *self == 0
    }

    fn is_zero(&self) -> (r: bool) {
        *self == 0
    }
}

} // verus!
