//! The error type of the library: one of three failure kinds, two of which
//! carry the lower-level error that caused them.
use vstd::prelude::*;

verus! {

#[verifier::external_type_specification]
#[verifier::external_body]
pub struct ExIoError(std::io::Error);

#[verifier::external_type_specification]
#[verifier::external_body]
pub struct ExParseIntError(std::num::ParseIntError);

/// A failure of the file-sum operation.
#[derive(Debug)]
pub enum Error {
    /// The input held no line at all.
    EmptyVec,
    /// A line was not a base-10 integer that fits in an `i32`.
    Parse(std::num::ParseIntError),
    /// The input could not be opened or read.
    Io(std::io::Error),
}

/// The outcome of a fallible step of this library.
pub type LibResult<T> = Result<T, Error>;

/// The lower-level error behind an `Error`, borrowed from it.
#[derive(Debug)]
pub enum ErrorCause<'a> {
    Parse(&'a std::num::ParseIntError),
    Io(&'a std::io::Error),
}

pub const EMPTY_MESSAGE: &'static str = "please use a vector with at least one element";

pub const EMPTY_DESCRIPTION: &'static str = "empty vectors not allowed";

impl From<std::io::Error> for Error {
    fn from(err: std::io::Error) -> (r: Self)
        ensures
            r == Error::Io(err),
    {
        Error::Io(err)
    }
}

impl vstd::std_specs::convert::FromSpecImpl<std::io::Error> for Error {
    open spec fn obeys_from_spec() -> bool {
        true
    }

    open spec fn from_spec(v: std::io::Error) -> Self {
        Error::Io(v)
    }
}

impl From<std::num::ParseIntError> for Error {
    fn from(err: std::num::ParseIntError) -> (r: Self)
        ensures
            r == Error::Parse(err),
    {
        Error::Parse(err)
    }
}

impl vstd::std_specs::convert::FromSpecImpl<std::num::ParseIntError> for Error {
    open spec fn obeys_from_spec() -> bool {
        true
    }

    open spec fn from_spec(v: std::num::ParseIntError) -> Self {
        Error::Parse(v)
    }
}

/// The short description that std gives a parse failure.
pub uninterp spec fn parse_description_of(e: std::num::ParseIntError) -> Seq<char>;

/// The short description that std gives an I/O failure.
pub uninterp spec fn io_description_of(e: std::io::Error) -> Seq<char>;

/// Relies on `<ParseIntError as std::error::Error>::description`, the short
/// text of a parse failure, which depends on the error value alone.
#[verifier::external_body]
#[allow(deprecated)]
fn parse_description(e: &std::num::ParseIntError) -> (r: &str)
    ensures
        r@ == parse_description_of(*e),
{
    std::error::Error::description(e)
}

/// Relies on `<std::io::Error as std::error::Error>::description`, the short
/// text of an I/O failure, which depends on the error value alone.
#[verifier::external_body]
#[allow(deprecated)]
fn io_description(e: &std::io::Error) -> (r: &str)
    ensures
        r@ == io_description_of(*e),
{
    std::error::Error::description(e)
}

impl Error {
    /// The human-readable text of the failure: a fixed sentence for an empty
    /// input, otherwise the wrapped cause's own `Display` text.
    pub fn message(&self) -> (r: String)
        ensures
            self is EmptyVec ==> r@ == EMPTY_MESSAGE@,
            self matches Error::Parse(e) ==> vstd::string::to_string_from_display_ensures::<
                std::num::ParseIntError,
            >(&e, r),
            self matches Error::Io(e) ==> vstd::string::to_string_from_display_ensures::<
                std::io::Error,
            >(&e, r),
    {
        match self {
            Error::EmptyVec => EMPTY_MESSAGE.to_string(),
            Error::Parse(e) => e.to_string(),
            Error::Io(e) => e.to_string(),
        }
    }

    /// A short description of the failure: a fixed phrase for an empty
    /// input, otherwise the wrapped cause's own description.
    pub fn description(&self) -> (r: &str)
        ensures
            self is EmptyVec ==> r@ == EMPTY_DESCRIPTION@,
            self matches Error::Parse(e) ==> r@ == parse_description_of(*e),
            self matches Error::Io(e) ==> r@ == io_description_of(*e),
    {
        match self {
            Error::EmptyVec => EMPTY_DESCRIPTION,
            Error::Parse(e) => parse_description(e),
            Error::Io(e) => io_description(e),
        }
    }

    /// The wrapped lower-level error, by reference; none for an empty input.
    pub fn cause(&self) -> (r: Option<ErrorCause<'_>>)
        ensures
            self is EmptyVec <==> r is None,
            self matches Error::Parse(e) ==> r matches Some(ErrorCause::Parse(c)) && *c == e,
            self matches Error::Io(e) ==> r matches Some(ErrorCause::Io(c)) && *c == e,
    {
        match self {
            Error::EmptyVec => None,
            Error::Parse(e) => Some(ErrorCause::Parse(e)),
            Error::Io(e) => Some(ErrorCause::Io(e)),
        }
    }
}

} // verus!
