//! The failures a run can end in, one variant per kind of failure.
use vstd::prelude::*;

verus! {

#[verifier::external_type_specification]
#[verifier::external_body]
pub struct ExIoError(std::io::Error);

#[verifier::external_type_specification]
#[verifier::external_body]
pub struct ExRegexError(regex::Error);

/// Why a run stopped. Every variant but `FailedToWrite` ends the process with
/// a failure status; a closed output stream ends it quietly.
#[derive(Debug)]
pub enum SubError {
    /// Writing a line to its sink failed.
    FailedToWrite(std::io::Error),
    /// A line of input is not valid UTF-8.
    InvalidUTF8,
    /// The primary pattern or the line filter does not compile.
    RegexError(regex::Error),
    /// An input file could not be opened.
    CouldNotOpenFile(std::io::Error),
    /// The temporary file of an in-place edit could not be created.
    CouldNotCreateTempFile(std::io::Error),
    /// The rewritten text could not be copied over the original file.
    CouldNotModifyInplace(std::io::Error),
    /// The original file's permissions could not be read.
    CouldNotReadMetadata(std::io::Error),
    /// The original file's permissions could not be applied to the rewrite.
    CouldNotSetPermissions(std::io::Error),
}

/// Relies on the `Display` of std::io::Error: the cause's description.
#[verifier::external_body]
fn io_error_text(e: &std::io::Error) -> (r: String) {
    e.to_string()
}

/// Relies on the `Display` of regex::Error: the compiler's description of
/// what is wrong with the pattern.
#[verifier::external_body]
fn regex_error_text(e: &regex::Error) -> (r: String) {
    e.to_string()
}

/// The fixed text that a diagnostic for `e` starts with, naming the
/// operation that failed; the cause's own description follows it.
pub open spec fn message_prefix(e: SubError) -> Seq<char> {
    match e {
        SubError::FailedToWrite(_) => "Output stream has been closed: "@,
        SubError::InvalidUTF8 => "Input contains invalid UTF-8"@,
        SubError::RegexError(_) => "Invalid pattern: "@,
        SubError::CouldNotOpenFile(_) => "Could not open file: "@,
        SubError::CouldNotCreateTempFile(_) => "Failed to create temporary file: "@,
        SubError::CouldNotModifyInplace(_) => "Could not modify the file in-place: "@,
        SubError::CouldNotReadMetadata(_) => "Could not read metadata from file: "@,
        SubError::CouldNotSetPermissions(_) => "Could not set permissions of file: "@,
    }
}

/// Appends the description of an outside cause to a fixed prefix.
fn with_cause(prefix: &str, cause: String) -> (r: String)
    ensures
        r@.len() >= prefix@.len(),
        r@.subrange(0, prefix@.len() as int) == prefix@,
{
    let mut text = String::from_str(prefix);
    text.append(cause.as_str());
    assert(text@.subrange(0, prefix@.len() as int) =~= prefix@);
    text
}

impl SubError {
    /// The one-line diagnostic for this error: a fixed text naming the
    /// operation that failed, then the cause's description.
    pub fn message(&self) -> (r: String)
        ensures
            r@.len() >= message_prefix(*self).len(),
            r@.subrange(0, message_prefix(*self).len() as int) == message_prefix(*self),
            *self is InvalidUTF8 ==> r@ == message_prefix(*self),
    {
        match self {
            SubError::FailedToWrite(e) => with_cause(
                "Output stream has been closed: ",
                io_error_text(e),
            ),
            SubError::InvalidUTF8 => String::from_str("Input contains invalid UTF-8"),
            SubError::RegexError(e) => with_cause("Invalid pattern: ", regex_error_text(e)),
            SubError::CouldNotOpenFile(e) => with_cause("Could not open file: ", io_error_text(e)),
            SubError::CouldNotCreateTempFile(e) => with_cause(
                "Failed to create temporary file: ",
                io_error_text(e),
            ),
            SubError::CouldNotModifyInplace(e) => with_cause(
                "Could not modify the file in-place: ",
                io_error_text(e),
            ),
            SubError::CouldNotReadMetadata(e) => with_cause(
                "Could not read metadata from file: ",
                io_error_text(e),
            ),
            SubError::CouldNotSetPermissions(e) => with_cause(
                "Could not set permissions of file: ",
                io_error_text(e),
            ),
        }
    }
}

/// The process status a run ends with: success, or a closed output stream,
/// is 0; every other failure is 1.
pub open spec fn exit_code_of(r: Result<(), SubError>) -> i32 {
    match r {
        Ok(()) => 0,
        Err(SubError::FailedToWrite(_)) => 0,
        Err(_) => 1,
    }
}

/// The process status for the outcome of a run.
pub fn exit_code(r: &Result<(), SubError>) -> (code: i32)
    ensures
        code == exit_code_of(*r),
{
    match r {
        Ok(()) => 0,
        Err(SubError::FailedToWrite(_)) => 0,
        Err(_) => 1,
    }
}

} // verus!
