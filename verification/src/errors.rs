//! The failure taxonomy and its policy: a missing path or a missing metadata
//! field is reported and survived, while an unreadable bulk-mode root or an
//! unavailable configuration directory ends the run with a failing exit code.

use vstd::prelude::*;

use vstd::string::StringExecFns;

verus! {

/// What can go wrong while answering a query.
#[derive(Clone, Copy, Debug, PartialEq, Eq, Structural)]
pub enum QueryError {
    /// The queried path does not exist; reported, never fatal.
    NotFound,
    /// The platform refused one metadata field; that field degrades to
    /// absent, never fatal.
    MetadataUnavailable,
    /// The bulk-mode root directory itself cannot be opened; fatal.
    DirectoryUnreadable,
    /// The logging directory cannot be found or created at startup; fatal.
    ConfigDirUnavailable,
}

/// True of the failures that end the run.
pub open spec fn spec_is_fatal(e: QueryError) -> bool {
    e == QueryError::DirectoryUnreadable || e == QueryError::ConfigDirUnavailable
}

/// Whether a failure ends the run.
pub fn is_fatal(e: &QueryError) -> (r: bool)
    ensures
        r == spec_is_fatal(*e),
{
    match e {
        QueryError::DirectoryUnreadable => true,
        QueryError::ConfigDirUnavailable => true,
        _ => false,
    }
}

/// The process exit code a failure calls for: zero for the survivable
/// failures, one for the fatal ones.
pub fn exit_code(e: &QueryError) -> (c: i32)
    ensures
        c == if spec_is_fatal(*e) {
            1int
        } else {
            0int
        },
{
    if is_fatal(e) {
        1
    } else {
        0
    }
}

/// The wording of a failure.
pub open spec fn spec_error_label(e: QueryError) -> Seq<char> {
    match e {
        QueryError::NotFound => "not found"@,
        QueryError::MetadataUnavailable => "metadata unavailable"@,
        QueryError::DirectoryUnreadable => "unable to read directory"@,
        QueryError::ConfigDirUnavailable => "unable to find or create a config directory"@,
    }
}

/// The wording of a failure, for the console and the log.
pub fn error_label(e: &QueryError) -> (s: String)
    ensures
        s@ == spec_error_label(*e),
{
    match e {
        QueryError::NotFound => String::from_str("not found"),
        QueryError::MetadataUnavailable => String::from_str("metadata unavailable"),
        QueryError::DirectoryUnreadable => String::from_str("unable to read directory"),
        QueryError::ConfigDirUnavailable => String::from_str(
            "unable to find or create a config directory",
        ),
    }
}

} // verus!
