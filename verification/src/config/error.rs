//! Configuration error types.

use vstd::prelude::*;

verus! {

/// The standard library's I/O error is carried through as an opaque value.
#[verifier::external_type_specification]
#[verifier::external_body]
pub struct ExIoError(std::io::Error);

/// Calls `<std::io::Error as ToString>::to_string`. Nothing is stated of the
/// text.
#[verifier::external_body]
fn io_error_text(e: &std::io::Error) -> (r: String) {
    e.to_string()
}

/// Errors that can occur during configuration loading or validation.
#[derive(Debug)]
pub enum ConfigError {
    /// A required configuration value is missing.
    Missing(String),
    /// A configuration value failed validation.
    Validation(String),
    /// An IO error occurred reading configuration.
    Io(std::io::Error),
    /// An unexpected internal error.
    Internal(String),
}

impl ConfigError {
    /// The human-readable message of the error. For an I/O error the text of
    /// the underlying error follows the prefix.
    pub fn to_message(&self) -> (r: String)
        ensures
            self matches ConfigError::Missing(m) ==> r@ == "missing configuration: "@ + m@,
            self matches ConfigError::Validation(m) ==> r@ == "invalid configuration: "@ + m@,
            self matches ConfigError::Internal(m) ==> r@ == "internal error: "@ + m@,
            self is Io ==> crate::text::has_prefix(r@, "io error: "@),
    {
        match self {
            ConfigError::Missing(m) => String::from_str("missing configuration: ").concat(m.as_str()),
            ConfigError::Validation(m) => String::from_str("invalid configuration: ").concat(m.as_str()),
            ConfigError::Io(e) => {
                let r = String::from_str("io error: ").concat(io_error_text(e).as_str());
                assert(r@.subrange(0, "io error: "@.len() as int) =~= "io error: "@);
                r
            },
            ConfigError::Internal(m) => String::from_str("internal error: ").concat(m.as_str()),
        }
    }
}

} // verus!
