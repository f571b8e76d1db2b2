//! The error that the pool sees: an ADBC error, kept whole.

use adbc_core::error::Error;
use vstd::prelude::*;
use vstd::std_specs::convert::FromSpecImpl;
use vstd::string::StringExecFns;

verus! {

/// The driver's error type. Verus carries it through without looking inside.
#[verifier::external_type_specification]
#[verifier::external_body]
pub struct ExError(adbc_core::error::Error);

/// The text that `adbc_core` prints for an error: its status, its message,
/// its SQLSTATE and its vendor code, as the `Display` impl of
/// `adbc_core::error::Error` lays them out.
pub uninterp spec fn error_display(error: Error) -> Seq<char>;

/// What every displayed pool error starts with.
pub open spec fn display_prefix() -> Seq<char> {
    "ADBC error: "@
}

/// An ADBC error as the connection pool receives it. The driver's error is
/// held by value and stays reachable as the cause.
#[derive(Debug)]
pub struct AdbcError(pub Error);

/// Calls the `Display` impl of `adbc_core::error::Error`. The contract gives
/// the produced text its name and claims nothing else about it.
#[verifier::external_body]
fn display_of(error: &Error) -> (text: String)
    ensures
        text@ == error_display(*error),
{
    format!("{}", error)
}

impl AdbcError {
    /// The driver's error that this value wraps.
    pub open spec fn cause(self) -> Error {
        self.0
    }

    /// The display text: the fixed prefix, then the driver's own text.
    pub open spec fn display(self) -> Seq<char> {
        display_prefix() + error_display(self.0)
    }

    /// Renders the error for a reader: the prefix that marks it as a
    /// database error, followed by everything the driver's error prints.
    pub fn to_string(&self) -> (text: String)
        ensures
            text@ == self.display(),
    {
        let mut text = String::from_str("ADBC error: ");
        let inner = display_of(&self.0);
        text.append(inner.as_str());
        text
    }

    /// The immediate cause: always present, and always the wrapped error.
    pub fn source(&self) -> (cause: Option<&Error>)
        ensures
            cause == Some(&self.cause()),
    {
        Some(&self.0)
    }
}

impl From<Error> for AdbcError {
    fn from(err: Error) -> (wrapped: AdbcError) {
        AdbcError(err)
    }
}

impl FromSpecImpl<Error> for AdbcError {
    open spec fn obeys_from_spec() -> bool {
        true
    }

    open spec fn from_spec(err: Error) -> AdbcError {
        AdbcError(err)
    }
}

} // verus!
