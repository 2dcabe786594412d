//! The closed error taxonomy of the task runner.
//!
//! Every failure of a run is one of three kinds: an infrastructure
//! failure to start or await a process, a task that ran but signalled
//! failure (or an unresolvable task reference), or a configuration
//! parse failure reported by the loader.

use vstd::prelude::*;

verus! {

/// `std::io::Error` carried opaquely inside [`AlchemistError`]; the
/// engine never looks inside it, it only passes it through.
#[verifier::external_type_specification]
#[verifier::external_body]
pub struct ExIoError(std::io::Error);

/// `toml::de::Error` carried opaquely inside [`AlchemistError`]; only
/// the configuration loader ever produces one.
#[verifier::external_type_specification]
#[verifier::external_body]
pub struct ExTomlDeError(toml::de::Error);

/// An error together with an optional human-readable context message.
#[derive(Debug)]
pub struct ErrorContext<E>(pub E, pub Option<String>);

/// Attaches a context message to the error of a `Result`, leaving a
/// success untouched.
pub trait ResultContext<T, E>: Sized {
    /// The success-or-error value that `error_msg` decorates.
    spec fn as_result(self) -> Result<T, E>;

    fn error_msg(self, msg: &str) -> (r: Result<T, ErrorContext<E>>)
        ensures
            self.as_result() matches Ok(v) ==> r matches Ok(rv) && rv == v,
            self.as_result() matches Err(e) ==> {
                &&& r matches Err(ec)
                &&& ec.0 == e
                &&& ec.1 matches Some(m)
                &&& m@ == msg@
            },
    ;
}

impl<T, E> ResultContext<T, E> for Result<T, E> {
    open spec fn as_result(self) -> Result<T, E> {
        self
    }

    /// Wraps the error, if any, in an [`ErrorContext`] carrying `msg`.
    fn error_msg(self, msg: &str) -> (r: Result<T, ErrorContext<E>>)
    {
        match self {
            Ok(v) => Ok(v),
            Err(e) => Err(ErrorContext(e, Some(msg.to_owned()))),
        }
    }
}

/// A task ran but signalled failure, or a composite referenced a task
/// name absent from the registry; the payload is the message shown to
/// the user.
#[derive(Debug)]
pub struct AssertionError(pub String);

impl AssertionError {
    /// The message carried by this error.
    pub fn message(&self) -> (r: &String)
        ensures
            r@ == self.0@,
    {
        &self.0
    }
}

/// Any error a run can surface: process infrastructure failures,
/// failed tasks and invalid references, and configuration parse
/// failures (the last are produced only by the loader around this
/// crate, never by the engine itself).
pub enum AlchemistError {
    IOErrorVariant(ErrorContext<std::io::Error>),
    AssertionErrorVariant(ErrorContext<AssertionError>),
    TomlParseErrorVariant(ErrorContext<toml::de::Error>),
}

impl From<AssertionError> for AlchemistError {
    fn from(value: AssertionError) -> (r: Self)
    {
        AlchemistError::AssertionErrorVariant(ErrorContext(value, None))
    }
}

impl vstd::std_specs::convert::FromSpecImpl<AssertionError> for AlchemistError {
    open spec fn obeys_from_spec() -> bool {
        true
    }

    open spec fn from_spec(value: AssertionError) -> Self {
        AlchemistError::AssertionErrorVariant(ErrorContext(value, None))
    }
}

impl From<std::io::Error> for AlchemistError {
    fn from(value: std::io::Error) -> (r: Self)
    {
        AlchemistError::IOErrorVariant(ErrorContext(value, None))
    }
}

impl vstd::std_specs::convert::FromSpecImpl<std::io::Error> for AlchemistError {
    open spec fn obeys_from_spec() -> bool {
        true
    }

    open spec fn from_spec(value: std::io::Error) -> Self {
        AlchemistError::IOErrorVariant(ErrorContext(value, None))
    }
}

impl From<toml::de::Error> for AlchemistError {
    fn from(value: toml::de::Error) -> (r: Self)
    {
        AlchemistError::TomlParseErrorVariant(ErrorContext(value, None))
    }
}

impl vstd::std_specs::convert::FromSpecImpl<toml::de::Error> for AlchemistError {
    open spec fn obeys_from_spec() -> bool {
        true
    }

    open spec fn from_spec(value: toml::de::Error) -> Self {
        AlchemistError::TomlParseErrorVariant(ErrorContext(value, None))
    }
}

impl From<ErrorContext<AssertionError>> for AlchemistError {
    fn from(value: ErrorContext<AssertionError>) -> (r: Self)
    {
        AlchemistError::AssertionErrorVariant(value)
    }
}

impl vstd::std_specs::convert::FromSpecImpl<ErrorContext<AssertionError>> for AlchemistError {
    open spec fn obeys_from_spec() -> bool {
        true
    }

    open spec fn from_spec(value: ErrorContext<AssertionError>) -> Self {
        AlchemistError::AssertionErrorVariant(value)
    }
}

impl From<ErrorContext<std::io::Error>> for AlchemistError {
    fn from(value: ErrorContext<std::io::Error>) -> (r: Self)
    {
        AlchemistError::IOErrorVariant(value)
    }
}

impl vstd::std_specs::convert::FromSpecImpl<ErrorContext<std::io::Error>> for AlchemistError {
    open spec fn obeys_from_spec() -> bool {
        true
    }

    open spec fn from_spec(value: ErrorContext<std::io::Error>) -> Self {
        AlchemistError::IOErrorVariant(value)
    }
}

impl From<ErrorContext<toml::de::Error>> for AlchemistError {
    fn from(value: ErrorContext<toml::de::Error>) -> (r: Self)
    {
        AlchemistError::TomlParseErrorVariant(value)
    }
}

impl vstd::std_specs::convert::FromSpecImpl<ErrorContext<toml::de::Error>> for AlchemistError {
    open spec fn obeys_from_spec() -> bool {
        true
    }

    open spec fn from_spec(value: ErrorContext<toml::de::Error>) -> Self {
        AlchemistError::TomlParseErrorVariant(value)
    }
}

impl AlchemistError {
    /// Holds exactly when this is a failed-task error (no context)
    /// whose message reads `msg`.
    pub open spec fn is_assertion_with_message(&self, msg: Seq<char>) -> bool {
        match self {
            AlchemistError::AssertionErrorVariant(ErrorContext(a, c)) => a.0@ == msg && c is None,
            _ => false,
        }
    }

    /// The label of this error's kind, as shown to the user.
    pub fn kind_label(&self) -> (r: &'static str)
        ensures
            r@ == self.kind_label_spec(),
    {
        match self {
            AlchemistError::IOErrorVariant(_) => "IOError",
            AlchemistError::AssertionErrorVariant(_) => "AssertionError",
            AlchemistError::TomlParseErrorVariant(_) => "TomlParseError",
        }
    }

    /// The label belonging to each kind.
    pub open spec fn kind_label_spec(&self) -> Seq<char> {
        match self {
            AlchemistError::IOErrorVariant(_) => "IOError"@,
            AlchemistError::AssertionErrorVariant(_) => "AssertionError"@,
            AlchemistError::TomlParseErrorVariant(_) => "TomlParseError"@,
        }
    }
}

} // verus!
