//! The unified error type for connection-cell operations.
//!
//! Every fallible operation of this crate reports its failure through
//! [`Error`]: a coarse [`ErrorKind`] tag together with an optional
//! message describing the underlying cause. A textual description is
//! always obtainable: the nested message when one is present, else a
//! fixed string per kind.

use vstd::prelude::*;
use vstd::string::StringExecFns;

use diesel::result::Error as DieselError;

verus! {

/// A list specifying general categories of connection-cell error.
#[derive(Clone, Copy, Debug, Eq, Hash, Ord, PartialEq, PartialOrd, Structural)]
pub enum ErrorKind {
    /// A structured value was malformed.
    FormatError,
    /// A required configuration key was absent.
    MissingValue,
    /// An unsupported configuration encoding was encountered.
    UnimplementedFormat,
    /// A native error of the active connection backend, wrapped.
    BackendError,
    /// A catch-all, carrying a message or nested cause.
    Other,
}

/// The fixed description text of each kind, used when no nested message
/// is present.
pub open spec fn kind_text(k: ErrorKind) -> Seq<char> {
    match k {
        ErrorKind::FormatError => "format_error"@,
        ErrorKind::MissingValue => "missing_value"@,
        ErrorKind::UnimplementedFormat => "unimplemented_format"@,
        ErrorKind::BackendError => "backend_error"@,
        ErrorKind::Other => "other"@,
    }
}

/// The name of each kind as it appears in diagnostic output.
pub open spec fn kind_name(k: ErrorKind) -> Seq<char> {
    match k {
        ErrorKind::FormatError => "FormatError"@,
        ErrorKind::MissingValue => "MissingValue"@,
        ErrorKind::UnimplementedFormat => "UnimplementedFormat"@,
        ErrorKind::BackendError => "BackendError"@,
        ErrorKind::Other => "Other"@,
    }
}

impl ErrorKind {
    /// The fixed description text of this kind.
    pub fn as_str(self) -> (r: &'static str)
        ensures
            r@ == kind_text(self),
    {
        match self {
            ErrorKind::FormatError => "format_error",
            ErrorKind::MissingValue => "missing_value",
            ErrorKind::UnimplementedFormat => "unimplemented_format",
            ErrorKind::BackendError => "backend_error",
            ErrorKind::Other => "other",
        }
    }

    /// The name of this kind as it appears in diagnostic output.
    pub fn name_str(self) -> (r: &'static str)
        ensures
            r@ == kind_name(self),
    {
        match self {
            ErrorKind::FormatError => "FormatError",
            ErrorKind::MissingValue => "MissingValue",
            ErrorKind::UnimplementedFormat => "UnimplementedFormat",
            ErrorKind::BackendError => "BackendError",
            ErrorKind::Other => "Other",
        }
    }
}

#[derive(Debug)]
struct Custom {
    kind: ErrorKind,
    error: String,
}

#[derive(Debug)]
enum Repr {
    Simple(ErrorKind),
    Custom(Box<Custom>),
}

/// The error type for connection-cell operations: a kind tag, with an
/// optional message describing the cause.
#[derive(Debug)]
pub struct Error {
    repr: Repr,
}

impl Error {
    /// The kind tag of this error.
    pub closed spec fn spec_kind(&self) -> ErrorKind {
        match self.repr {
            Repr::Simple(kind) => kind,
            Repr::Custom(c) => c.kind,
        }
    }

    /// The nested message of this error, if one is present.
    pub closed spec fn spec_payload(&self) -> Option<Seq<char>> {
        match self.repr {
            Repr::Simple(_) => None,
            Repr::Custom(c) => Some(c.error@),
        }
    }

    /// The description of this error: its nested message when present,
    /// else the fixed text of its kind.
    pub open spec fn spec_description(&self) -> Seq<char> {
        match self.spec_payload() {
            Some(msg) => msg,
            None => kind_text(self.spec_kind()),
        }
    }

    /// The error value carrying a kind alone.
    pub closed spec fn of_kind(kind: ErrorKind) -> Error {
        Error { repr: Repr::Simple(kind) }
    }

    /// Creates a new error from a known kind as well as an arbitrary
    /// message describing the cause.
    pub fn new(kind: ErrorKind, error: &str) -> (r: Error)
        ensures
            r.spec_kind() == kind,
            r.spec_payload() == Some(error@),
    {
        Error { repr: Repr::Custom(Box::new(Custom { kind, error: error.to_owned() })) }
    }

    /// Returns a reference to the message wrapped by this error, if any.
    ///
    /// If this `Error` was constructed via `new` then this function will
    /// return `Some`, otherwise it will return `None`.
    pub fn get_ref(&self) -> (r: Option<&String>)
        ensures
            match self.spec_payload() {
                Some(msg) => r matches Some(m) && m@ == msg,
                None => r is None,
            },
    {
        match &self.repr {
            Repr::Simple(_) => None,
            Repr::Custom(c) => Some(&c.error),
        }
    }

    /// Returns a mutable reference to the message wrapped by this error,
    /// if any.
    ///
    /// If this `Error` was constructed via `new` then this function will
    /// return `Some`, otherwise it will return `None`.
    pub fn get_mut(&mut self) -> (r: Option<&mut String>)
        ensures
            match old(self).spec_payload() {
                Some(msg) => r matches Some(m) && (*m)@ == msg
                    && final(self).spec_kind() == old(self).spec_kind()
                    && final(self).spec_payload() == Some((*final(m))@),
                None => r is None && *final(self) == *old(self),
            },
    {
        match &mut self.repr {
            Repr::Simple(_) => None,
            Repr::Custom(c) => Some(&mut c.error),
        }
    }

    /// Consumes the `Error`, returning its message (if any).
    ///
    /// If this `Error` was constructed via `new` then this function will
    /// return `Some`, otherwise it will return `None`.
    pub fn into_inner(self) -> (r: Option<String>)
        ensures
            match self.spec_payload() {
                Some(msg) => r matches Some(m) && m@ == msg,
                None => r is None,
            },
    {
        match self.repr {
            Repr::Simple(_) => None,
            Repr::Custom(c) => Some(c.error),
        }
    }

    /// Returns the corresponding `ErrorKind` for this error.
    pub fn kind(&self) -> (k: ErrorKind)
        ensures
            k == self.spec_kind(),
    {
        match &self.repr {
            Repr::Custom(c) => c.kind,
            Repr::Simple(kind) => *kind,
        }
    }

    /// The description of this error: the nested message when one is
    /// present, else the fixed text of the kind.
    pub fn description(&self) -> (r: &str)
        ensures
            r@ == self.spec_description(),
    {
        match &self.repr {
            Repr::Simple(kind) => kind.as_str(),
            Repr::Custom(c) => c.error.as_str(),
        }
    }

    /// The cause of this error, if any. An error wrapping a plain
    /// message has no further cause.
    pub fn cause(&self) -> (r: Option<&String>)
        ensures
            r is None,
    {
        None
    }

    /// The source of this error, if any. An error wrapping a plain
    /// message has no further source.
    pub fn source(&self) -> (r: Option<&String>)
        ensures
            r is None,
    {
        None
    }

    /// The diagnostic rendering of this error.
    pub closed spec fn spec_debug(&self) -> Seq<char> {
        match self.repr {
            Repr::Simple(kind) => "Kind("@ + kind_name(kind) + ")"@,
            Repr::Custom(c) => "Custom { kind: "@ + kind_name(c.kind) + ", error: \""@ + c.error@
                + "\" }"@,
        }
    }

    /// Renders this error for diagnostic output.
    pub fn debug_string(&self) -> (r: String)
        ensures
            r@ == self.spec_debug(),
    {
        match &self.repr {
            Repr::Simple(kind) => {
                let s = "Kind(".to_owned();
                let s = s.concat(kind.name_str());
                let s = s.concat(")");
                s
            },
            Repr::Custom(c) => {
                let s = "Custom { kind: ".to_owned();
                let s = s.concat(c.kind.name_str());
                let s = s.concat(", error: \"");
                let s = s.concat(c.error.as_str());
                let s = s.concat("\" }");
                s
            },
        }
    }
}

/// Converts an [`ErrorKind`] into an [`Error`] carrying the kind alone.
impl From<ErrorKind> for Error {
    fn from(kind: ErrorKind) -> (r: Error) {
        Error { repr: Repr::Simple(kind) }
    }
}

impl vstd::std_specs::convert::FromSpecImpl<ErrorKind> for Error {
    open spec fn obeys_from_spec() -> bool {
        true
    }

    open spec fn from_spec(kind: ErrorKind) -> Error {
        Error::of_kind(kind)
    }
}

/// The native error type of the backend query layer
/// (`diesel::result::Error`), declared opaquely so that values of it
/// can cross this crate's signatures.
#[verifier::external_type_specification]
#[verifier::external_body]
pub struct ExDieselError(DieselError);

/// Relies on the `Display` rendering of the backend's native error
/// type: yields its description text.
#[verifier::external_body]
fn backend_error_text(err: &DieselError) -> String {
    format!("{}", err)
}

impl Error {
    /// Wraps a native error of the active connection backend,
    /// preserving its description as the message.
    pub fn from_backend(err: DieselError) -> (r: Error)
        ensures
            r.spec_kind() == ErrorKind::BackendError,
            r.spec_payload() is Some,
    {
        let text = backend_error_text(&err);
        Error::new(ErrorKind::BackendError, text.as_str())
    }
}

/// Converts a native backend error into an [`Error`] of kind
/// `BackendError`.
impl From<DieselError> for Error {
    fn from(err: DieselError) -> (r: Error) {
        Error::from_backend(err)
    }
}

impl vstd::std_specs::convert::FromSpecImpl<DieselError> for Error {
    open spec fn obeys_from_spec() -> bool {
        false
    }

    open spec fn from_spec(err: DieselError) -> Error {
        Error::of_kind(ErrorKind::BackendError)
    }
}

/// Law: constructing an error from a kind alone and reading back the
/// kind and the description is idempotent — the kind is returned
/// unchanged, the description is the fixed per-kind text, and no nested
/// message is present.
pub proof fn lemma_error_from_kind_round_trip(k: ErrorKind)
    ensures
        Error::of_kind(k).spec_kind() == k,
        Error::of_kind(k).spec_description() == kind_text(k),
        Error::of_kind(k).spec_payload() is None,
{
}

/// Law: the fixed per-kind description table.
pub proof fn lemma_kind_text_table()
    ensures
        kind_text(ErrorKind::FormatError) == "format_error"@,
        kind_text(ErrorKind::MissingValue) == "missing_value"@,
        kind_text(ErrorKind::UnimplementedFormat) == "unimplemented_format"@,
        kind_text(ErrorKind::BackendError) == "backend_error"@,
        kind_text(ErrorKind::Other) == "other"@,
{
}

} // verus!
