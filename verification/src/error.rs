//! Error values shared by every part of the lathe.

use vstd::prelude::*;
use vstd::string::*;

verus! {

/// What went wrong, with a description for the user.
#[derive(Debug, Clone)]
pub enum SpirographError {
    /// A radius outside the range that a dial accepts.
    InvalidRadius(String),
    /// A construction parameter outside its domain.
    InvalidParameter(String),
    /// An export that could not be carried out.
    ExportError(String),
}

/// The three kinds of error, without their descriptions.
#[derive(Debug, Clone, Copy, PartialEq, Eq, Structural)]
pub enum ErrorKind {
    InvalidRadius,
    InvalidParameter,
    ExportError,
}

/// The words that introduce an error of the given kind.
pub open spec fn heading(kind: ErrorKind) -> Seq<char> {
    match kind {
        ErrorKind::InvalidRadius => "Invalid radius: "@,
        ErrorKind::InvalidParameter => "Invalid parameter: "@,
        ErrorKind::ExportError => "Export error: "@,
    }
}

impl SpirographError {
    /// The kind of this error.
    pub open spec fn kind_spec(&self) -> ErrorKind {
        match self {
            SpirographError::InvalidRadius(_) => ErrorKind::InvalidRadius,
            SpirographError::InvalidParameter(_) => ErrorKind::InvalidParameter,
            SpirographError::ExportError(_) => ErrorKind::ExportError,
        }
    }

    /// The description carried by this error.
    pub open spec fn detail_spec(&self) -> Seq<char> {
        match self {
            SpirographError::InvalidRadius(m) => m@,
            SpirographError::InvalidParameter(m) => m@,
            SpirographError::ExportError(m) => m@,
        }
    }

    /// The text shown to the user: the heading of the kind, then the
    /// description.
    pub open spec fn text(&self) -> Seq<char> {
        heading(self.kind_spec()) + self.detail_spec()
    }

    /// The kind of this error.
    pub fn kind(&self) -> (k: ErrorKind)
        ensures
            k == self.kind_spec(),
    {
        match self {
            SpirographError::InvalidRadius(_) => ErrorKind::InvalidRadius,
            SpirographError::InvalidParameter(_) => ErrorKind::InvalidParameter,
            SpirographError::ExportError(_) => ErrorKind::ExportError,
        }
    }

    /// The description carried by this error.
    pub fn detail(&self) -> (d: &str)
        ensures
            d@ == self.detail_spec(),
    {
        match self {
            SpirographError::InvalidRadius(m) => m.as_str(),
            SpirographError::InvalidParameter(m) => m.as_str(),
            SpirographError::ExportError(m) => m.as_str(),
        }
    }

    /// The text shown to the user.
    pub fn to_string(&self) -> (s: String)
        ensures
            s@ == self.text(),
    {
        let head: &str = match self {
            SpirographError::InvalidRadius(_) => "Invalid radius: ",
            SpirographError::InvalidParameter(_) => "Invalid parameter: ",
            SpirographError::ExportError(_) => "Export error: ",
        };
        let mut s: String = String::from_str(head);
        s.append(self.detail());
        s
    }

    /// An invalid-parameter error with the given description.
    pub fn invalid_parameter(detail: &str) -> (e: SpirographError)
        ensures
            e.kind_spec() == ErrorKind::InvalidParameter,
            e.detail_spec() == detail@,
    {
        SpirographError::InvalidParameter(String::from_str(detail))
    }

    /// An export error with the given description.
    pub fn export_error(detail: &str) -> (e: SpirographError)
        ensures
            e.kind_spec() == ErrorKind::ExportError,
            e.detail_spec() == detail@,
    {
        SpirographError::ExportError(String::from_str(detail))
    }
}

/// The description of an export that was asked for before anything was
/// generated.
pub open spec fn not_generated_message() -> Seq<char> {
    "Pattern not generated. Call generate() first."@
}

/// Lets an export go ahead only once the pattern has been generated.
pub fn check_generated(generated: bool) -> (r: Result<(), SpirographError>)
    ensures
        r is Ok <==> generated,
        r is Err ==> r->Err_0.kind_spec() == ErrorKind::ExportError && r->Err_0.detail_spec()
            == not_generated_message(),
{
    if generated {
        Ok(())
    } else {
        Err(SpirographError::export_error("Pattern not generated. Call generate() first."))
    }
}

} // verus!
