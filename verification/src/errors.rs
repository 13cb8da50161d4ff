//! Schema errors. Every validation failure carries an "offender" locating
//! the struct, enum, route, field or file at fault.

use vstd::prelude::*;

verus! {

/// Locates the schema entity a validation error is about.
#[derive(Debug, Clone)]
pub enum Offender {
    /// (parent struct/enum/route name, field name)
    Field(String, String),
    Struct(String),
    Enum(String),
    Route(String),
    File(String),
}

/// What went wrong.
#[derive(Debug, Clone)]
pub enum ErrorKind {
    /// Name of the unresolved struct or enum reference.
    InvalidReference(String),
    /// Name of a field the schema grammar does not know.
    UnrecognizedField(String),
    /// Name of a mandatory field that is absent.
    MissingField(String),
    /// (field name, description of the expected shape)
    BadFieldValue(String, String),
}

/// A fatal schema error: what went wrong and where.
#[derive(Debug, Clone)]
pub struct SchemaError {
    pub kind: ErrorKind,
    pub offender: Offender,
}

/// Mathematical mirror of `Offender`.
pub enum OffenderView {
    Field(Seq<char>, Seq<char>),
    Struct(Seq<char>),
    Enum(Seq<char>),
    Route(Seq<char>),
    File(Seq<char>),
}

/// Mathematical mirror of `ErrorKind`.
pub enum ErrorKindView {
    InvalidReference(Seq<char>),
    UnrecognizedField(Seq<char>),
    MissingField(Seq<char>),
    BadFieldValue(Seq<char>, Seq<char>),
}

/// Mathematical mirror of `SchemaError`.
pub struct SchemaErrorView {
    pub kind: ErrorKindView,
    pub offender: OffenderView,
}

impl View for Offender {
    type V = OffenderView;

    open spec fn view(&self) -> OffenderView {
        match self {
            Offender::Field(a, b) => OffenderView::Field(a@, b@),
            Offender::Struct(a) => OffenderView::Struct(a@),
            Offender::Enum(a) => OffenderView::Enum(a@),
            Offender::Route(a) => OffenderView::Route(a@),
            Offender::File(a) => OffenderView::File(a@),
        }
    }
}

impl View for ErrorKind {
    type V = ErrorKindView;

    open spec fn view(&self) -> ErrorKindView {
        match self {
            ErrorKind::InvalidReference(a) => ErrorKindView::InvalidReference(a@),
            ErrorKind::UnrecognizedField(a) => ErrorKindView::UnrecognizedField(a@),
            ErrorKind::MissingField(a) => ErrorKindView::MissingField(a@),
            ErrorKind::BadFieldValue(a, b) => ErrorKindView::BadFieldValue(a@, b@),
        }
    }
}

impl View for SchemaError {
    type V = SchemaErrorView;

    open spec fn view(&self) -> SchemaErrorView {
        SchemaErrorView { kind: self.kind@, offender: self.offender@ }
    }
}

/// The human-readable text for an error kind.
pub open spec fn kind_message(k: ErrorKindView) -> Seq<char> {
    match k {
        ErrorKindView::InvalidReference(r) => "Invalid reference '"@ + r + "'"@,
        ErrorKindView::UnrecognizedField(f) => "Unrecognized field '"@ + f + "'"@,
        ErrorKindView::MissingField(f) => "Missing required field '"@ + f + "'"@,
        ErrorKindView::BadFieldValue(f, t) => "Invalid value for field '"@ + f
            + "'. Expected type: "@ + t,
    }
}

/// The human-readable text for an offender locator.
pub open spec fn offender_message(o: OffenderView) -> Seq<char> {
    match o {
        OffenderView::Field(p, f) => "Field "@ + p + "."@ + f,
        OffenderView::Struct(s) => "Struct '"@ + s + "'"@,
        OffenderView::Enum(e) => "Enum '"@ + e + "'"@,
        OffenderView::Route(r) => "Route '"@ + r + "'"@,
        OffenderView::File(f) => "File '"@ + f + "'"@,
    }
}

/// The full report surfaced to the user.
pub open spec fn error_message(e: SchemaErrorView) -> Seq<char> {
    kind_message(e.kind) + "\nOffender was: "@ + offender_message(e.offender)
}

impl SchemaError {
    /// Renders the error exactly as it is reported on stderr.
    pub fn to_message(&self) -> (r: String)
        ensures
            r@ == error_message(self@),
    {
        let mut out = String::new();
        match &self.kind {
            ErrorKind::InvalidReference(rf) => {
                out.append("Invalid reference '");
                out.append(rf.as_str());
                out.append("'");
            },
            ErrorKind::UnrecognizedField(f) => {
                out.append("Unrecognized field '");
                out.append(f.as_str());
                out.append("'");
            },
            ErrorKind::MissingField(f) => {
                out.append("Missing required field '");
                out.append(f.as_str());
                out.append("'");
            },
            ErrorKind::BadFieldValue(f, t) => {
                out.append("Invalid value for field '");
                out.append(f.as_str());
                out.append("'. Expected type: ");
                out.append(t.as_str());
            },
        }
        out.append("\nOffender was: ");
        match &self.offender {
            Offender::Field(p, f) => {
                out.append("Field ");
                out.append(p.as_str());
                out.append(".");
                out.append(f.as_str());
            },
            Offender::Struct(s) => {
                out.append("Struct '");
                out.append(s.as_str());
                out.append("'");
            },
            Offender::Enum(e) => {
                out.append("Enum '");
                out.append(e.as_str());
                out.append("'");
            },
            Offender::Route(r) => {
                out.append("Route '");
                out.append(r.as_str());
                out.append("'");
            },
            Offender::File(f) => {
                out.append("File '");
                out.append(f.as_str());
                out.append("'");
            },
        }
        out
    }
}

} // verus!
