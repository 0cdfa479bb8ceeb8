//! Errors as data: the closed set of failure kinds that can cross the boundary,
//! and the mapping of the algorithm library's own errors onto it.

use vstd::prelude::*;

verus! {

/// What went wrong, coarsely. The set is closed: every failure that reaches a
/// caller carries exactly one of these.
#[derive(Clone, Copy, Debug, PartialEq, Eq, Structural)]
pub enum ErrorKind {
    /// A type selector names no known type.
    UnknownToken,
    /// A type selector names the wrong number of types for its call site.
    ArityMismatch,
    /// A known type is not a member of the class its call site accepts.
    UnsupportedType,
    /// A type-erased value does not hold the type that was asked of it.
    TypeMismatch,
    /// A constructor of the algorithm library turned its arguments down.
    InvalidArgument,
    /// Anything else.
    InternalFailure,
}

/// A failure, as the caller sees it.
#[derive(Debug, PartialEq, Eq)]
pub struct FfiError {
    pub kind: ErrorKind,
    pub message: String,
}

/// The variants of `opendp::error::ErrorVariant`, by name. `Other` stands for
/// any variant added after this list was written.
#[derive(Clone, Copy, Debug, PartialEq, Eq, Structural)]
pub enum Variant {
    FFI,
    TypeParse,
    FailedFunction,
    FailedRelation,
    RelationDebug,
    FailedCast,
    DomainMismatch,
    MetricMismatch,
    MeasureMismatch,
    MakeDomain,
    MakeTransformation,
    MakeMeasurement,
    InvalidDistance,
    NotImplemented,
    Other,
}

/// An error of the algorithm library, taken apart into plain values.
#[derive(Debug, PartialEq, Eq)]
pub struct Rejection {
    pub variant: Variant,
    pub message: Option<String>,
}

#[verifier::external_type_specification]
#[verifier::external_body]
pub struct ExForeignError(opendp::error::Error);

/// How each variant of the algorithm library is reported. Whatever a
/// constructor objects to in its arguments is an invalid argument; a failed
/// cast or type lookup keeps its meaning; the rest cannot be classified.
pub open spec fn kind_of(variant: Variant) -> ErrorKind {
    match variant {
        Variant::MakeDomain
        | Variant::MakeTransformation
        | Variant::MakeMeasurement
        | Variant::InvalidDistance => ErrorKind::InvalidArgument,
        Variant::FailedCast => ErrorKind::TypeMismatch,
        Variant::TypeParse => ErrorKind::UnknownToken,
        _ => ErrorKind::InternalFailure,
    }
}

/// The text reported for a rejection: its own message, word for word, or
/// nothing where it has none.
pub open spec fn text_of(message: Option<String>) -> Seq<char> {
    match message {
        Some(m) => m@,
        None => Seq::empty(),
    }
}

impl Variant {
    /// The kind under which this variant is reported.
    pub fn kind(self) -> (k: ErrorKind)
        ensures
            k == kind_of(self),
    {
        match self {
            Variant::MakeDomain
            | Variant::MakeTransformation
            | Variant::MakeMeasurement
            | Variant::InvalidDistance => ErrorKind::InvalidArgument,
            Variant::FailedCast => ErrorKind::TypeMismatch,
            Variant::TypeParse => ErrorKind::UnknownToken,
            _ => ErrorKind::InternalFailure,
        }
    }
}

impl FfiError {
    /// An error of the given kind with the given message.
    pub fn new(kind: ErrorKind, message: String) -> (e: FfiError)
        ensures
            e.kind == kind,
            e.message == message,
    {
        FfiError { kind, message }
    }

    /// An error of the given kind whose message is `text`.
    pub fn with_text(kind: ErrorKind, text: &str) -> (e: FfiError)
        ensures
            e.kind == kind,
            e.message@ == text@,
    {
        FfiError { kind, message: text.to_owned() }
    }

    /// Passes a rejection on: the kind follows from the variant alone and the
    /// message is kept as it is.
    pub fn from_rejection(rejection: Rejection) -> (e: FfiError)
        ensures
            e.kind == kind_of(rejection.variant),
            e.message@ == text_of(rejection.message),
    {
        let kind = rejection.variant.kind();
        match rejection.message {
            Some(message) => FfiError { kind, message },
            None => FfiError { kind, message: String::new() },
        }
    }

    /// A copy of this error.
    pub fn duplicate(&self) -> (e: FfiError)
        ensures
            e.kind == self.kind,
            e.message@ == self.message@,
    {
        FfiError { kind: self.kind, message: self.message.clone() }
    }
}

/// The variant that goes by the name `name`; `Other` for a name that is not in
/// the list.
pub open spec fn variant_named(name: Seq<char>) -> Variant {
    if name == "FFI"@ {
        Variant::FFI
    } else if name == "TypeParse"@ {
        Variant::TypeParse
    } else if name == "FailedFunction"@ {
        Variant::FailedFunction
    } else if name == "FailedRelation"@ {
        Variant::FailedRelation
    } else if name == "RelationDebug"@ {
        Variant::RelationDebug
    } else if name == "FailedCast"@ {
        Variant::FailedCast
    } else if name == "DomainMismatch"@ {
        Variant::DomainMismatch
    } else if name == "MetricMismatch"@ {
        Variant::MetricMismatch
    } else if name == "MeasureMismatch"@ {
        Variant::MeasureMismatch
    } else if name == "MakeDomain"@ {
        Variant::MakeDomain
    } else if name == "MakeTransformation"@ {
        Variant::MakeTransformation
    } else if name == "MakeMeasurement"@ {
        Variant::MakeMeasurement
    } else if name == "InvalidDistance"@ {
        Variant::InvalidDistance
    } else if name == "NotImplemented"@ {
        Variant::NotImplemented
    } else {
        Variant::Other
    }
}

impl Variant {
    /// Finds a variant by its name.
    pub fn named(name: &str) -> (r: Variant)
        ensures
            r == variant_named(name@),
    {
        let name = name.to_owned();
        if name == "FFI".to_owned() {
            Variant::FFI
        } else if name == "TypeParse".to_owned() {
            Variant::TypeParse
        } else if name == "FailedFunction".to_owned() {
            Variant::FailedFunction
        } else if name == "FailedRelation".to_owned() {
            Variant::FailedRelation
        } else if name == "RelationDebug".to_owned() {
            Variant::RelationDebug
        } else if name == "FailedCast".to_owned() {
            Variant::FailedCast
        } else if name == "DomainMismatch".to_owned() {
            Variant::DomainMismatch
        } else if name == "MetricMismatch".to_owned() {
            Variant::MetricMismatch
        } else if name == "MeasureMismatch".to_owned() {
            Variant::MeasureMismatch
        } else if name == "MakeDomain".to_owned() {
            Variant::MakeDomain
        } else if name == "MakeTransformation".to_owned() {
            Variant::MakeTransformation
        } else if name == "MakeMeasurement".to_owned() {
            Variant::MakeMeasurement
        } else if name == "InvalidDistance".to_owned() {
            Variant::InvalidDistance
        } else if name == "NotImplemented".to_owned() {
            Variant::NotImplemented
        } else {
            Variant::Other
        }
    }
}

/// What an `opendp::error::Error` holds in its public fields: the name of its
/// `variant`, as the derived `Debug` of `opendp::error::ErrorVariant` prints
/// it, and its `message`.
pub uninterp spec fn foreign_parts(error: opendp::error::Error) -> (Seq<char>, Option<Seq<char>>);

/// The text of a message that may be missing.
pub open spec fn spoken(message: Option<String>) -> Option<Seq<char>> {
    match message {
        Some(m) => Some(m@),
        None => None,
    }
}

/// The variant under which an error of the algorithm library goes.
pub open spec fn foreign_variant(error: opendp::error::Error) -> Variant {
    variant_named(foreign_parts(error).0)
}

/// The message that an error of the algorithm library carries, word for
/// word; nothing where it carries none.
pub open spec fn foreign_text(error: opendp::error::Error) -> Seq<char> {
    match foreign_parts(error).1 {
        Some(m) => m,
        None => Seq::empty(),
    }
}

/// Reads the public fields `variant` and `message` of an
/// `opendp::error::Error`: the variant by the name that its derived `Debug`
/// prints, and a copy of the message. The two are what `foreign_parts` names.
#[verifier::external_body]
fn parts_of(error: &opendp::error::Error) -> (r: (String, Option<String>))
    ensures
        (r.0@, spoken(r.1)) == foreign_parts(*error),
{
    (format!("{:?}", error.variant), error.message.clone())
}

/// Takes an error of the algorithm library apart: the variant is the one
/// that goes by the name of the error's variant, and the message is the
/// error's own.
pub(crate) fn rejection_of(error: &opendp::error::Error) -> (r: Rejection)
    ensures
        r.variant == foreign_variant(*error),
        spoken(r.message) == foreign_parts(*error).1,
{
    let (name, message) = parts_of(error);
    Rejection { variant: Variant::named(name.as_str()), message }
}

/// Turns an error of the algorithm library into one that can cross the
/// boundary: the kind follows from the variant as `kind_of` says, and the
/// message is kept word for word. Whatever the error, its kind is none of
/// the two that only dispatch gives.
pub fn lift_error(error: &opendp::error::Error) -> (e: FfiError)
    ensures
        e.kind == kind_of(foreign_variant(*error)),
        e.message@ == foreign_text(*error),
        e.kind != ErrorKind::ArityMismatch,
        e.kind != ErrorKind::UnsupportedType,
{
    FfiError::from_rejection(rejection_of(error))
}

} // verus!
