//! Generation-time diagnostics.
//!
//! Every failure of the generator is diagnosed against the declaration and
//! carries the offending name, so a caller can point at the exact marker or
//! definition that was rejected.  Generation aborts on the first failure;
//! there is no partial output.

use vstd::prelude::*;

verus! {

/// A generation-time error, naming the offending part of the declaration.
#[derive(Debug, PartialEq, Eq)]
pub enum Error {
    /// The annotated module has no body to expand.
    NoModuleBody,
    /// The module holds a second state definition.
    MultipleStructDefs,
    /// The module holds a second operation-set definition.
    MultipleOpSets,
    /// The module holds no state definition.
    MissingStructDef,
    /// The module holds no operation-set definition.
    MissingOpSet,
    /// The operation set names another type than the state definition.
    NameMismatch { op_set_name: String, struct_name: String },
    /// The state definition's fields are not named fields.
    UnnamedFields,
    /// A field carries a marker that is not `publish`, `getter` or `setter`.
    UnknownMarker { found: String },
    /// A nested argument of `publish` that is not `pub_setter`.
    UnknownPublishArg { found: String },
    /// A marker carries an argument of a shape it does not take.
    MalformedMarker { marker: String },
    /// A name given to a marker is not a valid identifier.
    InvalidIdent { found: String },
}

/// The mathematical shadow of [`Error`], over sequences of characters.
pub ghost enum ErrorV {
    NoModuleBody,
    MultipleStructDefs,
    MultipleOpSets,
    MissingStructDef,
    MissingOpSet,
    NameMismatch { op_set_name: Seq<char>, struct_name: Seq<char> },
    UnnamedFields,
    UnknownMarker { found: Seq<char> },
    UnknownPublishArg { found: Seq<char> },
    MalformedMarker { marker: Seq<char> },
    InvalidIdent { found: Seq<char> },
}

impl View for Error {
    type V = ErrorV;

    open spec fn view(&self) -> ErrorV {
        match self {
            Error::NoModuleBody => ErrorV::NoModuleBody,
            Error::MultipleStructDefs => ErrorV::MultipleStructDefs,
            Error::MultipleOpSets => ErrorV::MultipleOpSets,
            Error::MissingStructDef => ErrorV::MissingStructDef,
            Error::MissingOpSet => ErrorV::MissingOpSet,
            Error::NameMismatch { op_set_name, struct_name } => ErrorV::NameMismatch {
                op_set_name: op_set_name@,
                struct_name: struct_name@,
            },
            Error::UnnamedFields => ErrorV::UnnamedFields,
            Error::UnknownMarker { found } => ErrorV::UnknownMarker { found: found@ },
            Error::UnknownPublishArg { found } => ErrorV::UnknownPublishArg { found: found@ },
            Error::MalformedMarker { marker } => ErrorV::MalformedMarker { marker: marker@ },
            Error::InvalidIdent { found } => ErrorV::InvalidIdent { found: found@ },
        }
    }
}

} // verus!
