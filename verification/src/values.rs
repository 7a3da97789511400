//! Plain-value vocabulary of the engine: identity keys, opaque host values,
//! and the error taxonomy shared by the parser and the resolvers.

use vstd::prelude::*;

verus! {

/// Stable identity key for a host type, as supplied by the embedding
/// application. Two lookups of the same type yield equal keys.
pub type TypeKey = i64;

/// Stable identity key for a host callable.
pub type CallableKey = i64;

/// A host value as the engine sees it: opaque except for its identity token
/// and whether it is a deferred computation that must be awaited.
#[derive(Clone, Copy, PartialEq, Eq, Structural, Debug)]
pub enum Value {
    /// An ordinary value, by identity token.
    Plain(u64),
    /// A deferred (awaitable) computation, by identity token.
    Awaitable(u64),
    /// The host's distinguished absent value ("optional" semantics).
    Absent,
    /// The sentinel that direct registry queries return when nothing is
    /// registered and no default was supplied. Queries never fail; failure
    /// is reserved for resolution.
    Undefined,
}

impl Value {
    /// Whether this value is a deferred computation.
    pub open spec fn is_awaitable(self) -> bool {
        self is Awaitable
    }
}

/// The engine's error taxonomy.
#[derive(PartialEq, Eq, Debug)]
pub enum InjectionError {
    /// A type-injected parameter had no registered type, no local override
    /// and no default; carries the declared type's human-readable label.
    MissingDependency { label: String },
    /// Parser-time: an explicitly injected parameter has no declared type
    /// and no type payload to fall back on.
    UnresolvedType { parameter: String },
    /// The synchronous protocol received an awaitable result after the
    /// invocation already ran; the call cannot be un-done.
    AsyncOnly,
    /// Removal of a nonexistent type dependency, type override or callback
    /// override; local to the registry operation.
    NotFound,
}

/// Ghost rendering of an [`InjectionError`], with strings as character
/// sequences, so that contracts can state errors exactly.
pub ghost enum ErrorModel {
    MissingDependency { label: Seq<char> },
    UnresolvedType { parameter: Seq<char> },
    AsyncOnly,
    NotFound,
}

impl View for InjectionError {
    type V = ErrorModel;

    open spec fn view(&self) -> ErrorModel {
        match self {
            InjectionError::MissingDependency { label } => (ErrorModel::MissingDependency { label: label@ }),
            InjectionError::UnresolvedType { parameter } => (ErrorModel::UnresolvedType { parameter: parameter@ }),
            InjectionError::AsyncOnly => ErrorModel::AsyncOnly,
            InjectionError::NotFound => ErrorModel::NotFound,
        }
    }
}

/// Ghost rendering of a resolution result.
pub open spec fn result_model(r: Result<Value, InjectionError>) -> Result<Value, ErrorModel> {
    match r {
        Ok(v) => Ok(v),
        Err(e) => Err(e@),
    }
}

} // verus!
