use vstd::prelude::*;

use crate::namespace::Namespace;

verus! {

/// Failures of the binding layer. Every variant carries what went wrong so a
/// caller can report the offending tag or namespace by name.
#[derive(Debug, Clone, PartialEq, Eq)]
pub enum XmlError {
    /// A URI outside the closed registry was declared or referenced.
    UnknownNamespace(String),
    /// The expected tag was absent from the candidate node.
    TagNotFound(String),
    /// An attribute could not be parsed; callers recover by skipping it.
    MalformedAttribute(String),
    /// A children-visit was invoked where a single-node visit was expected.
    StructuralMismatch,
    /// Serialization referenced a namespace absent from the alias table.
    MissingAliasForNamespace(Namespace),
    /// An element carried no namespace where one was required.
    MissingNamespace,
    /// The raw XML text could not be parsed at all.
    ParseFailure(String),
}

} // verus!
