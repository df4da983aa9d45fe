//! Configuration errors: an inconsistent dictionary aborts compilation.

use vstd::prelude::*;

verus! {

/// Why a compilation run was aborted. Every variant marks an inconsistent
/// dictionary; none is a recoverable runtime condition.
#[derive(Clone, Copy, Debug, PartialEq, Eq, Structural)]
pub enum CompileError {
    /// A member references a component the dictionary does not declare.
    UnknownComponent,
    /// A member references a field the dictionary does not declare.
    UnknownField,
    /// Component nesting deeper than the component count: the component
    /// reference graph is cyclic.
    ComponentNestingTooDeep,
    /// A Length-typed field stands last in its member list, so no payload
    /// field can follow it.
    TrailingLengthField,
    /// Neither a transport nor an application protocol version is declared.
    MissingVersion,
    /// No header definition.
    MissingHeader,
    /// No trailer definition.
    MissingTrailer,
    /// Two fields share one tag number.
    DuplicateFieldNumber,
    /// Two field names normalize to the same symbolic name.
    DuplicateSymbolicName,
    /// A reject-reason override names no known session-level reject reason.
    UnknownRejectReasonOverride,
}

} // verus!
