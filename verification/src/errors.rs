//! Failure causes of schema construction.
//!
//! All of these report authoring defects, found while an artifact is built:
//! construction either fully succeeds or returns one of these and produces
//! nothing. Nothing here is a runtime condition worth retrying.

use vstd::prelude::*;

verus! {

/// Why a build step rejected its input.
#[derive(Clone, Copy, Debug, PartialEq, Eq, Structural)]
pub enum BuildError {
    /// The assembled bytecode does not fit the code segment of a library.
    OversizedCode,
    /// A slot table repeats a slot id, or lists ids out of ascending order,
    /// under which a repetition could hide.
    DuplicateSlotId,
    /// A genesis or transition rule names a slot id that the corresponding
    /// slot table does not declare.
    DanglingSlotRef,
    /// A validator address does not point, inside a library of the script
    /// set, at the opcode required by the operation that references it.
    ValidatorMismatch,
    /// An interface binding names an internal id that the bound schema does
    /// not have.
    UnknownBindingId,
    /// The interface expects an external field name that the binding leaves
    /// uncovered.
    MissingInterfaceField,
    /// The binding's recorded schema identity is not the identity of the
    /// schema it is packaged with.
    ForeignSchema,
    /// A script set lists two libraries with one identity.
    RepeatedLibrary,
}

} // verus!
