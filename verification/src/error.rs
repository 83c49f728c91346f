//! What the builder reports when it is driven into an inconsistent state.
//!
//! None of these is a fault of the program being compiled: the type checker has
//! accepted it. Each names a broken promise of the driver, which is expected to
//! report it and stop.

use vstd::prelude::*;
use crate::keys::{IdentKey, PackageKey, TCObjKey};

verus! {

/// Why the builder gave up.
#[derive(Clone, Copy, Debug, PartialEq, Eq, Structural)]
pub enum CodegenError {
    /// The object already has a binding in the function.
    DuplicateEntity(TCObjKey),
    /// A store was asked for into a location that cannot be assigned.
    InvalidAssignTarget,
    /// An unused operand slot was asked for its number.
    UnresolvedAddr,
    /// A slot, index or jump distance does not fit an operand.
    OperandOverflow,
    /// The label was never placed.
    MissingLabel(TCObjKey),
    /// The package is not registered, or does not export the identifier.
    MissingPackageMember(PackageKey, IdentKey),
}

impl CodegenError {
    /// The sentence the driver prints for this error.
    pub open spec fn spec_message(self) -> Seq<char> {
        match self {
            CodegenError::DuplicateEntity(_) => "entity bound twice"@,
            CodegenError::InvalidAssignTarget => "location cannot be assigned to"@,
            CodegenError::UnresolvedAddr => "unused operand has no index"@,
            CodegenError::OperandOverflow => "instruction stream too large"@,
            CodegenError::MissingLabel(_) => "label was never placed"@,
            CodegenError::MissingPackageMember(_, _) => "package member not found"@,
        }
    }

    pub fn message(&self) -> (text: &'static str)
        ensures
            text@ == self.spec_message(),
    {
        match self {
            CodegenError::DuplicateEntity(_) => "entity bound twice",
            CodegenError::InvalidAssignTarget => "location cannot be assigned to",
            CodegenError::UnresolvedAddr => "unused operand has no index",
            CodegenError::OperandOverflow => "instruction stream too large",
            CodegenError::MissingLabel(_) => "label was never placed",
            CodegenError::MissingPackageMember(_, _) => "package member not found",
        }
    }
}

} // verus!
