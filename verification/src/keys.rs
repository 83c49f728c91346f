//! Identities of the objects that the builder refers to but does not own.
//!
//! A key of an arena (packages, functions, identifiers, fields) is the index of
//! its entry; a key of the type checker is an opaque number.

use vstd::prelude::*;

verus! {

/// Names an object of the type checker: a variable, a constant, a label.
#[derive(Clone, Copy, Debug, PartialEq, Eq, Structural, Hash)]
pub struct TCObjKey(pub u64);

/// Names a type of the type checker.
#[derive(Clone, Copy, Debug, PartialEq, Eq, Structural, Hash)]
pub struct TCTypeKey(pub u64);

/// Names a type description of the virtual machine.
#[derive(Clone, Copy, Debug, PartialEq, Eq, Structural, Hash)]
pub struct MetadataKey(pub u64);

/// Index of a package in the machine's package table.
#[derive(Clone, Copy, Debug, PartialEq, Eq, Structural, Hash)]
pub struct PackageKey(pub usize);

/// Index of a function in the machine's function table.
#[derive(Clone, Copy, Debug, PartialEq, Eq, Structural, Hash)]
pub struct FunctionKey(pub usize);

/// Index of an identifier in the syntax tree's identifier table.
#[derive(Clone, Copy, Debug, PartialEq, Eq, Structural, Hash)]
pub struct IdentKey(pub usize);

/// Index of a field in the syntax tree's field table.
#[derive(Clone, Copy, Debug, PartialEq, Eq, Structural, Hash)]
pub struct FieldKey(pub usize);

} // verus!
