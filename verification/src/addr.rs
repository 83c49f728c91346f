//! Symbolic operands, and the one rule that turns each into a number.
//!
//! While a function is being built an operand says what it refers to. Only
//! when every local, label and package member is known does it become the
//! number that the machine decodes: negative for a constant, below the count
//! of locals for a local, from there upwards for a temporary register.

use vstd::prelude::*;
use crate::error::CodegenError;
use crate::keys::{IdentKey, PackageKey, TCObjKey};
use crate::objects::{AstObjects, PackageObjs, PackageVal};
use crate::objmap::ObjMap;
use crate::value::OpIndex;

verus! {

/// An operand before it is a number.
#[derive(Clone, Copy, Debug, PartialEq, Eq, Structural)]
pub enum Addr {
    /// An index into the constant pool.
    Const(OpIndex),
    /// A local variable, by its slot in the frame.
    LocalVar(OpIndex),
    /// A temporary, counted from the first slot above the locals.
    Register(OpIndex),
    /// A literal: a jump distance, a count.
    Imm(OpIndex),
    /// The index of a package's member, looked up by the identifier's name
    /// when the function is finished.
    PkgMemberIndex(PackageKey, IdentKey),
    /// The distance to a label, computed when the function is finished.
    Label(TCObjKey),
    /// A slot that the instruction does not use.
    Void,
}

/// A place that can be assigned to.
#[derive(Clone, Copy, Debug, PartialEq, Eq, Structural)]
pub enum VirtualAddr {
    Direct(Addr),
    /// A captured variable, by its slot among the closure's captures.
    UpValue(Addr),
    SliceEntry(Addr, Addr),
    ArrayEntry(Addr, Addr),
    MapEntry(Addr, Addr),
    StructMember(Addr, Addr),
    StructEmbedded(Addr, Addr),
    PackageMember(Addr, Addr),
    Pointee(Addr),
    /// The target `_`: what is assigned to it is dropped.
    Blank,
    /// Stands for a zero value; it can be read and never assigned.
    ZeroValue,
}

/// Whether a number fits an operand.
pub open spec fn fits_operand(v: int) -> bool {
    i32::MIN <= v <= i32::MAX
}

/// The operand that holds `v`, if one can.
pub open spec fn operand(v: int) -> Result<OpIndex, CodegenError> {
    if fits_operand(v) {
        Ok(v as i32)
    } else {
        Err(CodegenError::OperandOverflow)
    }
}

/// The index under which package `pkg` exports the name of `ident`, where the
/// package is registered, the identifier known and the name exported.
pub open spec fn member_index(
    ast_objs: &AstObjects,
    packages: Seq<PackageVal>,
    pkg: PackageKey,
    ident: IdentKey,
) -> Option<OpIndex> {
    if pkg.0 < packages.len() && ident.0 < ast_objs.idents@.len() {
        let name = ast_objs.idents@[ident.0 as int].name@;
        let members = packages[pkg.0 as int].members();
        if members.contains_key(name) {
            Some(members[name])
        } else {
            None
        }
    } else {
        None
    }
}

impl Addr {
    /// The slot of a local variable.
    pub fn as_var_index(self) -> (i: OpIndex)
        requires
            self is LocalVar,
        ensures
            self == Addr::LocalVar(i),
    {
        match self {
            Addr::LocalVar(i) => i,
            _ => vstd::pervasive::unreached(),
        }
    }

    /// The number that this operand becomes in the instruction at
    /// `inst_index` of a function with `reg_base` locals.
    pub open spec fn spec_into_index(
        self,
        reg_base: OpIndex,
        ast_objs: &AstObjects,
        packages: Seq<PackageVal>,
        inst_index: int,
        labels: Map<TCObjKey, usize>,
    ) -> Result<OpIndex, CodegenError> {
        match self {
            Addr::Const(i) => operand(-i - 1),
            Addr::LocalVar(i) => Ok(i),
            Addr::Register(i) => operand(reg_base + i),
            Addr::Imm(i) => Ok(i),
            Addr::PkgMemberIndex(pkg, ident) => match member_index(ast_objs, packages, pkg, ident) {
                Some(i) => Ok(i),
                None => Err(CodegenError::MissingPackageMember(pkg, ident)),
            },
            Addr::Label(key) => if labels.contains_key(key) {
                operand(labels[key] - inst_index - 1)
            } else {
                Err(CodegenError::MissingLabel(key))
            },
            Addr::Void => Err(CodegenError::UnresolvedAddr),
        }
    }

    pub fn into_index(
        self,
        reg_base: OpIndex,
        ast_objs: &AstObjects,
        packages: &PackageObjs,
        inst_index: usize,
        labels: &ObjMap<usize>,
    ) -> (r: Result<OpIndex, CodegenError>)
        ensures
            r == self.spec_into_index(reg_base, ast_objs, packages@, inst_index as int, labels@),
    {
        match self {
            Addr::Const(i) => Ok((-(i as i64) - 1) as i32),
            Addr::LocalVar(i) => Ok(i),
            Addr::Register(i) => narrow(reg_base as i128 + i as i128),
            Addr::Imm(i) => Ok(i),
            Addr::PkgMemberIndex(pkg, ident) => {
                if pkg.0 < packages.len() && ident.0 < ast_objs.idents.len() {
                    let name = ast_objs.idents[ident.0].name.as_str();
                    match packages[pkg.0].get_member_index(name) {
                        Some(i) => Ok(*i),
                        None => Err(CodegenError::MissingPackageMember(pkg, ident)),
                    }
                } else {
                    Err(CodegenError::MissingPackageMember(pkg, ident))
                }
            },
            Addr::Label(key) => match labels.get(key) {
                Some(target) => narrow(*target as i128 - inst_index as i128 - 1),
                None => Err(CodegenError::MissingLabel(key)),
            },
            Addr::Void => Err(CodegenError::UnresolvedAddr),
        }
    }
}

/// Narrows a computed number to an operand.
pub fn narrow(v: i128) -> (r: Result<OpIndex, CodegenError>)
    ensures
        r == operand(v as int),
{
    if v < i32::MIN as i128 || v > i32::MAX as i128 {
        Err(CodegenError::OperandOverflow)
    } else {
        Ok(v as i32)
    }
}

impl VirtualAddr {
    /// The operand of a place that is a plain operand.
    pub fn as_direct_addr(&self) -> (a: Addr)
        requires
            self is Direct,
        ensures
            *self == VirtualAddr::Direct(a),
    {
        match self {
            VirtualAddr::Direct(a) => *a,
            _ => vstd::pervasive::unreached(),
        }
    }

    pub fn is_blank(&self) -> (r: bool)
        ensures
            r == (self is Blank),
    {
        match self {
            VirtualAddr::Blank => true,
            _ => false,
        }
    }
}

} // verus!
