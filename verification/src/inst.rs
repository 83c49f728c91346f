//! The instruction in its symbolic form: two opcodes, two type tags and three
//! symbolic operands.

use vstd::prelude::*;
use crate::addr::Addr;
use crate::error::CodegenError;
use crate::keys::TCObjKey;
use crate::objects::{AstObjects, PackageObjs, PackageVal};
use crate::objmap::ObjMap;
use crate::value::{AuxOp, Instruction, OpIndex, Opcode, ValueType};

verus! {

/// An instruction whose operands are still symbolic.
#[derive(Clone, Copy, Debug, PartialEq, Eq, Structural)]
pub struct InterInst {
    pub op0: Opcode,
    pub op1: AuxOp,
    pub t0: ValueType,
    pub t1: ValueType,
    pub d: Addr,
    pub s0: Addr,
    pub s1: Addr,
}

/// The type in a type slot: the one given, or none.
pub open spec fn tag_or_void(t: Option<ValueType>) -> ValueType {
    match t {
        Some(t) => t,
        None => ValueType::Void,
    }
}

/// The number that stands in an instruction for the operand `a`: zero for a
/// slot that the instruction does not use, the operand's own number otherwise.
pub open spec fn spec_slot(
    a: Addr,
    reg_base: OpIndex,
    ast_objs: &AstObjects,
    packages: Seq<PackageVal>,
    inst_index: int,
    labels: Map<TCObjKey, usize>,
) -> Result<OpIndex, CodegenError> {
    if a is Void {
        Ok(0)
    } else {
        a.spec_into_index(reg_base, ast_objs, packages, inst_index, labels)
    }
}

impl InterInst {
    /// The instruction with this opcode and nothing else.
    pub open spec fn spec_with_op(op: Opcode) -> InterInst {
        InterInst::spec_with_op_t_index(op, None, None, Addr::Void, Addr::Void, Addr::Void)
    }

    pub open spec fn spec_with_op_index(op: Opcode, d: Addr, s0: Addr, s1: Addr) -> InterInst {
        InterInst::spec_with_op_t_index(op, None, None, d, s0, s1)
    }

    pub open spec fn spec_with_op_t_index(
        op: Opcode,
        t0: Option<ValueType>,
        t1: Option<ValueType>,
        d: Addr,
        s0: Addr,
        s1: Addr,
    ) -> InterInst {
        InterInst {
            op0: op,
            op1: AuxOp::Code(Opcode::VOID),
            t0: tag_or_void(t0),
            t1: tag_or_void(t1),
            d,
            s0,
            s1,
        }
    }

    pub fn with_op(op: Opcode) -> (inst: InterInst)
        ensures
            inst == InterInst::spec_with_op(op),
    {
        InterInst {
            op0: op,
            op1: AuxOp::Code(Opcode::VOID),
            t0: ValueType::Void,
            t1: ValueType::Void,
            d: Addr::Void,
            s0: Addr::Void,
            s1: Addr::Void,
        }
    }

    pub fn with_op_index(op: Opcode, d: Addr, s0: Addr, s1: Addr) -> (inst: InterInst)
        ensures
            inst == InterInst::spec_with_op_index(op, d, s0, s1),
    {
        Self::with_op_t_index(op, None, None, d, s0, s1)
    }

    pub fn with_op_t(op: Opcode, t0: Option<ValueType>, t1: Option<ValueType>) -> (inst: InterInst)
        ensures
            inst == InterInst::spec_with_op_t_index(op, t0, t1, Addr::Void, Addr::Void, Addr::Void),
    {
        Self::with_op_t_index(op, t0, t1, Addr::Void, Addr::Void, Addr::Void)
    }

    pub fn with_op_t_index(
        op: Opcode,
        t0: Option<ValueType>,
        t1: Option<ValueType>,
        d: Addr,
        s0: Addr,
        s1: Addr,
    ) -> (inst: InterInst)
        ensures
            inst == InterInst::spec_with_op_t_index(op, t0, t1, d, s0, s1),
    {
        InterInst {
            op0: op,
            op1: AuxOp::Code(Opcode::VOID),
            t0: match t0 {
                Some(t) => t,
                None => ValueType::Void,
            },
            t1: match t1 {
                Some(t) => t,
                None => ValueType::Void,
            },
            d,
            s0,
            s1,
        }
    }

    /// Puts a value type where the second opcode stands.
    pub fn set_op1_with_t(&mut self, t: ValueType)
        ensures
            *final(self) == (InterInst { op1: AuxOp::Type(t), ..*old(self) }),
    {
        self.op1 = AuxOp::Type(t);
    }

    /// The final instruction, or the error of the first operand, in the order
    /// `d`, `s0`, `s1`, that has no number.
    pub open spec fn spec_into_runtime_inst(
        self,
        reg_base: OpIndex,
        ast_objs: &AstObjects,
        packages: Seq<PackageVal>,
        inst_index: int,
        labels: Map<TCObjKey, usize>,
    ) -> Result<Instruction, CodegenError> {
        let d = spec_slot(self.d, reg_base, ast_objs, packages, inst_index, labels);
        let s0 = spec_slot(self.s0, reg_base, ast_objs, packages, inst_index, labels);
        let s1 = spec_slot(self.s1, reg_base, ast_objs, packages, inst_index, labels);
        if d is Err {
            Err(d->Err_0)
        } else if s0 is Err {
            Err(s0->Err_0)
        } else if s1 is Err {
            Err(s1->Err_0)
        } else {
            Ok(
                Instruction {
                    op0: self.op0,
                    op1: self.op1,
                    t0: self.t0,
                    t1: self.t1,
                    d: d->Ok_0,
                    s0: s0->Ok_0,
                    s1: s1->Ok_0,
                },
            )
        }
    }

    pub fn into_runtime_inst(
        self,
        reg_base: OpIndex,
        ast_objs: &AstObjects,
        packages: &PackageObjs,
        inst_index: usize,
        labels: &ObjMap<usize>,
    ) -> (r: Result<Instruction, CodegenError>)
        ensures
            r == self.spec_into_runtime_inst(
                reg_base,
                ast_objs,
                packages@,
                inst_index as int,
                labels@,
            ),
    {
        let d = slot(self.d, reg_base, ast_objs, packages, inst_index, labels)?;
        let s0 = slot(self.s0, reg_base, ast_objs, packages, inst_index, labels)?;
        let s1 = slot(self.s1, reg_base, ast_objs, packages, inst_index, labels)?;
        Ok(Instruction { op0: self.op0, op1: self.op1, t0: self.t0, t1: self.t1, d, s0, s1 })
    }
}

/// The number that stands in an instruction for one operand.
pub fn slot(
    a: Addr,
    reg_base: OpIndex,
    ast_objs: &AstObjects,
    packages: &PackageObjs,
    inst_index: usize,
    labels: &ObjMap<usize>,
) -> (r: Result<OpIndex, CodegenError>)
    ensures
        r == spec_slot(a, reg_base, ast_objs, packages@, inst_index as int, labels@),
{
    match a {
        Addr::Void => Ok(0),
        _ => a.into_index(reg_base, ast_objs, packages, inst_index, labels),
    }
}

} // verus!
