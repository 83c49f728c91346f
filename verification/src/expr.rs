//! What the builder keeps while it walks one expression: the next free
//! temporary, and where the expression's value is to go.

use vstd::prelude::*;
use crate::addr::{Addr, VirtualAddr};
use crate::error::CodegenError;
use crate::value::OpIndex;

verus! {

/// What is to be done with an expression's value.
#[derive(Clone, Copy, Debug, PartialEq, Eq, Structural)]
pub enum ExprMode {
    /// Leave it in a temporary for the caller to use.
    Load,
    /// Store it to the given place.
    Assign(VirtualAddr),
}

/// The state of one expression being built.
pub struct ExprCtx {
    /// The next free temporary.
    pub cur_reg: OpIndex,
    pub mode: ExprMode,
    /// The temporary that holds the value in `Load` mode, once one was asked
    /// for.
    pub load_addr: Addr,
}

impl ExprCtx {
    pub fn new(init_reg: OpIndex, mode: ExprMode) -> (ctx: ExprCtx)
        ensures
            ctx.cur_reg == init_reg,
            ctx.mode == mode,
            ctx.load_addr == Addr::Void,
    {
        ExprCtx { cur_reg: init_reg, mode, load_addr: Addr::Void }
    }

    /// Whether all temporaries are taken.
    pub open spec fn exhausted(&self) -> bool {
        self.cur_reg == i32::MAX
    }

    /// Whether a destination takes a fresh temporary: always in `Load` mode,
    /// and in `Assign` mode for every target but a plain operand.
    pub open spec fn dest_needs_reg(&self) -> bool {
        match self.mode {
            ExprMode::Load => true,
            ExprMode::Assign(VirtualAddr::Direct(_)) => false,
            ExprMode::Assign(_) => true,
        }
    }

    /// Takes the next free temporary. Fails, changing nothing, when none is
    /// left.
    pub fn alloc_reg(&mut self) -> (r: Result<Addr, CodegenError>)
        ensures
            match r {
                Ok(a) => {
                    &&& !old(self).exhausted()
                    &&& a == Addr::Register(old(self).cur_reg)
                    &&& *final(self) == (ExprCtx {
                        cur_reg: (old(self).cur_reg + 1) as i32,
                        ..*old(self)
                    })
                },
                Err(e) => {
                    &&& old(self).exhausted()
                    &&& e == CodegenError::OperandOverflow
                    &&& *final(self) == *old(self)
                },
            },
    {
        if self.cur_reg == i32::MAX {
            return Err(CodegenError::OperandOverflow);
        }
        let r = Addr::Register(self.cur_reg);
        self.cur_reg += 1;
        Ok(r)
    }

    /// Takes the next free temporary as the place of the loaded value.
    pub fn alloc_reg_as_load_addr(&mut self) -> (r: Result<(), CodegenError>)
        ensures
            match r {
                Ok(()) => {
                    &&& !old(self).exhausted()
                    &&& *final(self) == (ExprCtx {
                        cur_reg: (old(self).cur_reg + 1) as i32,
                        load_addr: Addr::Register(old(self).cur_reg),
                        ..*old(self)
                    })
                },
                Err(e) => {
                    &&& old(self).exhausted()
                    &&& e == CodegenError::OperandOverflow
                    &&& *final(self) == *old(self)
                },
            },
    {
        let a = self.alloc_reg()?;
        self.load_addr = a;
        Ok(())
    }

    /// Picks where the expression's value goes, and says which store, if
    /// any, has to follow.
    ///
    /// In `Load` mode the value goes to a fresh temporary, which is remembered
    /// as `load_addr`. Assigned to a plain operand it goes there directly.
    /// Assigned to any other place it goes to a fresh temporary, and the place
    /// is handed back for the store.
    pub fn get_dest(&mut self) -> (r: Result<(Addr, Option<VirtualAddr>), CodegenError>)
        ensures
            final(self).mode == old(self).mode,
            match r {
                Ok((dest, store)) => match old(self).mode {
                    ExprMode::Load => {
                        &&& !old(self).exhausted()
                        &&& dest == Addr::Register(old(self).cur_reg)
                        &&& store is None
                        &&& final(self).cur_reg == old(self).cur_reg + 1
                        &&& final(self).load_addr == dest
                    },
                    ExprMode::Assign(VirtualAddr::Direct(d)) => {
                        &&& dest == d
                        &&& store is None
                        &&& *final(self) == *old(self)
                    },
                    ExprMode::Assign(va) => {
                        &&& !old(self).exhausted()
                        &&& dest == Addr::Register(old(self).cur_reg)
                        &&& store == Some(va)
                        &&& final(self).cur_reg == old(self).cur_reg + 1
                        &&& final(self).load_addr == old(self).load_addr
                    },
                },
                Err(e) => {
                    &&& old(self).dest_needs_reg()
                    &&& old(self).exhausted()
                    &&& e == CodegenError::OperandOverflow
                    &&& *final(self) == *old(self)
                },
            },
    {
        match self.mode {
            ExprMode::Load => {
                self.alloc_reg_as_load_addr()?;
                Ok((self.load_addr, None))
            },
            ExprMode::Assign(va) => match va {
                VirtualAddr::Direct(d) => Ok((d, None)),
                _ => {
                    let reg = self.alloc_reg()?;
                    Ok((reg, Some(va)))
                },
            },
        }
    }
}

} // verus!
