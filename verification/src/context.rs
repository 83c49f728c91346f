//! The builder of one function.
//!
//! A [`FuncCtx`] is made when a function is first met, is asked for locals,
//! captures and instructions while the body is walked, and is used up by
//! [`FuncCtx::into_runtime_func`], which writes the finished function into
//! the machine's table.

use vstd::prelude::*;
use crate::addr::{narrow, operand, Addr, VirtualAddr};
use crate::consts::{lemma_pool_with_wf, pool_with, Consts};
use crate::error::CodegenError;
use crate::inst::InterInst;
use crate::keys::{FunctionKey, PackageKey, TCObjKey, TCTypeKey};
use crate::objects::{AstObjects, FieldList, FunctionObjs, TypeLookup, VMObjects};
use crate::objmap::ObjMap;
use crate::state::{
    call_flag, call_inst, const_addr, field_slots, import_code, import_operands, import_pool,
    import_trampoline, lemma_add_locals_step, lemma_add_locals_stops, lemma_param_slots_prefix,
    lemma_runtime_prefix_fails, param_slots, params_known, return_dest, return_flag, return_pool,
    store_inst, FuncState, INIT_LOOP_HEAD,
};
use crate::value::{
    ConstView, FuncFlag, GosValue, Instruction, Meta, OpIndex, Opcode, ValueDesc, ValueType,
};

verus! {

/// What stands on the right of an assignment, as the statement walker hands
/// it on. `E` is the syntax tree's expression node.
#[verifier::reject_recursive_types(E)]
pub enum RightHandSide<'a, E> {
    Nothing,
    Values(&'a Vec<E>),
    Range(&'a E),
    SelectRecv(&'a E),
}

/// How a call is made.
#[derive(Clone, Copy, Debug, PartialEq, Eq, Structural)]
pub enum CallStyle {
    Default,
    /// As a new goroutine.
    Async,
    /// When the calling function returns.
    Defer,
}

impl CallStyle {
    /// The type slot that tells the machine of this style.
    pub fn flag(self) -> (t: ValueType)
        ensures
            t == call_flag(self),
    {
        match self {
            CallStyle::Default => ValueType::Void,
            CallStyle::Async => ValueType::FlagA,
            CallStyle::Defer => ValueType::FlagB,
        }
    }
}

/// The type slot that tells the machine how a function with this flag
/// leaves.
pub fn return_flag_of(flag: FuncFlag) -> (t: ValueType)
    ensures
        t == return_flag(flag),
{
    match flag {
        FuncFlag::Default => ValueType::Void,
        FuncFlag::PkgCtor => ValueType::FlagA,
        FuncFlag::HasDefer => ValueType::FlagB,
    }
}

/// The instructions that follow the header of an import.
pub fn make_import_trampoline(pkg_addr: Addr, zero_addr: Addr) -> (cd: Vec<InterInst>)
    ensures
        cd@ == import_trampoline(pkg_addr, zero_addr),
        cd@.len() == 8,
{
    let imm0 = Addr::Imm(0);
    let mut cd: Vec<InterInst> = Vec::new();
    cd.push(InterInst::with_op_index(Opcode::LOAD_PKG, Addr::Register(0), pkg_addr, imm0));
    cd.push(InterInst::with_op_index(Opcode::PRE_CALL, Addr::Register(0), imm0, imm0));
    cd.push(InterInst::with_op_t(Opcode::CALL, Some(ValueType::Closure), None));
    cd.push(InterInst::with_op_index(Opcode::ASSIGN, Addr::Register(0), zero_addr, Addr::Void));
    cd.push(
        InterInst::with_op_index(
            Opcode::LOAD_PKG_INIT_FUNC,
            Addr::Register(1),
            pkg_addr,
            Addr::Register(0),
        ),
    );
    cd.push(InterInst::with_op_index(Opcode::PRE_CALL, Addr::Register(1), imm0, imm0));
    cd.push(InterInst::with_op(Opcode::CALL));
    // back to the load of the next initialiser
    let back: OpIndex = INIT_LOOP_HEAD as i32 - cd.len() as i32 - 1;
    cd.push(InterInst::with_op_index(Opcode::JUMP, Addr::Imm(back), Addr::Void, Addr::Void));
    cd
}

/// The builder of one function. What it holds is its view, a
/// [`FuncState`]; every method says what it does to that.
pub struct FuncCtx {
    f_key: FunctionKey,
    tc_key: Option<TCTypeKey>,
    max_reg_num: OpIndex,
    stack_temp_types: Vec<ValueType>,
    code: Vec<InterInst>,
    pos: Vec<Option<usize>>,
    up_ptrs: Vec<ValueDesc>,
    local_zeros: Vec<GosValue>,
    entities: ObjMap<Addr>,
    uv_entities: ObjMap<Addr>,
    local_alloc: OpIndex,
}

impl View for FuncCtx {
    type V = FuncState;

    closed spec fn view(&self) -> FuncState {
        FuncState {
            f_key: self.f_key,
            tc_key: self.tc_key,
            max_reg_num: self.max_reg_num,
            stack_temp_types: self.stack_temp_types@,
            code: self.code@,
            pos: self.pos@,
            up_ptrs: self.up_ptrs@,
            local_zeros: self.local_zeros@,
            entities: self.entities@,
            uv_entities: self.uv_entities@,
            local_alloc: self.local_alloc,
        }
    }
}

impl FuncCtx {
    pub fn new(f_key: FunctionKey, tc_key: Option<TCTypeKey>) -> (ctx: FuncCtx)
        ensures
            ctx@ == FuncState::init(f_key, tc_key),
            ctx@.wf(),
    {
        FuncCtx {
            f_key,
            tc_key,
            max_reg_num: 0,
            stack_temp_types: Vec::new(),
            code: Vec::new(),
            pos: Vec::new(),
            up_ptrs: Vec::new(),
            local_zeros: Vec::new(),
            entities: ObjMap::new(),
            uv_entities: ObjMap::new(),
            local_alloc: 0,
        }
    }

    /// The function being built.
    pub fn f_key(&self) -> (key: FunctionKey)
        ensures
            key == self@.f_key,
    {
        self.f_key
    }

    /// The function's type, for casting what it returns to interfaces.
    pub fn tc_key(&self) -> (key: Option<TCTypeKey>)
        ensures
            key == self@.tc_key,
    {
        self.tc_key
    }

    /// How many temporaries the frame needs above its locals.
    pub fn max_reg_num(&self) -> (n: OpIndex)
        ensures
            n == self@.max_reg_num,
    {
        self.max_reg_num
    }

    /// How many locals were claimed. The temporaries start at this slot, so
    /// the frame needs this many slots and `max_reg_num` more.
    pub fn local_alloc(&self) -> (n: OpIndex)
        ensures
            n == self@.local_alloc,
    {
        self.local_alloc
    }

    /// Whether the function being built is a package constructor.
    pub fn is_ctor(&self, funcs: &FunctionObjs) -> (r: bool)
        requires
            self@.f_key.0 < funcs@.len(),
        ensures
            r == (funcs@[self@.f_key.0 as int].flag == FuncFlag::PkgCtor),
    {
        funcs[self.f_key.0].is_ctor()
    }

    /// The distance from instruction `loc` to the end of the code so far:
    /// how many instructions were emitted from `loc` on. Fails where it does
    /// not fit an operand.
    pub fn offset(&self, loc: usize) -> (r: Result<OpIndex, CodegenError>)
        ensures
            r == operand(self@.code.len() - loc),
    {
        narrow(self.code.len() as i128 - loc as i128)
    }

    /// The index that the next instruction will have.
    pub fn next_code_index(&self) -> (n: usize)
        ensures
            n == self@.code.len(),
    {
        self.code.len()
    }

    /// Instruction `i`, to be changed in place: a jump whose distance was not
    /// known when it was emitted is patched this way.
    pub fn inst_mut(&mut self, i: usize) -> (inst: &mut InterInst)
        requires
            i < old(self)@.code.len(),
        ensures
            *inst == old(self)@.code[i as int],
            final(self)@ == (FuncState {
                code: old(self)@.code.update(i as int, *final(inst)),
                ..old(self)@
            }),
    {
        &mut self.code[i]
    }

    /// Where `entity` is bound, if it is.
    pub fn entity_index(&self, entity: &TCObjKey) -> (r: Option<&Addr>)
        ensures
            match r {
                Some(a) => self@.entities.contains_key(*entity) && *a == self@.entities[*entity],
                None => !self@.entities.contains_key(*entity),
            },
    {
        self.entities.get(*entity)
    }

    /// Interns a constant and gives its place.
    pub fn add_const(&mut self, consts: &mut Consts, cst: GosValue) -> (r: Result<
        VirtualAddr,
        CodegenError,
    >)
        requires
            old(consts).wf(),
        ensures
            final(self)@ == old(self)@,
            final(consts).wf(),
            final(consts)@ == pool_with(old(consts)@, cst@),
            r == const_addr(old(consts)@, cst@),
    {
        let i = consts.add_const(cst)?;
        Ok(VirtualAddr::Direct(Addr::Const(i)))
    }

    /// Interns a type description and gives its place.
    pub fn add_metadata(&self, consts: &mut Consts, meta: Meta) -> (r: Result<
        VirtualAddr,
        CodegenError,
    >)
        requires
            old(consts).wf(),
        ensures
            final(consts).wf(),
            final(consts)@ == pool_with(old(consts)@, ConstView::Metadata(meta)),
            r == const_addr(old(consts)@, ConstView::Metadata(meta)),
    {
        let i = consts.add_const(GosValue::new_metadata(meta))?;
        Ok(VirtualAddr::Direct(Addr::Const(i)))
    }

    /// Interns a package and gives its place.
    pub fn add_package(&self, consts: &mut Consts, pkg: PackageKey) -> (r: Result<
        VirtualAddr,
        CodegenError,
    >)
        requires
            old(consts).wf(),
        ensures
            final(consts).wf(),
            final(consts)@ == pool_with(old(consts)@, ConstView::Package(pkg)),
            r == const_addr(old(consts)@, ConstView::Package(pkg)),
    {
        let i = consts.add_const(GosValue::new_package(pkg))?;
        Ok(VirtualAddr::Direct(Addr::Const(i)))
    }

    /// Interns method `index` of the type `obj_meta` and gives its place.
    pub fn add_function(&self, consts: &mut Consts, obj_meta: Meta, index: OpIndex) -> (r: Result<
        VirtualAddr,
        CodegenError,
    >)
        requires
            old(consts).wf(),
        ensures
            final(consts).wf(),
            final(consts)@ == pool_with(old(consts)@, ConstView::Method(obj_meta, index)),
            r == const_addr(old(consts)@, ConstView::Method(obj_meta, index)),
    {
        let i = consts.add_function(obj_meta, index)?;
        Ok(VirtualAddr::Direct(Addr::Const(i)))
    }

    /// Binds the named constant `entity` to `cst`, interned. Fails, changing
    /// neither the builder nor the pool, where `entity` is bound already or
    /// the pool cannot take `cst`.
    pub fn add_const_var(&mut self, consts: &mut Consts, entity: TCObjKey, cst: GosValue) -> (r:
        Result<VirtualAddr, CodegenError>)
        requires
            old(self)@.wf(),
            old(consts).wf(),
        ensures
            final(self)@.wf(),
            final(consts).wf(),
            r == old(self)@.add_const_var_result(old(consts)@, entity, cst@),
            match r {
                Ok(va) => {
                    &&& va is Direct
                    &&& final(self)@ == old(self)@.bind(entity, va->Direct_0)
                    &&& final(consts)@ == pool_with(old(consts)@, cst@)
                },
                Err(_) => final(self)@ == old(self)@ && final(consts)@ == old(consts)@,
            },
    {
        if self.entities.contains_key(entity) {
            return Err(CodegenError::DuplicateEntity(entity));
        }
        proof {
            lemma_pool_with_wf(consts@, cst@);
        }
        let addr = Addr::Const(consts.add_const(cst)?);
        self.entities.insert(entity, addr);
        Ok(VirtualAddr::Direct(addr))
    }

    /// Claims the next local. Fails, changing nothing, where `entity` is
    /// bound already or the count of locals would not fit an operand.
    pub fn add_local(
        &mut self,
        entity: Option<TCObjKey>,
        zero_val_type: Option<(GosValue, ValueType)>,
    ) -> (r: Result<VirtualAddr, CodegenError>)
        requires
            old(self)@.wf(),
        ensures
            final(self)@.wf(),
            r == old(self)@.add_local_result(entity),
            final(self)@ == if r is Ok {
                old(self)@.add_local(entity, zero_val_type)
            } else {
                old(self)@
            },
    {
        if let Some(key) = entity {
            if self.entities.contains_key(key) {
                return Err(CodegenError::DuplicateEntity(key));
            }
        }
        if self.local_alloc == i32::MAX {
            return Err(CodegenError::OperandOverflow);
        }
        let addr = Addr::LocalVar(self.local_alloc);
        if let Some(key) = entity {
            self.entities.insert(key, addr);
        }
        self.local_alloc += 1;
        if let Some((zero, typ)) = zero_val_type {
            self.local_zeros.push(zero);
            self.stack_temp_types.push(typ);
        }
        Ok(VirtualAddr::Direct(addr))
    }

    /// Gives the captured object `entity` its place among the captures: the
    /// one it has, or a new one described by `uv`. Fails, changing nothing,
    /// where a new slot would not fit an operand.
    pub fn add_upvalue(&mut self, entity: &TCObjKey, uv: ValueDesc) -> (r: Result<
        VirtualAddr,
        CodegenError,
    >)
        requires
            old(self)@.wf(),
        ensures
            final(self)@.wf(),
            r == old(self)@.add_upvalue_result(*entity),
            final(self)@ == old(self)@.add_upvalue(*entity, uv),
    {
        let found = match self.uv_entities.get(*entity) {
            Some(a) => Some(*a),
            None => None,
        };
        let addr = match found {
            Some(a) => a,
            None => {
                let n = self.up_ptrs.len();
                if n > i32::MAX as usize {
                    return Err(CodegenError::OperandOverflow);
                }
                let et = Addr::Imm(n as i32);
                self.up_ptrs.push(uv);
                self.uv_entities.insert(*entity, et);
                et
            },
        };
        Ok(VirtualAddr::UpValue(addr))
    }

    /// Claims the locals of a parameter list, in order: one for each name,
    /// and one for an entry without a name. Answers how many were claimed.
    /// Stops at the first that cannot be claimed, keeping those before it.
    pub fn add_params(&mut self, fl: &FieldList, o: &AstObjects, t_lookup: &TypeLookup) -> (r:
        Result<usize, CodegenError>)
        requires
            old(self)@.wf(),
            params_known(fl, o, t_lookup),
        ensures
            final(self)@.wf(),
            final(self)@ == old(self)@.add_locals(param_slots(fl.list@, o, t_lookup)).0,
            match old(self)@.add_locals(param_slots(fl.list@, o, t_lookup)).1 {
                Some(e) => r == Err::<usize, CodegenError>(e),
                None => r is Ok && r->Ok_0 == param_slots(fl.list@, o, t_lookup).len(),
            },
    {
        let ghost all = param_slots(fl.list@, o, t_lookup);
        let ghost mut done: Seq<Option<TCObjKey>> = Seq::empty();
        let mut count: usize = 0;
        let mut i: usize = 0;
        while i < fl.list.len()
            invariant
                0 <= i <= fl.list@.len(),
                params_known(fl, o, t_lookup),
                all == param_slots(fl.list@, o, t_lookup),
                self@.wf(),
                done == param_slots(fl.list@.take(i as int), o, t_lookup),
                old(self)@.add_locals(done) == (self@, None::<CodegenError>),
                count == done.len(),
                self@.local_alloc == old(self)@.local_alloc + done.len(),
            decreases fl.list@.len() - i,
        {
            let fkey = fl.list[i];
            let names = &o.fields[fkey.0].names;
            let ghost slots = field_slots(&o.fields@[fkey.0 as int], t_lookup);
            let ghost before = done;
            let ghost mut rest: Seq<Option<TCObjKey>> = Seq::empty();
            proof {
                assert(fl.list@.take(i + 1).drop_last() =~= fl.list@.take(i as int));
                rest = lemma_param_slots_prefix(fl.list@, i + 1, o, t_lookup);
            }
            if names.len() == 0 {
                proof {
                    lemma_add_locals_step(old(self)@, done, None);
                    assert(before + slots =~= done.push(None));
                }
                match self.add_local(None, None) {
                    Ok(_) => {},
                    Err(e) => {
                        proof {
                            lemma_add_locals_stops(old(self)@, done.push(None), rest);
                        }
                        return Err(e);
                    },
                }
                proof {
                    done = done.push(None);
                }
                count += 1;
            } else {
                let mut j: usize = 0;
                while j < names.len()
                    invariant
                        0 <= j <= names@.len(),
                        names@.len() > 0,
                        fkey.0 < o.fields@.len(),
                        names@ == o.fields@[fkey.0 as int].names@,
                        forall|k: int| 0 <= k < names@.len() ==> t_lookup.defines(#[trigger] names@[k]),
                        slots == field_slots(&o.fields@[fkey.0 as int], t_lookup),
                        all == before + slots + rest,
                        all == param_slots(fl.list@, o, t_lookup),
                        self@.wf(),
                        done == before + slots.take(j as int),
                        old(self)@.add_locals(done) == (self@, None::<CodegenError>),
                        count == done.len(),
                        self@.local_alloc == old(self)@.local_alloc + done.len(),
                    decreases names@.len() - j,
                {
                    let key = t_lookup.object_def(names[j]);
                    proof {
                        lemma_add_locals_step(old(self)@, done, Some(key));
                    }
                    match self.add_local(Some(key), None) {
                        Ok(_) => {},
                        Err(e) => {
                            proof {
                                let tail = slots.skip(j + 1) + rest;
                                assert(all =~= done.push(Some(key)) + tail);
                                lemma_add_locals_stops(old(self)@, done.push(Some(key)), tail);
                            }
                            return Err(e);
                        },
                    }
                    proof {
                        done = done.push(Some(key));
                    }
                    count += 1;
                    j += 1;
                }
            }
            i += 1;
        }
        assert(fl.list@.take(i as int) =~= fl.list@);
        Ok(count)
    }

    /// Emits the store of `rhs` to `lhs`. Nothing is emitted for the target
    /// `_`; a zero value is no target at all.
    pub fn emit_assign(&mut self, lhs: VirtualAddr, rhs: Addr, pos: Option<usize>) -> (r: Result<
        (),
        CodegenError,
    >)
        requires
            old(self)@.wf(),
        ensures
            final(self)@.wf(),
            r == if lhs is ZeroValue {
                Err::<(), CodegenError>(CodegenError::InvalidAssignTarget)
            } else {
                Ok(())
            },
            final(self)@ == match store_inst(lhs, rhs) {
                Some(inst) => old(self)@.push_inst_pos(inst, pos),
                None => old(self)@,
            },
    {
        if lhs.is_blank() {
            return Ok(());
        }
        let inst = match lhs {
            VirtualAddr::Direct(l) => InterInst::with_op_index(Opcode::ASSIGN, l, rhs, Addr::Void),
            VirtualAddr::UpValue(l) => InterInst::with_op_index(
                Opcode::STORE_UP_VALUE,
                l,
                rhs,
                Addr::Void,
            ),
            VirtualAddr::SliceEntry(s, i) => InterInst::with_op_index(Opcode::STORE_SLICE, s, i, rhs),
            VirtualAddr::ArrayEntry(a, i) => InterInst::with_op_index(Opcode::STORE_ARRAY, a, i, rhs),
            VirtualAddr::MapEntry(m, k) => InterInst::with_op_index(Opcode::STORE_MAP, m, k, rhs),
            VirtualAddr::StructMember(s, i) => InterInst::with_op_index(
                Opcode::STORE_STRUCT,
                s,
                i,
                rhs,
            ),
            VirtualAddr::StructEmbedded(s, i) => InterInst::with_op_index(
                Opcode::STORE_STRUCT_EMBEDDED,
                s,
                i,
                rhs,
            ),
            VirtualAddr::PackageMember(p, i) => InterInst::with_op_index(Opcode::STORE_PKG, p, i, rhs),
            VirtualAddr::Pointee(p) => InterInst::with_op_index(
                Opcode::STORE_POINTER,
                p,
                rhs,
                Addr::Void,
            ),
            VirtualAddr::Blank => return Ok(()),
            VirtualAddr::ZeroValue => return Err(CodegenError::InvalidAssignTarget),
        };
        self.push_inst_pos(inst, pos);
        Ok(())
    }

    /// Emits the load of member `index` of package `pkg` into `d`.
    pub fn emit_load_pkg(&mut self, d: Addr, pkg: Addr, index: Addr, pos: Option<usize>)
        requires
            old(self)@.wf(),
        ensures
            final(self)@.wf(),
            final(self)@ == old(self)@.push_inst_pos(
                InterInst::spec_with_op_index(Opcode::LOAD_PKG, d, pkg, index),
                pos,
            ),
    {
        let inst = InterInst::with_op_index(Opcode::LOAD_PKG, d, pkg, index);
        self.push_inst_pos(inst, pos);
    }

    /// Emits the making of a closure of the function `s` into `d`.
    pub fn emit_closure(&mut self, d: Addr, s: Addr, pos: Option<usize>)
        requires
            old(self)@.wf(),
        ensures
            final(self)@.wf(),
            final(self)@ == old(self)@.push_inst_pos(
                InterInst::spec_with_op_index(Opcode::CLOSURE, d, s, Addr::Void),
                pos,
            ),
    {
        let inst = InterInst::with_op_index(Opcode::CLOSURE, d, s, Addr::Void);
        self.push_inst_pos(inst, pos);
    }

    /// Emits a jump over `offset` instructions, counted from the one after
    /// the jump.
    pub fn emit_jump(&mut self, offset: OpIndex, pos: Option<usize>)
        requires
            old(self)@.wf(),
        ensures
            final(self)@.wf(),
            final(self)@ == old(self)@.push_inst_pos(
                InterInst::spec_with_op_index(
                    Opcode::JUMP,
                    Addr::Imm(offset),
                    Addr::Void,
                    Addr::Void,
                ),
                pos,
            ),
    {
        let inst = InterInst::with_op_index(
            Opcode::JUMP,
            Addr::Imm(offset),
            Addr::Void,
            Addr::Void,
        );
        self.push_inst_pos(inst, pos);
    }

    /// Emits the set-up of a call frame for the closure `cls`.
    pub fn emit_pre_call(
        &mut self,
        cls: Addr,
        stack_base: OpIndex,
        param_count: OpIndex,
        pos: Option<usize>,
    )
        requires
            old(self)@.wf(),
        ensures
            final(self)@.wf(),
            final(self)@ == old(self)@.push_inst_pos(
                InterInst::spec_with_op_index(
                    Opcode::PRE_CALL,
                    cls,
                    Addr::Imm(stack_base),
                    Addr::Imm(param_count),
                ),
                pos,
            ),
    {
        let inst = InterInst::with_op_index(
            Opcode::PRE_CALL,
            cls,
            Addr::Imm(stack_base),
            Addr::Imm(param_count),
        );
        self.push_inst_pos(inst, pos);
    }

    /// Emits the call that follows a set-up frame.
    pub fn emit_call(&mut self, style: CallStyle, pos: Option<usize>)
        requires
            old(self)@.wf(),
        ensures
            final(self)@.wf(),
            final(self)@ == old(self)@.push_inst_pos(call_inst(call_flag(style), Addr::Void), pos),
    {
        let mut inst = InterInst::with_op(Opcode::CALL);
        inst.t0 = style.flag();
        self.push_inst_pos(inst, pos);
    }

    /// Emits the return of the function being built, flagged by how the
    /// function leaves. A package constructor hands back its package, which
    /// is interned. Fails, emitting nothing, where the pool cannot take it.
    pub fn emit_return(
        &mut self,
        consts: &mut Consts,
        pkg: Option<PackageKey>,
        pos: Option<usize>,
        fobjs: &FunctionObjs,
    ) -> (r: Result<(), CodegenError>)
        requires
            old(self)@.wf(),
            old(consts).wf(),
            old(self)@.f_key.0 < fobjs@.len(),
        ensures
            final(self)@.wf(),
            final(consts).wf(),
            final(consts)@ == return_pool(old(consts)@, pkg),
            match return_dest(old(consts)@, pkg) {
                Ok(d) => r is Ok && final(self)@ == old(self)@.push_inst_pos(
                    call_inst(return_flag(fobjs@[old(self)@.f_key.0 as int].flag), d),
                    pos,
                ),
                Err(e) => r == Err::<(), CodegenError>(e) && final(self)@ == old(self)@,
            },
    {
        let flag = return_flag_of(fobjs[self.f_key.0].flag);
        let mut inst = InterInst::with_op(Opcode::CALL);
        inst.t0 = flag;
        if let Some(p) = pkg {
            inst.d = self.add_package(consts, p)?.as_direct_addr();
        }
        self.push_inst_pos(inst, pos);
        Ok(())
    }

    /// Emits the import of `pkg`: the header and the trampoline, all at
    /// `pos`, and makes room for the trampoline's two temporaries. Fails,
    /// emitting nothing, where the pool cannot take the package or the zero.
    pub fn emit_import(&mut self, consts: &mut Consts, pkg: PackageKey, pos: Option<usize>) -> (r:
        Result<(), CodegenError>)
        requires
            old(self)@.wf(),
            old(consts).wf(),
        ensures
            final(self)@.wf(),
            final(consts).wf(),
            final(consts)@ == import_pool(old(consts)@, pkg),
            match import_operands(old(consts)@, pkg) {
                Ok((pkg_addr, zero_addr)) => r is Ok && final(self)@ == old(self)@.push_all(
                    import_code(pkg_addr, zero_addr),
                    pos,
                ).update_max_reg(2),
                Err(e) => r == Err::<(), CodegenError>(e) && final(self)@ == old(self)@,
            },
    {
        proof {
            lemma_pool_with_wf(consts@, ConstView::Package(pkg));
            lemma_pool_with_wf(pool_with(consts@, ConstView::Package(pkg)), ConstView::Int32(0));
        }
        let pkg_addr = self.add_package(consts, pkg)?.as_direct_addr();
        let zero_addr = Addr::Const(consts.add_const(GosValue::new_int32(0))?);
        let cd = make_import_trampoline(pkg_addr, zero_addr);
        let offset = Addr::Imm(cd.len() as OpIndex);
        let inst = InterInst::with_op_index(Opcode::IMPORT, offset, pkg_addr, Addr::Void);
        let ghost all = import_code(pkg_addr, zero_addr);
        self.push_inst_pos(inst, pos);
        assert(self@ == old(self)@.push_all(all.take(1), pos)) by {
            assert(self@.code =~= old(self)@.code + all.take(1));
            assert(self@.pos =~= old(self)@.pos + Seq::new(all.take(1).len(), |i: int| pos));
        }
        let mut k: usize = 0;
        while k < cd.len()
            invariant
                0 <= k <= cd@.len(),
                cd@.len() == 8,
                all.len() == 9,
                forall|i: int| 0 <= i < 8 ==> all[i + 1] == cd@[i],
                self@.wf(),
                self@ == old(self)@.push_all(all.take(k + 1), pos),
            decreases cd@.len() - k,
        {
            self.push_inst_pos(cd[k], pos);
            assert(self@ == old(self)@.push_all(all.take(k + 2), pos)) by {
                assert(self@.code =~= old(self)@.code + all.take(k + 2));
                assert(self@.pos =~= old(self)@.pos + Seq::new(
                    all.take(k + 2).len(),
                    |i: int| pos,
                ));
            }
            k += 1;
        }
        assert(all.take(9) =~= all);
        self.update_max_reg(2);
        Ok(())
    }

    /// Finishes the function: turns every instruction into the form that the
    /// machine decodes, and writes the function into the machine's table.
    /// Fails with the error of the first instruction that has no such form,
    /// and then leaves the table as it was.
    pub fn into_runtime_func(self, asto: &AstObjects, vmo: &mut VMObjects, labels: &ObjMap<usize>) -> (r:
        Result<(), CodegenError>)
        requires
            self@.wf(),
            self@.f_key.0 < old(vmo).functions@.len(),
        ensures
            match self@.runtime_code(asto, old(vmo).packages@, labels@) {
                Ok(code) => r is Ok && self@.finished_in(code, old(vmo), final(vmo)),
                Err(e) => r == Err::<(), CodegenError>(e) && *final(vmo) == *old(vmo),
            },
    {
        let ghost st = self@;
        let FuncCtx { f_key, code, pos, up_ptrs, local_zeros, mut stack_temp_types, local_alloc, .. } =
            self;
        let n = code.len();
        let mut out: Vec<Instruction> = Vec::new();
        let mut i: usize = 0;
        while i < n
            invariant
                0 <= i <= n,
                n == code@.len(),
                st == self@,
                code@ == st.code,
                local_alloc == st.local_alloc,
                *vmo == *old(vmo),
                st.runtime_prefix(i as nat, asto, vmo.packages@, labels@) == Ok::<
                    Seq<Instruction>,
                    CodegenError,
                >(out@),
            decreases n - i,
        {
            match code[i].into_runtime_inst(local_alloc, asto, &vmo.packages, i, labels) {
                Ok(inst) => out.push(inst),
                Err(e) => {
                    proof {
                        assert(st.runtime_inst(i as int, asto, vmo.packages@, labels@) == Err::<
                            Instruction,
                            CodegenError,
                        >(e));
                        assert(st.runtime_prefix((i + 1) as nat, asto, vmo.packages@, labels@)
                            == Err::<Seq<Instruction>, CodegenError>(e));
                        lemma_runtime_prefix_fails(
                            st,
                            (i + 1) as nat,
                            n as nat,
                            asto,
                            vmo.packages@,
                            labels@,
                        );
                    }
                    return Err(e);
                },
            }
            i += 1;
        }
        let func = &mut vmo.functions[f_key.0];
        func.stack_temp_types.append(&mut stack_temp_types);
        func.pos = pos;
        func.up_ptrs = up_ptrs;
        func.local_zeros = local_zeros;
        func.code = out;
        Ok(())
    }

    /// Appends one instruction and its position.
    pub fn push_inst_pos(&mut self, i: InterInst, pos: Option<usize>)
        requires
            old(self)@.wf(),
        ensures
            final(self)@ == old(self)@.push_inst_pos(i, pos),
            final(self)@.wf(),
    {
        self.code.push(i);
        self.pos.push(pos);
    }

    /// Raises the count of temporaries to `max`, where it is lower.
    pub fn update_max_reg(&mut self, max: OpIndex)
        ensures
            final(self)@ == old(self)@.update_max_reg(max),
    {
        if self.max_reg_num < max {
            self.max_reg_num = max
        }
    }
}

} // verus!
