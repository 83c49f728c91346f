//! The builder as a mathematical value, and each of its steps as a function
//! from one such value to the next.
//!
//! [`crate::context::FuncCtx`] states what its methods do by these functions.

use vstd::prelude::*;
use crate::addr::{Addr, VirtualAddr};
use crate::consts::{interned, pool_with};
use crate::context::CallStyle;
use crate::error::CodegenError;
use crate::inst::InterInst;
use crate::keys::{FieldKey, FunctionKey, PackageKey, TCObjKey, TCTypeKey};
use crate::objects::{AstObjects, Field, FieldList, PackageVal, TypeLookup, VMObjects};
use crate::value::{
    ConstView, FuncFlag, GosValue, Instruction, OpIndex, Opcode, ValueDesc, ValueType,
};

verus! {

/// All that a builder holds, as sequences and maps.
pub struct FuncState {
    pub f_key: FunctionKey,
    pub tc_key: Option<TCTypeKey>,
    /// How many temporaries the frame needs above its locals.
    pub max_reg_num: OpIndex,
    /// The kind of each local that the machine initialises.
    pub stack_temp_types: Seq<ValueType>,
    pub code: Seq<InterInst>,
    /// The source position of each instruction, where one is known.
    pub pos: Seq<Option<usize>>,
    /// What the closure captures, in slot order.
    pub up_ptrs: Seq<ValueDesc>,
    /// The zero value of each local that the machine initialises.
    pub local_zeros: Seq<GosValue>,
    /// Where each named object of the function lives.
    pub entities: Map<TCObjKey, Addr>,
    /// The capture slot of each captured object.
    pub uv_entities: Map<TCObjKey, Addr>,
    /// How many locals were claimed. The temporaries start here.
    pub local_alloc: OpIndex,
}

/// A binding names a claimed local, or a constant of the pool.
pub open spec fn binding_ok(a: Addr, local_alloc: OpIndex) -> bool {
    match a {
        Addr::LocalVar(i) => 0 <= i < local_alloc,
        Addr::Const(i) => 0 <= i,
        _ => false,
    }
}

impl FuncState {
    /// The state of a builder that has done nothing yet.
    pub open spec fn init(f_key: FunctionKey, tc_key: Option<TCTypeKey>) -> FuncState {
        FuncState {
            f_key,
            tc_key,
            max_reg_num: 0,
            stack_temp_types: Seq::empty(),
            code: Seq::empty(),
            pos: Seq::empty(),
            up_ptrs: Seq::empty(),
            local_zeros: Seq::empty(),
            entities: Map::empty(),
            uv_entities: Map::empty(),
            local_alloc: 0,
        }
    }

    /// What holds of every builder, whatever was asked of it:
    /// instructions and positions go in step, and so do the zero values and
    /// kinds of the initialised locals; a bound object names a claimed local or
    /// a constant; a captured object has one slot among the captures, and no
    /// two share one.
    pub open spec fn wf(self) -> bool {
        &&& self.code.len() == self.pos.len()
        &&& self.local_zeros.len() == self.stack_temp_types.len()
        &&& 0 <= self.local_alloc
        &&& self.local_zeros.len() <= self.local_alloc
        &&& self.up_ptrs.len() <= i32::MAX + 1
        &&& forall|k: TCObjKey| #[trigger]
            self.entities.contains_key(k) ==> binding_ok(self.entities[k], self.local_alloc)
        &&& forall|k: TCObjKey| #[trigger]
            self.uv_entities.contains_key(k) ==> self.uv_entities[k] is Imm && 0
                <= self.uv_entities[k]->Imm_0 < self.up_ptrs.len()
        &&& forall|k1: TCObjKey, k2: TCObjKey|
            #![trigger self.uv_entities[k1], self.uv_entities[k2]]
            self.uv_entities.contains_key(k1) && self.uv_entities.contains_key(k2) && k1 != k2
                ==> self.uv_entities[k1] != self.uv_entities[k2]
    }

    /// One instruction more, with its position.
    pub open spec fn push_inst_pos(self, i: InterInst, pos: Option<usize>) -> FuncState {
        FuncState { code: self.code.push(i), pos: self.pos.push(pos), ..self }
    }

    /// Several instructions more, all at one position.
    pub open spec fn push_all(self, insts: Seq<InterInst>, pos: Option<usize>) -> FuncState {
        FuncState {
            code: self.code + insts,
            pos: self.pos + Seq::new(insts.len(), |i: int| pos),
            ..self
        }
    }

    /// The count of temporaries raised to `max`, where it was lower.
    pub open spec fn update_max_reg(self, max: OpIndex) -> FuncState {
        FuncState {
            max_reg_num: if self.max_reg_num < max {
                max
            } else {
                self.max_reg_num
            },
            ..self
        }
    }

    /// `entity` bound to `addr`.
    pub open spec fn bind(self, entity: TCObjKey, addr: Addr) -> FuncState {
        FuncState { entities: self.entities.insert(entity, addr), ..self }
    }

    /// What binding `entity` to the constant `v` answers: the constant's
    /// place, or why there is none. An object that is bound already is
    /// reported before the pool is asked.
    pub open spec fn add_const_var_result(
        self,
        pool: Seq<ConstView>,
        entity: TCObjKey,
        v: ConstView,
    ) -> Result<VirtualAddr, CodegenError> {
        if self.entities.contains_key(entity) {
            Err(CodegenError::DuplicateEntity(entity))
        } else {
            const_addr(pool, v)
        }
    }

    /// What claiming a local for `entity` answers: the local's place, or why
    /// there is none.
    pub open spec fn add_local_result(self, entity: Option<TCObjKey>) -> Result<
        VirtualAddr,
        CodegenError,
    > {
        match self.add_local_error(entity) {
            Some(e) => Err(e),
            None => Ok(VirtualAddr::Direct(Addr::LocalVar(self.local_alloc))),
        }
    }

    /// Why no local can be claimed for `entity`, if none can: the object is
    /// bound already, or the count of locals would not fit an operand.
    pub open spec fn add_local_error(self, entity: Option<TCObjKey>) -> Option<CodegenError> {
        if entity is Some && self.entities.contains_key(entity->Some_0) {
            Some(CodegenError::DuplicateEntity(entity->Some_0))
        } else if self.local_alloc == i32::MAX {
            Some(CodegenError::OperandOverflow)
        } else {
            None
        }
    }

    /// The next local claimed: bound to `entity` where one is given, and
    /// listed for initialisation where a zero value and kind are given.
    pub open spec fn add_local(
        self,
        entity: Option<TCObjKey>,
        zero_val_type: Option<(GosValue, ValueType)>,
    ) -> FuncState {
        FuncState {
            entities: match entity {
                Some(key) => self.entities.insert(key, Addr::LocalVar(self.local_alloc)),
                None => self.entities,
            },
            local_alloc: (self.local_alloc + 1) as i32,
            local_zeros: match zero_val_type {
                Some((zero, _)) => self.local_zeros.push(zero),
                None => self.local_zeros,
            },
            stack_temp_types: match zero_val_type {
                Some((_, typ)) => self.stack_temp_types.push(typ),
                None => self.stack_temp_types,
            },
            ..self
        }
    }

    /// One local claimed for each of `slots` in turn, up to the first that
    /// cannot be: the state reached, and why it stopped, if it did.
    pub open spec fn add_locals(self, slots: Seq<Option<TCObjKey>>) -> (FuncState, Option<
        CodegenError,
    >)
        decreases slots.len(),
    {
        if slots.len() == 0 {
            (self, None)
        } else {
            let (before, stopped) = self.add_locals(slots.drop_last());
            if stopped is Some {
                (before, stopped)
            } else if before.add_local_error(slots.last()) is Some {
                (before, before.add_local_error(slots.last()))
            } else {
                (before.add_local(slots.last(), None), None)
            }
        }
    }

    /// The place of the captured object `entity`: the slot it has, or the next
    /// free one.
    pub open spec fn upvalue_addr(self, entity: TCObjKey) -> Addr {
        if self.uv_entities.contains_key(entity) {
            self.uv_entities[entity]
        } else {
            Addr::Imm(self.up_ptrs.len() as i32)
        }
    }

    /// What capturing `entity` answers: its place among the captures, or that
    /// no slot is left.
    pub open spec fn add_upvalue_result(self, entity: TCObjKey) -> Result<
        VirtualAddr,
        CodegenError,
    > {
        if self.can_capture(entity) {
            Ok(VirtualAddr::UpValue(self.upvalue_addr(entity)))
        } else {
            Err(CodegenError::OperandOverflow)
        }
    }

    /// Whether `entity` is captured already, or a slot is left for it.
    pub open spec fn can_capture(self, entity: TCObjKey) -> bool {
        self.uv_entities.contains_key(entity) || self.up_ptrs.len() <= i32::MAX
    }

    /// `entity` captured: unchanged where it was captured before or no slot
    /// is left, one capture more otherwise.
    pub open spec fn add_upvalue(self, entity: TCObjKey, uv: ValueDesc) -> FuncState {
        if self.uv_entities.contains_key(entity) || !self.can_capture(entity) {
            self
        } else {
            FuncState {
                up_ptrs: self.up_ptrs.push(uv),
                uv_entities: self.uv_entities.insert(entity, self.upvalue_addr(entity)),
                ..self
            }
        }
    }

    /// Instruction `i` as the machine will decode it. The temporaries start
    /// above the locals claimed, and a label is as far away as it is from the
    /// instruction after this one.
    pub open spec fn runtime_inst(
        self,
        i: int,
        ast_objs: &AstObjects,
        packages: Seq<PackageVal>,
        labels: Map<TCObjKey, usize>,
    ) -> Result<Instruction, CodegenError> {
        self.code[i].spec_into_runtime_inst(self.local_alloc, ast_objs, packages, i, labels)
    }

    /// The first `n` instructions as the machine will decode them, or the
    /// error of the first among them that has none.
    pub open spec fn runtime_prefix(
        self,
        n: nat,
        ast_objs: &AstObjects,
        packages: Seq<PackageVal>,
        labels: Map<TCObjKey, usize>,
    ) -> Result<Seq<Instruction>, CodegenError>
        decreases n,
    {
        if n == 0 {
            Ok(Seq::empty())
        } else {
            match self.runtime_prefix((n - 1) as nat, ast_objs, packages, labels) {
                Ok(done) => match self.runtime_inst(n - 1, ast_objs, packages, labels) {
                    Ok(inst) => Ok(done.push(inst)),
                    Err(e) => Err(e),
                },
                Err(e) => Err(e),
            }
        }
    }

    /// The whole code as the machine will decode it.
    pub open spec fn runtime_code(
        self,
        ast_objs: &AstObjects,
        packages: Seq<PackageVal>,
        labels: Map<TCObjKey, usize>,
    ) -> Result<Seq<Instruction>, CodegenError> {
        self.runtime_prefix(self.code.len(), ast_objs, packages, labels)
    }

    /// Whether `after` is `before` with this builder's function finished:
    /// the function's record has taken the code, the positions, the captures
    /// and the zero values, and has the kinds of the initialised locals added
    /// to those it had; nothing else has changed.
    pub open spec fn finished_in(
        self,
        code: Seq<Instruction>,
        before: &VMObjects,
        after: &VMObjects,
    ) -> bool {
        let k = self.f_key.0 as int;
        &&& after.packages@ == before.packages@
        &&& after.functions@.len() == before.functions@.len()
        &&& forall|j: int|
            0 <= j < before.functions@.len() && j != k ==> after.functions@[j]
                == before.functions@[j]
        &&& after.functions@[k].code@ == code
        &&& after.functions@[k].pos@ == self.pos
        &&& after.functions@[k].up_ptrs@ == self.up_ptrs
        &&& after.functions@[k].local_zeros@ == self.local_zeros
        &&& after.functions@[k].stack_temp_types@ == before.functions@[k].stack_temp_types@
            + self.stack_temp_types
        &&& after.functions@[k].flag == before.functions@[k].flag
    }
}

/// Once an instruction has no number, no longer prefix has any.
pub proof fn lemma_runtime_prefix_fails(
    st: FuncState,
    n: nat,
    m: nat,
    ast_objs: &AstObjects,
    packages: Seq<PackageVal>,
    labels: Map<TCObjKey, usize>,
)
    requires
        n <= m,
        st.runtime_prefix(n, ast_objs, packages, labels) is Err,
    ensures
        st.runtime_prefix(m, ast_objs, packages, labels) == st.runtime_prefix(
            n,
            ast_objs,
            packages,
            labels,
        ),
    decreases m - n,
{
    if n < m {
        lemma_runtime_prefix_fails(st, n, (m - 1) as nat, ast_objs, packages, labels);
    }
}

/// The locals that one entry of a parameter list asks for: one without a name
/// for an anonymous parameter, else one for the object of each name.
pub open spec fn field_slots(field: &Field, t_lookup: &TypeLookup) -> Seq<Option<TCObjKey>> {
    if field.names@.len() == 0 {
        seq![None]
    } else {
        Seq::new(
            field.names@.len(),
            |j: int| Some(t_lookup.spec_object_def(field.names@[j])),
        )
    }
}

/// The locals that a parameter list asks for, in order.
pub open spec fn param_slots(fields: Seq<FieldKey>, o: &AstObjects, t_lookup: &TypeLookup) -> Seq<
    Option<TCObjKey>,
>
    decreases fields.len(),
{
    if fields.len() == 0 {
        Seq::empty()
    } else {
        param_slots(fields.drop_last(), o, t_lookup) + field_slots(
            &o.fields@[fields.last().0 as int],
            t_lookup,
        )
    }
}

/// Every entry of the list is in the field table, and every name in it
/// defines an object.
pub open spec fn params_known(fl: &FieldList, o: &AstObjects, t_lookup: &TypeLookup) -> bool {
    forall|i: int|
        0 <= i < fl.list@.len() ==> {
            &&& (#[trigger] fl.list@[i]).0 < o.fields@.len()
            &&& forall|j: int|
                0 <= j < o.fields@[fl.list@[i].0 as int].names@.len() ==> t_lookup.defines(
                    #[trigger] o.fields@[fl.list@[i].0 as int].names@[j],
                )
        }
}

/// The locals of the first `n` entries come first among the locals of all:
/// answers what follows them.
pub proof fn lemma_param_slots_prefix(
    fields: Seq<FieldKey>,
    n: int,
    o: &AstObjects,
    t_lookup: &TypeLookup,
) -> (rest: Seq<Option<TCObjKey>>)
    requires
        0 <= n <= fields.len(),
    ensures
        param_slots(fields, o, t_lookup) == param_slots(fields.take(n), o, t_lookup) + rest,
    decreases fields.len() - n,
{
    if n == fields.len() {
        assert(fields.take(n) =~= fields);
        let rest = Seq::<Option<TCObjKey>>::empty();
        assert(param_slots(fields, o, t_lookup) =~= param_slots(fields.take(n), o, t_lookup)
            + rest);
        rest
    } else {
        let after = lemma_param_slots_prefix(fields, n + 1, o, t_lookup);
        assert(fields.take(n + 1).drop_last() =~= fields.take(n));
        let here = field_slots(&o.fields@[fields[n].0 as int], t_lookup);
        let rest = here + after;
        assert(param_slots(fields, o, t_lookup) =~= param_slots(fields.take(n), o, t_lookup)
            + rest);
        rest
    }
}

/// Once claiming has stopped, further slots change nothing.
pub proof fn lemma_add_locals_stops(
    st: FuncState,
    done: Seq<Option<TCObjKey>>,
    rest: Seq<Option<TCObjKey>>,
)
    requires
        st.add_locals(done).1 is Some,
    ensures
        st.add_locals(done + rest) == st.add_locals(done),
    decreases rest.len(),
{
    if rest.len() == 0 {
    } else {
        lemma_add_locals_stops(st, done, rest.drop_last());
        assert((done + rest).drop_last() =~= done + rest.drop_last());
    }
}

/// Claiming for one slot more is one step from where the others led.
pub proof fn lemma_add_locals_step(st: FuncState, done: Seq<Option<TCObjKey>>, next: Option<TCObjKey>)
    requires
        st.add_locals(done).1 is None,
    ensures
        st.add_locals(done.push(next)) == if st.add_locals(done).0.add_local_error(next) is Some {
            (st.add_locals(done).0, st.add_locals(done).0.add_local_error(next))
        } else {
            (st.add_locals(done).0.add_local(next, None), None::<CodegenError>)
        },
{
    assert(done.push(next).drop_last() =~= done);
}

/// What interning `v` answers as a place: the constant at its index.
pub open spec fn const_addr(pool: Seq<ConstView>, v: ConstView) -> Result<
    VirtualAddr,
    CodegenError,
> {
    match interned(pool, v) {
        Ok(i) => Ok(VirtualAddr::Direct(Addr::Const(i))),
        Err(e) => Err(e),
    }
}

/// The type slot that tells the machine how a call is made: at once, as a
/// new goroutine, or when the caller returns.
pub open spec fn call_flag(style: CallStyle) -> ValueType {
    match style {
        CallStyle::Default => ValueType::Void,
        CallStyle::Async => ValueType::FlagA,
        CallStyle::Defer => ValueType::FlagB,
    }
}

/// The type slot that tells the machine how a function leaves.
pub open spec fn return_flag(flag: FuncFlag) -> ValueType {
    match flag {
        FuncFlag::Default => ValueType::Void,
        FuncFlag::PkgCtor => ValueType::FlagA,
        FuncFlag::HasDefer => ValueType::FlagB,
    }
}

/// The call instruction with the given flag and first operand. A return is
/// such an instruction too.
pub open spec fn call_inst(flag: ValueType, d: Addr) -> InterInst {
    InterInst { t0: flag, d, ..InterInst::spec_with_op(Opcode::CALL) }
}

/// The first operand of a return: the package that a package constructor
/// hands back, interned, or nothing.
pub open spec fn return_dest(pool: Seq<ConstView>, pkg: Option<PackageKey>) -> Result<
    Addr,
    CodegenError,
> {
    match pkg {
        Some(p) => match interned(pool, ConstView::Package(p)) {
            Ok(i) => Ok(Addr::Const(i)),
            Err(e) => Err(e),
        },
        None => Ok(Addr::Void),
    }
}

/// The pool after a return was emitted.
pub open spec fn return_pool(pool: Seq<ConstView>, pkg: Option<PackageKey>) -> Seq<ConstView> {
    match pkg {
        Some(p) => pool_with(pool, ConstView::Package(p)),
        None => pool,
    }
}

/// Where the trampoline's loop starts: at the instruction that loads the
/// next initialiser.
pub const INIT_LOOP_HEAD: usize = 4;

/// How many instructions the machine skips when there is no next
/// initialiser to load.
pub const INIT_LOOP_SKIP: usize = 3;

/// What runs when a package is imported for the first time: its constructor
/// is loaded into the first temporary and called; then the first temporary
/// counts from zero while each initialiser in turn is loaded into the second
/// and called. The load that finds no initialiser leaves the loop.
pub open spec fn import_trampoline(pkg_addr: Addr, zero_addr: Addr) -> Seq<InterInst> {
    seq![
        InterInst::spec_with_op_index(Opcode::LOAD_PKG, Addr::Register(0), pkg_addr, Addr::Imm(0)),
        InterInst::spec_with_op_index(Opcode::PRE_CALL, Addr::Register(0), Addr::Imm(0), Addr::Imm(0)),
        call_inst(ValueType::Closure, Addr::Void),
        InterInst::spec_with_op_index(Opcode::ASSIGN, Addr::Register(0), zero_addr, Addr::Void),
        InterInst::spec_with_op_index(
            Opcode::LOAD_PKG_INIT_FUNC,
            Addr::Register(1),
            pkg_addr,
            Addr::Register(0),
        ),
        InterInst::spec_with_op_index(Opcode::PRE_CALL, Addr::Register(1), Addr::Imm(0), Addr::Imm(0)),
        call_inst(ValueType::Void, Addr::Void),
        InterInst::spec_with_op_index(Opcode::JUMP, Addr::Imm((-4) as i32), Addr::Void, Addr::Void),
    ]
}

/// The code of an import: a header that carries the trampoline's length, so
/// that the machine can step over it when the package is imported again, and
/// the trampoline.
pub open spec fn import_code(pkg_addr: Addr, zero_addr: Addr) -> Seq<InterInst> {
    let trampoline = import_trampoline(pkg_addr, zero_addr);
    seq![
        InterInst::spec_with_op_index(
            Opcode::IMPORT,
            Addr::Imm(trampoline.len() as i32),
            pkg_addr,
            Addr::Void,
        ),
    ] + trampoline
}

/// The two constants that an import refers to, interned one after the other:
/// the package, and the number zero that its counter starts from.
pub open spec fn import_operands(pool: Seq<ConstView>, pkg: PackageKey) -> Result<
    (Addr, Addr),
    CodegenError,
> {
    match interned(pool, ConstView::Package(pkg)) {
        Ok(p) => match interned(pool_with(pool, ConstView::Package(pkg)), ConstView::Int32(0)) {
            Ok(z) => Ok((Addr::Const(p), Addr::Const(z))),
            Err(e) => Err(e),
        },
        Err(e) => Err(e),
    }
}

/// The pool after an import was emitted.
pub open spec fn import_pool(pool: Seq<ConstView>, pkg: PackageKey) -> Seq<ConstView> {
    pool_with(pool_with(pool, ConstView::Package(pkg)), ConstView::Int32(0))
}

/// The instruction that stores `rhs` to `lhs`. Each kind of place has its own
/// opcode; a place of two parts gives both as the first two operands and the
/// value as the third. There is none for `_` and none for a zero value.
pub open spec fn store_inst(lhs: VirtualAddr, rhs: Addr) -> Option<InterInst> {
    match lhs {
        VirtualAddr::Direct(l) => Some(
            InterInst::spec_with_op_index(Opcode::ASSIGN, l, rhs, Addr::Void),
        ),
        VirtualAddr::UpValue(l) => Some(
            InterInst::spec_with_op_index(Opcode::STORE_UP_VALUE, l, rhs, Addr::Void),
        ),
        VirtualAddr::SliceEntry(s, i) => Some(
            InterInst::spec_with_op_index(Opcode::STORE_SLICE, s, i, rhs),
        ),
        VirtualAddr::ArrayEntry(a, i) => Some(
            InterInst::spec_with_op_index(Opcode::STORE_ARRAY, a, i, rhs),
        ),
        VirtualAddr::MapEntry(m, k) => Some(
            InterInst::spec_with_op_index(Opcode::STORE_MAP, m, k, rhs),
        ),
        VirtualAddr::StructMember(s, i) => Some(
            InterInst::spec_with_op_index(Opcode::STORE_STRUCT, s, i, rhs),
        ),
        VirtualAddr::StructEmbedded(s, i) => Some(
            InterInst::spec_with_op_index(Opcode::STORE_STRUCT_EMBEDDED, s, i, rhs),
        ),
        VirtualAddr::PackageMember(p, i) => Some(
            InterInst::spec_with_op_index(Opcode::STORE_PKG, p, i, rhs),
        ),
        VirtualAddr::Pointee(p) => Some(
            InterInst::spec_with_op_index(Opcode::STORE_POINTER, p, rhs, Addr::Void),
        ),
        VirtualAddr::Blank => None,
        VirtualAddr::ZeroValue => None,
    }
}

} // verus!
