//! What holds of the builder as a whole, proved from what its steps are.

use vstd::prelude::*;
use crate::addr::{Addr, VirtualAddr};
use crate::error::CodegenError;
use crate::inst::InterInst;
use crate::keys::{FunctionKey, TCObjKey, TCTypeKey};
use crate::objects::{AstObjects, PackageVal};
use crate::state::{
    import_code, import_trampoline, store_inst, FuncState, INIT_LOOP_HEAD, INIT_LOOP_SKIP,
};
use crate::value::{ConstView, GosValue, Instruction, OpIndex, Opcode, ValueDesc, ValueType};

verus! {

// ----- instructions and positions ------------------------------------------

/// A builder that has done nothing is well formed.
pub proof fn law_init_wf(f_key: FunctionKey, tc_key: Option<TCTypeKey>)
    ensures
        FuncState::init(f_key, tc_key).wf(),
{
}

/// Whatever is emitted, there is one position for each instruction: a well
/// formed builder has as many of one as of the other, and emitting one
/// instruction or several keeps it well formed.
pub proof fn law_code_and_positions_in_step(
    st: FuncState,
    inst: InterInst,
    insts: Seq<InterInst>,
    pos: Option<usize>,
)
    requires
        st.wf(),
    ensures
        st.code.len() == st.pos.len(),
        st.push_inst_pos(inst, pos).wf(),
        st.push_all(insts, pos).wf(),
        st.push_all(insts, pos).code.len() == st.code.len() + insts.len(),
{
}

/// Changing an instruction in place keeps the builder well formed.
pub proof fn law_patch_keeps_wf(st: FuncState, i: int, inst: InterInst)
    requires
        st.wf(),
        0 <= i < st.code.len(),
    ensures
        (FuncState { code: st.code.update(i, inst), ..st }).wf(),
{
}

// ----- growth --------------------------------------------------------------

/// Whether `after` still holds all that `before` held: what was emitted,
/// claimed, captured and bound is there, in its place, and the counts have
/// not fallen.
pub open spec fn grown_from(after: FuncState, before: FuncState) -> bool {
    &&& after.f_key == before.f_key
    &&& after.tc_key == before.tc_key
    &&& before.max_reg_num <= after.max_reg_num
    &&& before.local_alloc <= after.local_alloc
    &&& before.code.is_prefix_of(after.code)
    &&& before.pos.is_prefix_of(after.pos)
    &&& before.up_ptrs.is_prefix_of(after.up_ptrs)
    &&& before.local_zeros.is_prefix_of(after.local_zeros)
    &&& before.stack_temp_types.is_prefix_of(after.stack_temp_types)
    &&& before.entities.submap_of(after.entities)
    &&& before.uv_entities.submap_of(after.uv_entities)
}

/// A builder only grows: whatever is emitted, claimed, captured or bound,
/// nothing that was there is lost or moved.
pub proof fn law_steps_only_grow(
    st: FuncState,
    inst: InterInst,
    insts: Seq<InterInst>,
    pos: Option<usize>,
    max: OpIndex,
    entity: TCObjKey,
    addr: Addr,
    local: Option<TCObjKey>,
    zero_val_type: Option<(GosValue, ValueType)>,
    uv: ValueDesc,
)
    requires
        st.wf(),
    ensures
        grown_from(st.push_inst_pos(inst, pos), st),
        grown_from(st.push_all(insts, pos), st),
        grown_from(st.update_max_reg(max), st),
        !st.entities.contains_key(entity) ==> grown_from(st.bind(entity, addr), st),
        st.add_local_error(local) is None ==> grown_from(st.add_local(local, zero_val_type), st),
        grown_from(st.add_upvalue(entity, uv), st),
{
}

proof fn lemma_prefix_of_prefix<T>(a: Seq<T>, b: Seq<T>, c: Seq<T>)
    requires
        a.is_prefix_of(b),
        b.is_prefix_of(c),
    ensures
        a.is_prefix_of(c),
{
    assert(a =~= c.subrange(0, a.len() as int));
}

/// Growth adds up.
pub proof fn law_growth_adds_up(first: FuncState, second: FuncState, third: FuncState)
    requires
        grown_from(second, first),
        grown_from(third, second),
    ensures
        grown_from(third, first),
{
    lemma_prefix_of_prefix(first.code, second.code, third.code);
    lemma_prefix_of_prefix(first.pos, second.pos, third.pos);
    lemma_prefix_of_prefix(first.up_ptrs, second.up_ptrs, third.up_ptrs);
    lemma_prefix_of_prefix(first.local_zeros, second.local_zeros, third.local_zeros);
    lemma_prefix_of_prefix(
        first.stack_temp_types,
        second.stack_temp_types,
        third.stack_temp_types,
    );
    assert forall|k: TCObjKey| #[trigger]
        first.entities.dom().contains(k) implies #[trigger] third.entities.dom().contains(k)
        && first.entities[k] == third.entities[k] by {
        assert(second.entities.dom().contains(k));
    }
    assert forall|k: TCObjKey| #[trigger]
        first.uv_entities.dom().contains(k) implies #[trigger] third.uv_entities.dom().contains(k)
        && first.uv_entities[k] == third.uv_entities[k] by {
        assert(second.uv_entities.dom().contains(k));
    }
}

// ----- temporaries ---------------------------------------------------------

/// Whether `a` is no temporary, or one below `bound`.
pub open spec fn addr_below(a: Addr, bound: int) -> bool {
    a is Register ==> a->Register_0 < bound
}

/// Whether every temporary among the operands of `inst` is below `bound`.
pub open spec fn inst_below(inst: InterInst, bound: int) -> bool {
    addr_below(inst.d, bound) && addr_below(inst.s0, bound) && addr_below(inst.s1, bound)
}

/// Whether every temporary in the code is below the count of temporaries
/// that the builder asks the frame for.
pub open spec fn registers_covered(st: FuncState) -> bool {
    forall|i: int| 0 <= i < st.code.len() ==> inst_below(#[trigger] st.code[i], st.max_reg_num as int)
}

/// The count of temporaries never falls, and reaches what it is raised to.
pub proof fn law_max_reg_rises(st: FuncState, max: OpIndex)
    ensures
        st.update_max_reg(max).max_reg_num >= st.max_reg_num,
        st.update_max_reg(max).max_reg_num >= max,
        st.update_max_reg(max).max_reg_num == st.max_reg_num || st.update_max_reg(max).max_reg_num
            == max,
{
}

/// A temporary handed out by an expression is covered once the count is
/// raised to the expression's next free temporary.
pub proof fn law_allocated_register_covered(st: FuncState, cur_reg: OpIndex)
    requires
        cur_reg < i32::MAX,
    ensures
        addr_below(
            Addr::Register(cur_reg),
            st.update_max_reg((cur_reg + 1) as i32).max_reg_num as int,
        ),
{
}

/// Where the code's temporaries are covered, they stay covered when an
/// instruction is emitted and the count is raised above the temporaries of
/// that instruction.
pub proof fn law_registers_stay_covered(
    st: FuncState,
    inst: InterInst,
    pos: Option<usize>,
    max: OpIndex,
)
    requires
        registers_covered(st),
        inst_below(inst, max as int),
    ensures
        registers_covered(st.push_inst_pos(inst, pos).update_max_reg(max)),
        registers_covered(st.update_max_reg(max)),
{
}

/// An import covers the temporaries that it uses itself.
pub proof fn law_import_covers_registers(
    st: FuncState,
    pkg_addr: Addr,
    zero_addr: Addr,
    pos: Option<usize>,
)
    requires
        registers_covered(st),
        !(pkg_addr is Register),
        !(zero_addr is Register),
    ensures
        registers_covered(st.push_all(import_code(pkg_addr, zero_addr), pos).update_max_reg(2)),
        st.push_all(import_code(pkg_addr, zero_addr), pos).update_max_reg(2).max_reg_num >= 2,
{
}

// ----- the trampoline ------------------------------------------------------

/// The header of an import carries the length of what follows it. The jump
/// that ends the trampoline leads back to the load of the next initialiser,
/// and the instructions that this load skips when there is none are exactly
/// those up to the trampoline's end.
pub proof fn law_trampoline_closed(pkg_addr: Addr, zero_addr: Addr)
    ensures
        import_code(pkg_addr, zero_addr).len() == 9,
        import_code(pkg_addr, zero_addr)[0].op0 == Opcode::IMPORT,
        import_code(pkg_addr, zero_addr)[0].d == Addr::Imm(
            import_trampoline(pkg_addr, zero_addr).len() as i32,
        ),
        import_code(pkg_addr, zero_addr).subrange(1, 9) == import_trampoline(pkg_addr, zero_addr),
        import_trampoline(pkg_addr, zero_addr)[INIT_LOOP_HEAD as int].op0
            == Opcode::LOAD_PKG_INIT_FUNC,
        import_trampoline(pkg_addr, zero_addr).last().op0 == Opcode::JUMP,
        import_trampoline(pkg_addr, zero_addr).last().d is Imm,
        (import_trampoline(pkg_addr, zero_addr).len() - 1) + 1 + import_trampoline(
            pkg_addr,
            zero_addr,
        ).last().d->Imm_0 == INIT_LOOP_HEAD,
        INIT_LOOP_HEAD + 1 + INIT_LOOP_SKIP == import_trampoline(pkg_addr, zero_addr).len(),
{
    assert(import_code(pkg_addr, zero_addr).subrange(1, 9) =~= import_trampoline(
        pkg_addr,
        zero_addr,
    ));
}

// ----- bindings ------------------------------------------------------------

/// A named constant is bound once: after a binding that succeeded, every
/// further one of the same object fails, whatever the constant and the pool.
pub proof fn law_const_var_bound_once(
    st: FuncState,
    pool: Seq<ConstView>,
    entity: TCObjKey,
    v: ConstView,
    later_pool: Seq<ConstView>,
    later_v: ConstView,
)
    requires
        st.add_const_var_result(pool, entity, v) is Ok,
    ensures
        st.add_const_var_result(pool, entity, v)->Ok_0 is Direct,
        st.bind(
            entity,
            st.add_const_var_result(pool, entity, v)->Ok_0->Direct_0,
        ).add_const_var_result(later_pool, entity, later_v) == Err::<VirtualAddr, CodegenError>(
            CodegenError::DuplicateEntity(entity),
        ),
{
}

/// The state after `entity` was captured once for each of `descs` in turn.
pub open spec fn capture_each(st: FuncState, entity: TCObjKey, descs: Seq<ValueDesc>) -> FuncState
    decreases descs.len(),
{
    if descs.len() == 0 {
        st
    } else {
        capture_each(st, entity, descs.drop_last()).add_upvalue(entity, descs.last())
    }
}

/// Capturing an object again changes nothing: however often it is captured,
/// the builder is as after the first time, so at most one capture was
/// appended, and each time the answer is the one given the first time.
pub proof fn law_upvalue_captured_once(
    st: FuncState,
    entity: TCObjKey,
    descs: Seq<ValueDesc>,
)
    requires
        st.wf(),
        descs.len() >= 1,
    ensures
        capture_each(st, entity, descs) == st.add_upvalue(entity, descs[0]),
        capture_each(st, entity, descs).add_upvalue_result(entity) == st.add_upvalue_result(
            entity,
        ),
        capture_each(st, entity, descs).up_ptrs.len() <= st.up_ptrs.len() + 1,
        st.add_upvalue_result(entity) is Ok ==> {
            &&& st.add_upvalue_result(entity)->Ok_0 is UpValue
            &&& st.add_upvalue_result(entity)->Ok_0->UpValue_0 is Imm
            &&& capture_each(st, entity, descs).uv_entities.contains_key(entity)
            &&& capture_each(st, entity, descs).up_ptrs.len() == st.up_ptrs.len() + if st.uv_entities.contains_key(
                entity,
            ) {
                0int
            } else {
                1int
            }
        },
    decreases descs.len(),
{
    if descs.len() == 1 {
        assert(capture_each(st, entity, descs.drop_last()) == st);
    } else {
        law_upvalue_captured_once(st, entity, descs.drop_last());
        assert(descs.drop_last()[0] == descs[0]);
    }
}

// ----- stores --------------------------------------------------------------

/// There is no instruction for a store to `_`, so emitting one leaves the
/// code as it is; for every place but `_` and a zero value there is one.
pub proof fn law_blank_store_elided(lhs: VirtualAddr, rhs: Addr)
    ensures
        store_inst(VirtualAddr::Blank, rhs) is None,
        store_inst(lhs, rhs) is None <==> (lhs is Blank || lhs is ZeroValue),
{
}

// ----- finished code -------------------------------------------------------

/// Finished code has one instruction for each instruction emitted, and each
/// is its own instruction made final.
pub proof fn law_finished_code_pointwise(
    st: FuncState,
    ast_objs: &AstObjects,
    packages: Seq<PackageVal>,
    labels: Map<TCObjKey, usize>,
    n: nat,
)
    requires
        st.runtime_prefix(n, ast_objs, packages, labels) is Ok,
    ensures
        st.runtime_prefix(n, ast_objs, packages, labels)->Ok_0.len() == n,
        forall|i: int|
            0 <= i < n ==> #[trigger] st.runtime_inst(i, ast_objs, packages, labels) == Ok::<
                Instruction,
                CodegenError,
            >(st.runtime_prefix(n, ast_objs, packages, labels)->Ok_0[i]),
    decreases n,
{
    if n > 0 {
        law_finished_code_pointwise(st, ast_objs, packages, labels, (n - 1) as nat);
    }
}

/// The code can be finished exactly when each instruction can be made
/// final.
pub proof fn law_finishes_iff_each_does(
    st: FuncState,
    ast_objs: &AstObjects,
    packages: Seq<PackageVal>,
    labels: Map<TCObjKey, usize>,
)
    ensures
        st.runtime_code(ast_objs, packages, labels) is Ok <==> forall|i: int|
            0 <= i < st.code.len() ==> #[trigger] st.runtime_inst(
                i,
                ast_objs,
                packages,
                labels,
            ) is Ok,
{
    if st.runtime_code(ast_objs, packages, labels) is Ok {
        law_finished_code_pointwise(st, ast_objs, packages, labels, st.code.len());
    } else {
        law_finished_code_first_error(st, ast_objs, packages, labels, st.code.len());
    }
}

/// Where the code cannot be finished, the error is that of the first
/// instruction that cannot be made final.
pub proof fn law_finished_code_first_error(
    st: FuncState,
    ast_objs: &AstObjects,
    packages: Seq<PackageVal>,
    labels: Map<TCObjKey, usize>,
    n: nat,
) -> (at: int)
    requires
        st.runtime_prefix(n, ast_objs, packages, labels) is Err,
    ensures
        0 <= at < n,
        st.runtime_inst(at, ast_objs, packages, labels) == Err::<Instruction, CodegenError>(
            st.runtime_prefix(n, ast_objs, packages, labels)->Err_0,
        ),
        forall|i: int| 0 <= i < at ==> #[trigger] st.runtime_inst(i, ast_objs, packages, labels) is Ok,
    decreases n,
{
    if st.runtime_prefix((n - 1) as nat, ast_objs, packages, labels) is Err {
        law_finished_code_first_error(st, ast_objs, packages, labels, (n - 1) as nat)
    } else {
        law_finished_code_pointwise(st, ast_objs, packages, labels, (n - 1) as nat);
        n - 1
    }
}

/// Whether `a` names a constant, a local of a frame with `local_count`
/// locals, or a temporary.
pub open spec fn is_frame_operand(a: Addr, local_count: OpIndex) -> bool {
    match a {
        Addr::Const(i) => 0 <= i,
        Addr::LocalVar(i) => 0 <= i < local_count,
        Addr::Register(i) => 0 <= i,
        _ => false,
    }
}

/// What the machine takes a number to name in a frame with `local_count`
/// locals: below zero a constant, below the count of locals a local, from
/// there upwards a temporary.
pub open spec fn decode_operand(v: OpIndex, local_count: OpIndex) -> Addr {
    if v < 0 {
        Addr::Const((-v - 1) as i32)
    } else if v < local_count {
        Addr::LocalVar(v)
    } else {
        Addr::Register((v - local_count) as i32)
    }
}

/// A constant, a local or a temporary is decoded as what it was: its number
/// is negative exactly for a constant, below the count of locals exactly for
/// a local, and at or above it exactly for a temporary.
pub proof fn law_operand_round_trip(
    a: Addr,
    local_count: OpIndex,
    ast_objs: &AstObjects,
    packages: Seq<PackageVal>,
    inst_index: int,
    labels: Map<TCObjKey, usize>,
)
    requires
        0 <= local_count,
        is_frame_operand(a, local_count),
        a.spec_into_index(local_count, ast_objs, packages, inst_index, labels) is Ok,
    ensures
        ({
            let v = a.spec_into_index(local_count, ast_objs, packages, inst_index, labels)->Ok_0;
            &&& decode_operand(v, local_count) == a
            &&& v < 0 <==> a is Const
            &&& 0 <= v < local_count <==> a is LocalVar
            &&& v >= local_count <==> a is Register
        }),
{
}

/// In finished code every operand that was a constant, a local or a
/// temporary is decoded as what it was.
pub proof fn law_finished_operands_decode(
    st: FuncState,
    ast_objs: &AstObjects,
    packages: Seq<PackageVal>,
    labels: Map<TCObjKey, usize>,
    i: int,
)
    requires
        st.wf(),
        st.runtime_code(ast_objs, packages, labels) is Ok,
        0 <= i < st.code.len(),
    ensures
        ({
            let done = st.runtime_code(ast_objs, packages, labels)->Ok_0[i];
            &&& is_frame_operand(st.code[i].d, st.local_alloc) ==> decode_operand(
                done.d,
                st.local_alloc,
            ) == st.code[i].d
            &&& is_frame_operand(st.code[i].s0, st.local_alloc) ==> decode_operand(
                done.s0,
                st.local_alloc,
            ) == st.code[i].s0
            &&& is_frame_operand(st.code[i].s1, st.local_alloc) ==> decode_operand(
                done.s1,
                st.local_alloc,
            ) == st.code[i].s1
        }),
{
    law_finished_code_pointwise(st, ast_objs, packages, labels, st.code.len());
    assert(st.runtime_inst(i, ast_objs, packages, labels) is Ok);
}

/// In finished code a jump to a label carries the distance from the
/// instruction after the jump to the labelled instruction.
pub proof fn law_label_offset(
    st: FuncState,
    ast_objs: &AstObjects,
    packages: Seq<PackageVal>,
    labels: Map<TCObjKey, usize>,
    i: int,
    label: TCObjKey,
)
    requires
        st.runtime_code(ast_objs, packages, labels) is Ok,
        0 <= i < st.code.len(),
        st.code[i].d == Addr::Label(label),
    ensures
        labels.contains_key(label),
        st.runtime_code(ast_objs, packages, labels)->Ok_0[i].d == labels[label] - i - 1,
{
    law_finished_code_pointwise(st, ast_objs, packages, labels, st.code.len());
    assert(st.runtime_inst(i, ast_objs, packages, labels) is Ok);
}

} // verus!
