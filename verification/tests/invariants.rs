use gos_codegen::addr::{Addr, VirtualAddr};
use gos_codegen::consts::Consts;
use gos_codegen::context::{CallStyle, FuncCtx};
use gos_codegen::error::CodegenError;
use gos_codegen::expr::{ExprCtx, ExprMode};
use gos_codegen::inst::InterInst;
use gos_codegen::keys::{FunctionKey, PackageKey, TCObjKey};
use gos_codegen::objects::{AstObjects, FunctionVal, VMObjects};
use gos_codegen::objmap::ObjMap;
use gos_codegen::value::{FuncFlag, GosValue, Opcode, ValueDesc, ValueType};

fn machine_with_one_function() -> VMObjects {
    let mut vmo = VMObjects::new();
    vmo.functions.push(FunctionVal::new(FuncFlag::Default));
    vmo
}

fn decode(v: i32, local_count: i32) -> Addr {
    if v < 0 {
        Addr::Const(-v - 1)
    } else if v < local_count {
        Addr::LocalVar(v)
    } else {
        Addr::Register(v - local_count)
    }
}

#[test]
fn one_position_for_each_instruction() {
    let mut consts = Consts::new();
    let mut ctx = FuncCtx::new(FunctionKey(0), None);
    ctx.emit_jump(1, Some(1));
    ctx.emit_call(CallStyle::Defer, None);
    ctx.emit_assign(VirtualAddr::Blank, Addr::Const(0), Some(2)).unwrap();
    ctx.emit_closure(Addr::Register(0), Addr::Const(0), Some(3));
    ctx.emit_pre_call(Addr::Register(0), 1, 2, Some(4));
    ctx.emit_import(&mut consts, PackageKey(0), Some(5)).unwrap();
    ctx.emit_load_pkg(Addr::Register(1), Addr::Const(0), Addr::Imm(3), None);
    let emitted = ctx.next_code_index();
    assert_eq!(emitted, 4 + 9 + 1);

    let mut vmo = machine_with_one_function();
    ctx.into_runtime_func(&AstObjects::new(), &mut vmo, &ObjMap::new()).unwrap();
    let func = &vmo.functions[0];
    assert_eq!(func.code.len(), emitted);
    assert_eq!(func.pos.len(), emitted);
    assert_eq!(func.pos[0], Some(1));
    assert_eq!(func.pos[1], None);
    assert_eq!(func.pos[2], Some(3));
    assert_eq!(func.pos[4], Some(5));
    assert_eq!(func.pos[13], None);
}

#[test]
fn temporaries_stay_below_the_count_asked_for() {
    let mut ctx = FuncCtx::new(FunctionKey(0), None);
    ctx.add_local(None, None).unwrap();
    ctx.add_local(None, None).unwrap();
    let mut expr = ExprCtx::new(0, ExprMode::Load);
    let (first, _) = expr.get_dest().unwrap();
    let second = expr.alloc_reg().unwrap();
    let third = expr.alloc_reg().unwrap();
    ctx.emit_closure(first, second, None);
    ctx.emit_load_pkg(third, first, second, None);
    ctx.update_max_reg(expr.cur_reg);
    let max = ctx.max_reg_num();
    assert_eq!(max, 3);

    let mut vmo = machine_with_one_function();
    ctx.into_runtime_func(&AstObjects::new(), &mut vmo, &ObjMap::new()).unwrap();
    for inst in vmo.functions[0].code.iter() {
        for v in [inst.d, inst.s0, inst.s1] {
            if let Addr::Register(i) = decode(v, 2) {
                assert!(i < max);
            }
        }
    }
    assert_eq!(vmo.functions[0].code[1].d, 2 + 2);
}

#[test]
fn the_count_of_temporaries_only_rises() {
    let mut ctx = FuncCtx::new(FunctionKey(0), None);
    assert_eq!(ctx.max_reg_num(), 0);
    ctx.update_max_reg(4);
    assert_eq!(ctx.max_reg_num(), 4);
    ctx.update_max_reg(2);
    assert_eq!(ctx.max_reg_num(), 4);
    ctx.update_max_reg(-1);
    assert_eq!(ctx.max_reg_num(), 4);
    ctx.update_max_reg(4);
    assert_eq!(ctx.max_reg_num(), 4);
    ctx.update_max_reg(5);
    assert_eq!(ctx.max_reg_num(), 5);
}

#[test]
fn a_named_constant_is_bound_once() {
    let mut consts = Consts::new();
    let mut ctx = FuncCtx::new(FunctionKey(0), None);
    let obj = TCObjKey(3);
    let first = ctx.add_const_var(&mut consts, obj, GosValue::Int(7)).unwrap();
    assert_eq!(first, VirtualAddr::Direct(Addr::Const(0)));
    assert_eq!(ctx.entity_index(&obj), Some(&Addr::Const(0)));

    let again = ctx.add_const_var(&mut consts, obj, GosValue::Int(7));
    assert_eq!(again, Err(CodegenError::DuplicateEntity(obj)));
    let other = ctx.add_const_var(&mut consts, obj, GosValue::Bool(true));
    assert_eq!(other, Err(CodegenError::DuplicateEntity(obj)));
    // the refused constant was not interned, and the binding stands
    assert_eq!(consts.len(), 1);
    assert_eq!(ctx.entity_index(&obj), Some(&Addr::Const(0)));

    // another object may be bound to the same constant
    let shared = ctx.add_const_var(&mut consts, TCObjKey(4), GosValue::Int(7)).unwrap();
    assert_eq!(shared, VirtualAddr::Direct(Addr::Const(0)));
    assert_eq!(consts.len(), 1);
}

#[test]
fn a_captured_object_has_one_slot() {
    let mut ctx = FuncCtx::new(FunctionKey(0), None);
    let desc = |index: i32| ValueDesc {
        func: FunctionKey(1),
        index,
        typ: ValueType::Int,
        is_up_value: false,
    };
    let a = TCObjKey(20);
    let b = TCObjKey(21);
    let first = ctx.add_upvalue(&a, desc(0)).unwrap();
    assert_eq!(first, VirtualAddr::UpValue(Addr::Imm(0)));
    for n in 1..4 {
        assert_eq!(ctx.add_upvalue(&a, desc(n)).unwrap(), first);
    }
    assert_eq!(ctx.add_upvalue(&b, desc(9)).unwrap(), VirtualAddr::UpValue(Addr::Imm(1)));
    assert_eq!(ctx.add_upvalue(&a, desc(5)).unwrap(), first);

    let mut vmo = machine_with_one_function();
    ctx.into_runtime_func(&AstObjects::new(), &mut vmo, &ObjMap::new()).unwrap();
    assert_eq!(vmo.functions[0].up_ptrs, vec![desc(0), desc(9)]);
}

#[test]
fn finished_operands_decode_as_what_they_were() {
    let mut ctx = FuncCtx::new(FunctionKey(0), None);
    let locals: i32 = 3;
    for _ in 0..locals {
        ctx.add_local(None, None).unwrap();
    }
    let operands = [
        Addr::Const(0),
        Addr::Const(1),
        Addr::Const(i32::MAX),
        Addr::LocalVar(0),
        Addr::LocalVar(2),
        Addr::Register(0),
        Addr::Register(1),
        Addr::Register(i32::MAX - 3),
    ];
    for &d in operands.iter() {
        for &s in operands.iter() {
            ctx.emit_load_pkg(d, s, d, None);
        }
    }
    let mut vmo = machine_with_one_function();
    ctx.into_runtime_func(&AstObjects::new(), &mut vmo, &ObjMap::new()).unwrap();
    let code = &vmo.functions[0].code;
    assert_eq!(code.len(), operands.len() * operands.len());
    let mut at = 0;
    for &d in operands.iter() {
        for &s in operands.iter() {
            assert_eq!(decode(code[at].d, locals), d);
            assert_eq!(decode(code[at].s0, locals), s);
            assert_eq!(decode(code[at].s1, locals), d);
            assert_eq!(code[at].d < 0, matches!(d, Addr::Const(_)));
            assert_eq!(0 <= code[at].d && code[at].d < locals, matches!(d, Addr::LocalVar(_)));
            assert_eq!(code[at].d >= locals, matches!(d, Addr::Register(_)));
            at += 1;
        }
    }
}

#[test]
fn label_distance_counts_from_the_next_instruction() {
    let targets: [usize; 5] = [0, 3, 4, 5, 12];
    let mut ctx = FuncCtx::new(FunctionKey(0), None);
    let mut labels = ObjMap::new();
    for (n, &target) in targets.iter().enumerate() {
        let key = TCObjKey(100 + n as u64);
        labels.insert(key, target);
        ctx.push_inst_pos(
            InterInst::with_op_index(Opcode::JUMP, Addr::Label(key), Addr::Void, Addr::Void),
            None,
        );
        ctx.emit_call(CallStyle::Default, None);
    }
    let mut vmo = machine_with_one_function();
    ctx.into_runtime_func(&AstObjects::new(), &mut vmo, &labels).unwrap();
    for (n, &target) in targets.iter().enumerate() {
        let at = 2 * n;
        assert_eq!(vmo.functions[0].code[at].d as i64, target as i64 - at as i64 - 1);
    }
    // a jump to itself goes one back, a jump to the next instruction goes nowhere
    assert_eq!(vmo.functions[0].code[0].d, -1);
    assert_eq!(vmo.functions[0].code[2].d, 0);
    assert_eq!(vmo.functions[0].code[4].d, -1);
    assert_eq!(vmo.functions[0].code[8].d, 3);
}

#[test]
fn store_to_blank_emits_nothing() {
    let mut ctx = FuncCtx::new(FunctionKey(0), None);
    ctx.emit_jump(0, None);
    for rhs in [Addr::Const(0), Addr::Register(7), Addr::Void, Addr::Label(TCObjKey(1))] {
        assert_eq!(ctx.emit_assign(VirtualAddr::Blank, rhs, Some(9)), Ok(()));
        assert_eq!(ctx.next_code_index(), 1);
    }
    let mut vmo = machine_with_one_function();
    ctx.into_runtime_func(&AstObjects::new(), &mut vmo, &ObjMap::new()).unwrap();
    assert_eq!(vmo.functions[0].code.len(), 1);
    assert_eq!(vmo.functions[0].pos, vec![None]);
}
