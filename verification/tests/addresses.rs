use gos_codegen::addr::{narrow, Addr, VirtualAddr};
use gos_codegen::error::CodegenError;
use gos_codegen::expr::{ExprCtx, ExprMode};
use gos_codegen::inst::{slot, InterInst};
use gos_codegen::keys::{IdentKey, PackageKey, TCObjKey};
use gos_codegen::objects::{AstObjects, Ident, PackageVal};
use gos_codegen::objmap::ObjMap;
use gos_codegen::value::{AuxOp, Instruction, Opcode, ValueType};

fn resolve(a: Addr, reg_base: i32, at: usize, labels: &ObjMap<usize>) -> Result<i32, CodegenError> {
    a.into_index(reg_base, &AstObjects::new(), &Vec::new(), at, labels)
}

#[test]
fn constants_resolve_below_zero() {
    let labels = ObjMap::new();
    assert_eq!(resolve(Addr::Const(0), 5, 0, &labels), Ok(-1));
    assert_eq!(resolve(Addr::Const(1), 5, 0, &labels), Ok(-2));
    assert_eq!(resolve(Addr::Const(41), 0, 9, &labels), Ok(-42));
    assert_eq!(resolve(Addr::Const(i32::MAX), 0, 0, &labels), Ok(i32::MIN));
    assert_eq!(resolve(Addr::Const(i32::MIN), 0, 0, &labels), Ok(i32::MAX));
}

#[test]
fn locals_and_literals_resolve_to_themselves() {
    let labels = ObjMap::new();
    assert_eq!(resolve(Addr::LocalVar(0), 5, 0, &labels), Ok(0));
    assert_eq!(resolve(Addr::LocalVar(4), 5, 3, &labels), Ok(4));
    assert_eq!(resolve(Addr::Imm(-7), 5, 3, &labels), Ok(-7));
    assert_eq!(resolve(Addr::Imm(i32::MAX), 5, 3, &labels), Ok(i32::MAX));
}

#[test]
fn temporaries_resolve_above_the_locals() {
    let labels = ObjMap::new();
    assert_eq!(resolve(Addr::Register(0), 5, 0, &labels), Ok(5));
    assert_eq!(resolve(Addr::Register(3), 5, 0, &labels), Ok(8));
    assert_eq!(resolve(Addr::Register(0), 0, 0, &labels), Ok(0));
    assert_eq!(resolve(Addr::Register(i32::MAX - 5), 5, 0, &labels), Ok(i32::MAX));
}

#[test]
fn temporary_out_of_range_is_an_overflow() {
    let labels = ObjMap::new();
    assert_eq!(
        resolve(Addr::Register(i32::MAX - 4), 5, 0, &labels),
        Err(CodegenError::OperandOverflow)
    );
    assert_eq!(
        resolve(Addr::Register(i32::MAX), i32::MAX, 0, &labels),
        Err(CodegenError::OperandOverflow)
    );
}

#[test]
fn labels_resolve_relative_to_the_next_instruction() {
    let key = TCObjKey(1);
    let mut labels = ObjMap::new();
    labels.insert(key, 7usize);
    assert_eq!(resolve(Addr::Label(key), 2, 3, &labels), Ok(3));
    assert_eq!(resolve(Addr::Label(key), 2, 6, &labels), Ok(0));
    assert_eq!(resolve(Addr::Label(key), 2, 7, &labels), Ok(-1));
    assert_eq!(resolve(Addr::Label(key), 2, 10, &labels), Ok(-4));
    // the table answers with the position given last
    assert_eq!(labels.insert(key, 0usize), Some(7));
    assert_eq!(resolve(Addr::Label(key), 2, 3, &labels), Ok(-4));
}

#[test]
fn label_too_far_is_an_overflow() {
    let key = TCObjKey(1);
    let mut labels = ObjMap::new();
    labels.insert(key, i32::MAX as usize + 1);
    assert_eq!(resolve(Addr::Label(key), 0, 0, &labels), Ok(i32::MAX));
    labels.insert(key, i32::MAX as usize + 2);
    assert_eq!(resolve(Addr::Label(key), 0, 0, &labels), Err(CodegenError::OperandOverflow));
    labels.insert(key, 0usize);
    assert_eq!(resolve(Addr::Label(key), 0, i32::MAX as usize, &labels), Ok(i32::MIN));
    assert_eq!(
        resolve(Addr::Label(key), 0, i32::MAX as usize + 1, &labels),
        Err(CodegenError::OperandOverflow)
    );
}

#[test]
fn label_never_placed_is_missing() {
    let mut labels = ObjMap::new();
    labels.insert(TCObjKey(1), 7usize);
    assert!(labels.contains_key(TCObjKey(1)));
    assert!(!labels.contains_key(TCObjKey(2)));
    assert_eq!(labels.get(TCObjKey(2)), None);
    assert_eq!(
        resolve(Addr::Label(TCObjKey(2)), 0, 0, &labels),
        Err(CodegenError::MissingLabel(TCObjKey(2)))
    );
}

#[test]
fn unused_operand_has_no_index_of_its_own() {
    let labels = ObjMap::new();
    assert_eq!(resolve(Addr::Void, 0, 0, &labels), Err(CodegenError::UnresolvedAddr));
    // in an instruction the unused slot is written as zero
    assert_eq!(slot(Addr::Void, 3, &AstObjects::new(), &Vec::new(), 0, &labels), Ok(0));
    assert_eq!(slot(Addr::Register(1), 3, &AstObjects::new(), &Vec::new(), 0, &labels), Ok(4));
}

#[test]
fn package_member_is_looked_up_by_name() {
    let mut asto = AstObjects::new();
    asto.idents.push(Ident { name: "Println".to_string() });
    asto.idents.push(Ident { name: "Sprintf".to_string() });
    asto.idents.push(Ident { name: "hidden".to_string() });
    let mut fmt = PackageVal::new();
    fmt.add_member("Sprintf".to_string(), 0);
    fmt.add_member("Println".to_string(), 4);
    assert_eq!(fmt.get_member_index("Println"), Some(&4));
    assert_eq!(fmt.get_member_index("hidden"), None);
    let packages = vec![PackageVal::new(), fmt];
    let labels = ObjMap::new();
    let lookup = |pkg: usize, ident: usize| {
        Addr::PkgMemberIndex(PackageKey(pkg), IdentKey(ident)).into_index(
            9,
            &asto,
            &packages,
            0,
            &labels,
        )
    };
    assert_eq!(lookup(1, 0), Ok(4));
    assert_eq!(lookup(1, 1), Ok(0));
    let missing = |pkg: usize, ident: usize| {
        Err(CodegenError::MissingPackageMember(PackageKey(pkg), IdentKey(ident)))
    };
    // the name is not exported, the package exports nothing, the package or
    // the identifier is not known
    assert_eq!(lookup(1, 2), missing(1, 2));
    assert_eq!(lookup(0, 0), missing(0, 0));
    assert_eq!(lookup(2, 0), missing(2, 0));
    assert_eq!(lookup(1, 3), missing(1, 3));
}

#[test]
fn exporting_a_name_again_moves_it() {
    let mut pkg = PackageVal::new();
    pkg.add_member("init".to_string(), 1);
    pkg.add_member("init".to_string(), 6);
    assert_eq!(pkg.get_member_index("init"), Some(&6));
}

#[test]
fn narrow_keeps_what_fits() {
    assert_eq!(narrow(0), Ok(0));
    assert_eq!(narrow(i32::MAX as i128), Ok(i32::MAX));
    assert_eq!(narrow(i32::MIN as i128), Ok(i32::MIN));
    assert_eq!(narrow(i32::MAX as i128 + 1), Err(CodegenError::OperandOverflow));
    assert_eq!(narrow(i32::MIN as i128 - 1), Err(CodegenError::OperandOverflow));
}

#[test]
fn plain_places_and_blank_are_told_apart() {
    assert_eq!(Addr::LocalVar(3).as_var_index(), 3);
    assert_eq!(VirtualAddr::Direct(Addr::Const(2)).as_direct_addr(), Addr::Const(2));
    assert!(VirtualAddr::Blank.is_blank());
    assert!(!VirtualAddr::ZeroValue.is_blank());
    assert!(!VirtualAddr::Direct(Addr::Void).is_blank());
    assert!(!VirtualAddr::Pointee(Addr::LocalVar(0)).is_blank());
}

#[test]
fn instruction_constructors_fill_the_unused_with_void() {
    let bare = InterInst::with_op(Opcode::CALL);
    assert_eq!(
        bare,
        InterInst {
            op0: Opcode::CALL,
            op1: AuxOp::Code(Opcode::VOID),
            t0: ValueType::Void,
            t1: ValueType::Void,
            d: Addr::Void,
            s0: Addr::Void,
            s1: Addr::Void,
        }
    );
    let indexed =
        InterInst::with_op_index(Opcode::STORE_SLICE, Addr::LocalVar(1), Addr::Imm(2), Addr::Const(3));
    assert_eq!(
        indexed,
        InterInst { op0: Opcode::STORE_SLICE, d: Addr::LocalVar(1), s0: Addr::Imm(2), s1: Addr::Const(3), ..bare }
    );
    let typed = InterInst::with_op_t(Opcode::CALL, Some(ValueType::Closure), None);
    assert_eq!(typed, InterInst { t0: ValueType::Closure, ..bare });
    let typed = InterInst::with_op_t(Opcode::CALL, None, Some(ValueType::Int8));
    assert_eq!(typed, InterInst { t1: ValueType::Int8, ..bare });
    let full = InterInst::with_op_t_index(
        Opcode::ASSIGN,
        Some(ValueType::Slice),
        Some(ValueType::Uint),
        Addr::Register(0),
        Addr::Register(1),
        Addr::Void,
    );
    assert_eq!(
        full,
        InterInst {
            op0: Opcode::ASSIGN,
            t0: ValueType::Slice,
            t1: ValueType::Uint,
            d: Addr::Register(0),
            s0: Addr::Register(1),
            ..bare
        }
    );
}

#[test]
fn second_opcode_slot_can_carry_a_type() {
    let mut inst = InterInst::with_op_index(Opcode::ASSIGN, Addr::LocalVar(0), Addr::Const(0), Addr::Void);
    let before = inst;
    inst.set_op1_with_t(ValueType::Float64);
    assert_eq!(inst, InterInst { op1: AuxOp::Type(ValueType::Float64), ..before });
    let done = inst.into_runtime_inst(1, &AstObjects::new(), &Vec::new(), 0, &ObjMap::new());
    assert_eq!(
        done,
        Ok(Instruction {
            op0: Opcode::ASSIGN,
            op1: AuxOp::Type(ValueType::Float64),
            t0: ValueType::Void,
            t1: ValueType::Void,
            d: 0,
            s0: -1,
            s1: 0,
        })
    );
}

#[test]
fn first_operand_without_a_number_decides_the_error() {
    let labels = ObjMap::new();
    let l1 = Addr::Label(TCObjKey(1));
    let l2 = Addr::Label(TCObjKey(2));
    let far = Addr::Register(i32::MAX);
    let run = |d: Addr, s0: Addr, s1: Addr| {
        InterInst::with_op_index(Opcode::JUMP, d, s0, s1).into_runtime_inst(
            1,
            &AstObjects::new(),
            &Vec::new(),
            0,
            &labels,
        )
    };
    assert_eq!(run(l1, l2, far), Err(CodegenError::MissingLabel(TCObjKey(1))));
    assert_eq!(run(Addr::Void, l2, far), Err(CodegenError::MissingLabel(TCObjKey(2))));
    assert_eq!(run(Addr::Void, far, l1), Err(CodegenError::OperandOverflow));
    assert_eq!(run(Addr::Imm(1), Addr::Void, l1), Err(CodegenError::MissingLabel(TCObjKey(1))));
}

#[test]
fn load_mode_takes_a_fresh_temporary() {
    let mut expr = ExprCtx::new(4, ExprMode::Load);
    assert_eq!(expr.load_addr, Addr::Void);
    assert_eq!(expr.get_dest(), Ok((Addr::Register(4), None)));
    assert_eq!(expr.cur_reg, 5);
    assert_eq!(expr.load_addr, Addr::Register(4));
    assert_eq!(expr.mode, ExprMode::Load);
    // asked again, it takes the next one
    assert_eq!(expr.get_dest(), Ok((Addr::Register(5), None)));
    assert_eq!(expr.load_addr, Addr::Register(5));
    assert_eq!(expr.cur_reg, 6);
}

#[test]
fn assigning_to_a_plain_place_needs_no_temporary() {
    let target = VirtualAddr::Direct(Addr::LocalVar(2));
    let mut expr = ExprCtx::new(4, ExprMode::Assign(target));
    assert_eq!(expr.get_dest(), Ok((Addr::LocalVar(2), None)));
    assert_eq!(expr.cur_reg, 4);
    assert_eq!(expr.load_addr, Addr::Void);
    // not even when none is left
    let mut full = ExprCtx::new(i32::MAX, ExprMode::Assign(target));
    assert_eq!(full.get_dest(), Ok((Addr::LocalVar(2), None)));
}

#[test]
fn assigning_to_a_composite_place_goes_through_a_temporary() {
    let targets = [
        VirtualAddr::UpValue(Addr::Imm(0)),
        VirtualAddr::SliceEntry(Addr::LocalVar(0), Addr::Register(1)),
        VirtualAddr::ArrayEntry(Addr::LocalVar(0), Addr::Register(1)),
        VirtualAddr::MapEntry(Addr::LocalVar(0), Addr::Const(1)),
        VirtualAddr::StructMember(Addr::LocalVar(0), Addr::Imm(1)),
        VirtualAddr::StructEmbedded(Addr::LocalVar(0), Addr::Imm(1)),
        VirtualAddr::PackageMember(Addr::Const(0), Addr::Imm(1)),
        VirtualAddr::Pointee(Addr::LocalVar(0)),
        VirtualAddr::Blank,
        VirtualAddr::ZeroValue,
    ];
    for target in targets {
        let mut expr = ExprCtx::new(2, ExprMode::Assign(target));
        assert_eq!(expr.get_dest(), Ok((Addr::Register(2), Some(target))));
        assert_eq!(expr.cur_reg, 3);
        assert_eq!(expr.load_addr, Addr::Void);
    }
}

#[test]
fn no_temporary_left_is_an_overflow() {
    let mut expr = ExprCtx::new(i32::MAX - 1, ExprMode::Load);
    assert_eq!(expr.alloc_reg(), Ok(Addr::Register(i32::MAX - 1)));
    assert_eq!(expr.cur_reg, i32::MAX);
    assert_eq!(expr.alloc_reg(), Err(CodegenError::OperandOverflow));
    assert_eq!(expr.alloc_reg_as_load_addr(), Err(CodegenError::OperandOverflow));
    assert_eq!(expr.get_dest(), Err(CodegenError::OperandOverflow));
    assert_eq!(expr.cur_reg, i32::MAX);
    assert_eq!(expr.load_addr, Addr::Void);
    let mut composite =
        ExprCtx::new(i32::MAX, ExprMode::Assign(VirtualAddr::Pointee(Addr::LocalVar(0))));
    assert_eq!(composite.get_dest(), Err(CodegenError::OperandOverflow));
}

#[test]
fn temporary_for_the_loaded_value_is_remembered() {
    let mut expr = ExprCtx::new(0, ExprMode::Assign(VirtualAddr::Blank));
    assert_eq!(expr.alloc_reg_as_load_addr(), Ok(()));
    assert_eq!(expr.load_addr, Addr::Register(0));
    assert_eq!(expr.cur_reg, 1);
    assert_eq!(expr.alloc_reg(), Ok(Addr::Register(1)));
    assert_eq!(expr.load_addr, Addr::Register(0));
}
