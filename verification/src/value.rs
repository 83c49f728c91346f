//! The vocabulary shared with the virtual machine: operand numbers, opcodes,
//! value-type tags, constants and the final instruction record.

use vstd::prelude::*;
use crate::keys::{FunctionKey, MetadataKey, PackageKey};

verus! {

/// A resolved operand: a slot number, a pool index in its negative encoding, a
/// literal or a jump distance.
pub type OpIndex = i32;

/// The opcodes that the builder itself emits.
#[allow(non_camel_case_types)]
#[derive(Clone, Copy, Debug, PartialEq, Eq, Structural)]
pub enum Opcode {
    VOID,
    ASSIGN,
    STORE_UP_VALUE,
    STORE_SLICE,
    STORE_ARRAY,
    STORE_MAP,
    STORE_STRUCT,
    STORE_STRUCT_EMBEDDED,
    STORE_PKG,
    STORE_POINTER,
    LOAD_PKG,
    LOAD_PKG_INIT_FUNC,
    CLOSURE,
    JUMP,
    PRE_CALL,
    CALL,
    IMPORT,
}

/// The kind of a run-time value. The last entries are no kinds at all: an
/// instruction carries them in a type slot as a flag.
#[derive(Clone, Copy, Debug, PartialEq, Eq, Structural)]
pub enum ValueType {
    Void,
    Bool,
    Int,
    Int8,
    Int16,
    Int32,
    Int64,
    Uint,
    UintPtr,
    Uint8,
    Uint16,
    Uint32,
    Uint64,
    Float32,
    Float64,
    Complex64,
    Complex128,
    Function,
    Package,
    Metadata,
    String,
    Array,
    Struct,
    Pointer,
    UnsafePtr,
    Closure,
    Slice,
    /// A map of the language.
    Dict,
    Interface,
    Channel,
    FlagA,
    FlagB,
    FlagC,
    FlagD,
}

/// What the second opcode slot of an instruction carries: an opcode, or a
/// value type for the instructions that need a third type.
#[derive(Clone, Copy, Debug, PartialEq, Eq, Structural)]
pub enum AuxOp {
    Code(Opcode),
    Type(ValueType),
}

/// How a function leaves: plainly, as a package constructor, or by way of its
/// deferred calls.
#[derive(Clone, Copy, Debug, PartialEq, Eq, Structural)]
pub enum FuncFlag {
    Default,
    PkgCtor,
    HasDefer,
}

/// A handle on a type description.
#[derive(Clone, Copy, Debug, PartialEq, Eq, Structural)]
pub struct Meta {
    pub key: MetadataKey,
    pub ptr_depth: u8,
    pub is_type: bool,
}

/// Where a closure finds a captured variable: in which function, at which slot.
#[derive(Clone, Copy, Debug, PartialEq, Eq, Structural)]
pub struct ValueDesc {
    pub func: FunctionKey,
    pub index: OpIndex,
    pub typ: ValueType,
    pub is_up_value: bool,
}

/// A constant as the pool stores it. Floating-point constants are held by
/// their bit pattern.
#[derive(Debug, PartialEq, Eq)]
pub enum GosValue {
    Nil,
    Bool(bool),
    Int(i64),
    Int32(i32),
    Int64(i64),
    Uint(u64),
    Uint8(u8),
    Float64(u64),
    Str(String),
    Metadata(Meta),
    Package(PackageKey),
    Function(FunctionKey),
    Method(Meta, OpIndex),
}

/// A constant as a mathematical value: two constants are the same constant
/// when these agree.
pub enum ConstView {
    Nil,
    Bool(bool),
    Int(i64),
    Int32(i32),
    Int64(i64),
    Uint(u64),
    Uint8(u8),
    Float64(u64),
    Str(Seq<char>),
    Metadata(Meta),
    Package(PackageKey),
    Function(FunctionKey),
    Method(Meta, OpIndex),
}

impl View for GosValue {
    type V = ConstView;

    open spec fn view(&self) -> ConstView {
        match *self {
            GosValue::Nil => ConstView::Nil,
            GosValue::Bool(b) => ConstView::Bool(b),
            GosValue::Int(i) => ConstView::Int(i),
            GosValue::Int32(i) => ConstView::Int32(i),
            GosValue::Int64(i) => ConstView::Int64(i),
            GosValue::Uint(u) => ConstView::Uint(u),
            GosValue::Uint8(u) => ConstView::Uint8(u),
            GosValue::Float64(bits) => ConstView::Float64(bits),
            GosValue::Str(s) => ConstView::Str(s@),
            GosValue::Metadata(m) => ConstView::Metadata(m),
            GosValue::Package(p) => ConstView::Package(p),
            GosValue::Function(f) => ConstView::Function(f),
            GosValue::Method(m, i) => ConstView::Method(m, i),
        }
    }
}

impl Clone for GosValue {
    fn clone(&self) -> (copy: GosValue)
        ensures
            copy@ == self@,
    {
        match self {
            GosValue::Nil => GosValue::Nil,
            GosValue::Bool(b) => GosValue::Bool(*b),
            GosValue::Int(i) => GosValue::Int(*i),
            GosValue::Int32(i) => GosValue::Int32(*i),
            GosValue::Int64(i) => GosValue::Int64(*i),
            GosValue::Uint(u) => GosValue::Uint(*u),
            GosValue::Uint8(u) => GosValue::Uint8(*u),
            GosValue::Float64(bits) => GosValue::Float64(*bits),
            GosValue::Str(s) => GosValue::Str(s.clone()),
            GosValue::Metadata(m) => GosValue::Metadata(*m),
            GosValue::Package(p) => GosValue::Package(*p),
            GosValue::Function(f) => GosValue::Function(*f),
            GosValue::Method(m, i) => GosValue::Method(*m, *i),
        }
    }
}

impl GosValue {
    pub fn new_metadata(m: Meta) -> (v: GosValue)
        ensures
            v == GosValue::Metadata(m),
    {
        GosValue::Metadata(m)
    }

    pub fn new_package(p: PackageKey) -> (v: GosValue)
        ensures
            v == GosValue::Package(p),
    {
        GosValue::Package(p)
    }

    pub fn new_int32(i: i32) -> (v: GosValue)
        ensures
            v == GosValue::Int32(i),
    {
        GosValue::Int32(i)
    }

    /// Whether two constants are the same constant.
    pub fn same(&self, other: &GosValue) -> (r: bool)
        ensures
            r == (self@ == other@),
    {
        match (self, other) {
            (GosValue::Nil, GosValue::Nil) => true,
            (GosValue::Bool(a), GosValue::Bool(b)) => *a == *b,
            (GosValue::Int(a), GosValue::Int(b)) => *a == *b,
            (GosValue::Int32(a), GosValue::Int32(b)) => *a == *b,
            (GosValue::Int64(a), GosValue::Int64(b)) => *a == *b,
            (GosValue::Uint(a), GosValue::Uint(b)) => *a == *b,
            (GosValue::Uint8(a), GosValue::Uint8(b)) => *a == *b,
            (GosValue::Float64(a), GosValue::Float64(b)) => *a == *b,
            (GosValue::Str(a), GosValue::Str(b)) => *a == *b,
            (GosValue::Metadata(a), GosValue::Metadata(b)) => *a == *b,
            (GosValue::Package(a), GosValue::Package(b)) => *a == *b,
            (GosValue::Function(a), GosValue::Function(b)) => *a == *b,
            (GosValue::Method(a, i), GosValue::Method(b, j)) => *a == *b && *i == *j,
            _ => false,
        }
    }
}

/// An instruction as the machine decodes it: the shape of an
/// [`crate::inst::InterInst`] with every operand a number.
#[derive(Clone, Copy, Debug, PartialEq, Eq, Structural)]
pub struct Instruction {
    pub op0: Opcode,
    pub op1: AuxOp,
    pub t0: ValueType,
    pub t1: ValueType,
    pub d: OpIndex,
    pub s0: OpIndex,
    pub s1: OpIndex,
}

} // verus!
