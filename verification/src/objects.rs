//! The tables that the builder reads and the record that it fills: what the
//! parser, the type checker and the virtual machine hold for it.

use vstd::prelude::*;
use vstd::hash_map::StringHashMap;
use crate::keys::{FieldKey, IdentKey, TCObjKey};
use crate::value::{FuncFlag, GosValue, Instruction, OpIndex, ValueDesc, ValueType};

verus! {

/// An identifier of the source.
pub struct Ident {
    pub name: String,
}

/// One entry of a parameter list: the names that share a type. With no name it
/// is an anonymous parameter.
pub struct Field {
    pub names: Vec<IdentKey>,
}

/// A parameter list.
pub struct FieldList {
    pub list: Vec<FieldKey>,
}

/// The syntax tree's tables, indexed by [`IdentKey`] and [`FieldKey`].
pub struct AstObjects {
    pub idents: Vec<Ident>,
    pub fields: Vec<Field>,
}

impl AstObjects {
    pub fn new() -> (objs: AstObjects)
        ensures
            objs.idents@.len() == 0,
            objs.fields@.len() == 0,
    {
        AstObjects { idents: Vec::new(), fields: Vec::new() }
    }
}

/// The type checker's answer to "which object does this identifier define",
/// indexed by [`IdentKey`].
pub struct TypeLookup {
    pub defs: Vec<Option<TCObjKey>>,
}

impl TypeLookup {
    /// Whether the identifier defines an object.
    pub open spec fn defines(&self, ident: IdentKey) -> bool {
        ident.0 < self.defs@.len() && self.defs@[ident.0 as int] is Some
    }

    pub open spec fn spec_object_def(&self, ident: IdentKey) -> TCObjKey {
        self.defs@[ident.0 as int]->Some_0
    }

    pub fn object_def(&self, ident: IdentKey) -> (obj: TCObjKey)
        requires
            self.defines(ident),
        ensures
            obj == self.spec_object_def(ident),
    {
        self.defs[ident.0].unwrap()
    }
}

/// A package as the machine holds it: the index of each exported member.
pub struct PackageVal {
    member_indices: StringHashMap<OpIndex>,
}

impl PackageVal {
    /// The exported names and the index of each.
    pub closed spec fn members(&self) -> Map<Seq<char>, OpIndex> {
        self.member_indices@
    }

    pub fn new() -> (pkg: PackageVal)
        ensures
            pkg.members() == Map::<Seq<char>, OpIndex>::empty(),
    {
        PackageVal { member_indices: StringHashMap::new() }
    }

    /// Exports `name` at `index`; a name exported before moves to `index`.
    pub fn add_member(&mut self, name: String, index: OpIndex)
        ensures
            final(self).members() == old(self).members().insert(name@, index),
    {
        self.member_indices.insert(name, index);
    }

    pub fn get_member_index(&self, name: &str) -> (found: Option<&OpIndex>)
        ensures
            match found {
                Some(i) => self.members().contains_key(name@) && *i == self.members()[name@],
                None => !self.members().contains_key(name@),
            },
    {
        self.member_indices.get(name)
    }
}

/// A function as the machine runs it. The builder fills everything but the
/// flag.
pub struct FunctionVal {
    pub code: Vec<Instruction>,
    pub pos: Vec<Option<usize>>,
    pub up_ptrs: Vec<ValueDesc>,
    pub stack_temp_types: Vec<ValueType>,
    pub local_zeros: Vec<GosValue>,
    pub flag: FuncFlag,
}

impl FunctionVal {
    pub fn new(flag: FuncFlag) -> (f: FunctionVal)
        ensures
            f.flag == flag,
            f.code@.len() == 0,
            f.pos@.len() == 0,
            f.up_ptrs@.len() == 0,
            f.stack_temp_types@.len() == 0,
            f.local_zeros@.len() == 0,
    {
        FunctionVal {
            code: Vec::new(),
            pos: Vec::new(),
            up_ptrs: Vec::new(),
            stack_temp_types: Vec::new(),
            local_zeros: Vec::new(),
            flag,
        }
    }

    pub fn is_ctor(&self) -> (r: bool)
        ensures
            r == (self.flag == FuncFlag::PkgCtor),
    {
        self.flag == FuncFlag::PkgCtor
    }
}

/// The machine's function table, indexed by [`crate::keys::FunctionKey`].
pub type FunctionObjs = Vec<FunctionVal>;

/// The machine's package table, indexed by [`crate::keys::PackageKey`].
pub type PackageObjs = Vec<PackageVal>;

/// Everything the machine holds.
pub struct VMObjects {
    pub functions: FunctionObjs,
    pub packages: PackageObjs,
}

impl VMObjects {
    pub fn new() -> (objs: VMObjects)
        ensures
            objs.functions@.len() == 0,
            objs.packages@.len() == 0,
    {
        VMObjects { functions: Vec::new(), packages: Vec::new() }
    }
}

} // verus!
