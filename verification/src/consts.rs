//! The constant pool: every constant of a compilation, each stored once.
//!
//! The pool only grows. An instruction refers to a constant by its index, in
//! the negative encoding of [`crate::addr::Addr::Const`].

use vstd::prelude::*;
use crate::error::CodegenError;
use crate::value::{ConstView, GosValue, Meta, OpIndex};

verus! {

/// The index at which `v` is found in `pool`, or the index it would get.
pub open spec fn pool_slot(pool: Seq<ConstView>, v: ConstView) -> int {
    if pool.contains(v) {
        pool.index_of(v)
    } else {
        pool.len() as int
    }
}

/// Whether `v` has, or can be given, an index that fits an operand.
pub open spec fn pool_accepts(pool: Seq<ConstView>, v: ConstView) -> bool {
    pool_slot(pool, v) <= i32::MAX
}

/// The pool after `v` was interned: unchanged where `v` is there already or
/// cannot be taken, longer by `v` otherwise.
pub open spec fn pool_with(pool: Seq<ConstView>, v: ConstView) -> Seq<ConstView> {
    if pool.contains(v) || !pool_accepts(pool, v) {
        pool
    } else {
        pool.push(v)
    }
}

/// What interning `v` answers: its index, or that none is left.
pub open spec fn interned(pool: Seq<ConstView>, v: ConstView) -> Result<OpIndex, CodegenError> {
    if pool_accepts(pool, v) {
        Ok(pool_slot(pool, v) as i32)
    } else {
        Err(CodegenError::OperandOverflow)
    }
}

/// A pool holds no constant twice, and every index in it fits an operand.
pub open spec fn pool_wf(pool: Seq<ConstView>) -> bool {
    &&& pool.no_duplicates()
    &&& pool.len() <= i32::MAX + 1
}

/// Interning keeps a pool well formed, and puts the constant at the index
/// that is answered.
pub proof fn lemma_pool_with_wf(pool: Seq<ConstView>, v: ConstView)
    requires
        pool_wf(pool),
    ensures
        pool_wf(pool_with(pool, v)),
        pool_with(pool, v).contains(v) <==> pool_accepts(pool, v),
        pool_accepts(pool, v) ==> pool_with(pool, v)[pool_slot(pool, v)] == v,
        pool.contains(v) ==> pool_accepts(pool, v),
        0 <= pool_slot(pool, v) <= pool.len(),
{
    if !pool.contains(v) && pool_accepts(pool, v) {
        let next = pool.push(v);
        assert forall|i: int, j: int|
            0 <= i < next.len() && 0 <= j < next.len() && i != j implies next[i] != next[j] by {}
    }
}

/// The pool. Its view is the sequence of the constants in it, each by its
/// mathematical value.
pub struct Consts {
    values: Vec<GosValue>,
}

impl View for Consts {
    type V = Seq<ConstView>;

    closed spec fn view(&self) -> Seq<ConstView> {
        Seq::new(self.values@.len(), |i: int| self.values@[i]@)
    }
}

impl Consts {
    pub open spec fn wf(&self) -> bool {
        pool_wf(self@)
    }

    pub fn new() -> (pool: Consts)
        ensures
            pool.wf(),
            pool@ == Seq::<ConstView>::empty(),
    {
        Consts { values: Vec::new() }
    }

    pub fn len(&self) -> (n: usize)
        ensures
            n == self@.len(),
    {
        self.values.len()
    }

    /// The constant that an index of the pool stands for.
    pub fn get(&self, index: OpIndex) -> (found: Option<&GosValue>)
        ensures
            match found {
                Some(v) => 0 <= index < self@.len() && v@ == self@[index as int],
                None => !(0 <= index < self@.len()),
            },
    {
        if index < 0 || index as usize >= self.values.len() {
            None
        } else {
            Some(&self.values[index as usize])
        }
    }

    /// Interns `v`: gives the index it already has, or appends it. Fails,
    /// leaving the pool as it was, when `v` is new and the next index does not
    /// fit an operand.
    pub fn add_const(&mut self, v: GosValue) -> (r: Result<OpIndex, CodegenError>)
        requires
            old(self).wf(),
        ensures
            final(self).wf(),
            final(self)@ == pool_with(old(self)@, v@),
            r == interned(old(self)@, v@),
    {
        proof {
            lemma_pool_with_wf(self@, v@);
        }
        let n = self.values.len();
        let mut i: usize = 0;
        while i < n
            invariant
                n == self.values@.len(),
                *self == *old(self),
                self.wf(),
                0 <= i <= n,
                forall|j: int| 0 <= j < i ==> self@[j] != v@,
            decreases n - i,
        {
            if self.values[i].same(&v) {
                assert(self@[i as int] == v@);
                return Ok(i as i32);
            }
            i += 1;
        }
        if n > i32::MAX as usize {
            return Err(CodegenError::OperandOverflow);
        }
        self.values.push(v);
        assert(self@ =~= old(self)@.push(v@));
        Ok(n as i32)
    }

    /// Interns the constant that stands for method `index` of the type
    /// `obj_meta`.
    pub fn add_function(&mut self, obj_meta: Meta, index: OpIndex) -> (r: Result<
        OpIndex,
        CodegenError,
    >)
        requires
            old(self).wf(),
        ensures
            final(self).wf(),
            final(self)@ == pool_with(old(self)@, ConstView::Method(obj_meta, index)),
            r == interned(old(self)@, ConstView::Method(obj_meta, index)),
    {
        self.add_const(GosValue::Method(obj_meta, index))
    }
}

} // verus!
