use crate::ast::{Problem, Res};
use std::marker::PhantomData;
use vstd::prelude::*;
use vstd::string::StringSliceAdditionalSpecFns;

verus! {

/// Bytes that every slot of an expression pool occupies.
pub const NODE_BYTES: usize = 32;

/// Largest index a handle can carry: handles are 32-bit.
pub const MAX_INDEX: usize = 0xFFFF_FFFF;

/// A handle to one slot of a `Pool<T>`: an index, meaningful only for the pool that issued it.
#[derive(Debug)]
pub struct NodeId<T> {
    pub index: u32,
    pub _phantom: PhantomData<T>,
}

impl<T> Clone for NodeId<T> {
    fn clone(&self) -> (r: Self)
        ensures
            r == *self,
    {
        NodeId { index: self.index, _phantom: PhantomData }
    }
}

impl<T> Copy for NodeId<T> {
}

impl<T> NodeId<T> {
    pub fn new(index: u32) -> (r: Self)
        ensures
            r.index == index,
    {
        NodeId { index, _phantom: PhantomData }
    }
}

/// A contiguous run of `len` slots of a `Pool<T>`, starting at slot `first`.
#[derive(Debug)]
pub struct PoolVec<T> {
    pub first: u32,
    pub len: u32,
    pub _phantom: PhantomData<T>,
}

impl<T> Clone for PoolVec<T> {
    fn clone(&self) -> (r: Self)
        ensures
            r == *self,
    {
        PoolVec { first: self.first, len: self.len, _phantom: PhantomData }
    }
}

impl<T> Copy for PoolVec<T> {
}

impl<T> PoolVec<T> {
    /// The run that holds no slot.
    pub fn empty() -> (r: Self)
        ensures
            r.first == 0,
            r.len == 0,
    {
        PoolVec { first: 0, len: 0, _phantom: PhantomData }
    }

    pub open spec fn end(&self) -> int {
        self.first + self.len
    }
}

/// A string held in a pool's byte storage: `len` bytes from byte `offset`.
#[derive(Debug, Clone, Copy, PartialEq, Eq, Structural)]
pub struct PoolStr {
    pub offset: u32,
    pub len: u32,
}

impl PoolStr {
    pub open spec fn end(&self) -> int {
        self.offset + self.len
    }
}

/// A copy that keeps every handle as it is, so that the copy aliases what the original refers to.
pub trait ShallowClone: Sized {
    fn shallow_clone(&self) -> (r: Self)
        ensures
            r == *self,
    ;
}

impl<T> ShallowClone for PoolVec<T> {
    fn shallow_clone(&self) -> (r: Self) {
        PoolVec { first: self.first, len: self.len, _phantom: PhantomData }
    }
}

impl<T> ShallowClone for NodeId<T> {
    fn shallow_clone(&self) -> (r: Self) {
        NodeId { index: self.index, _phantom: PhantomData }
    }
}

impl ShallowClone for PoolStr {
    fn shallow_clone(&self) -> (r: Self) {
        PoolStr { offset: self.offset, len: self.len }
    }
}

/// A bump allocator of slots that all hold a `T`, with a side storage of string bytes.
/// Slots are never freed one by one; the pool is dropped as a whole.
pub struct Pool<T> {
    nodes: Vec<T>,
    text: Vec<u8>,
}

impl<T> Pool<T> {
    /// The values of the slots, in the order of their handles.
    pub closed spec fn nodes(&self) -> Seq<T> {
        self.nodes@
    }

    /// The bytes of all the strings interned so far.
    pub closed spec fn text(&self) -> Seq<u8> {
        self.text@
    }

    /// The values of the slots that `v` spans.
    pub open spec fn run(&self, v: PoolVec<T>) -> Seq<T> {
        self.nodes().subrange(v.first as int, v.end())
    }

    /// The bytes of `s`.
    pub open spec fn str_bytes(&self, s: PoolStr) -> Seq<u8> {
        self.text().subrange(s.offset as int, s.end())
    }

    /// The pool never holds more slots, nor more string bytes, than a 32-bit index can reach.
    pub open spec fn wf(&self) -> bool {
        self.nodes().len() <= MAX_INDEX && self.text().len() <= MAX_INDEX
    }

    pub open spec fn contains_id(&self, id: NodeId<T>) -> bool {
        id.index < self.nodes().len()
    }

    pub open spec fn contains_run(&self, v: PoolVec<T>) -> bool {
        v.end() <= self.nodes().len()
    }

    pub open spec fn contains_str(&self, s: PoolStr) -> bool {
        s.end() <= self.text().len()
    }

    pub fn new() -> (r: Self)
        ensures
            r.wf(),
            r.nodes() == Seq::<T>::empty(),
            r.text() == Seq::<u8>::empty(),
    {
        Pool { nodes: Vec::new(), text: Vec::new() }
    }

    /// Number of slots handed out so far.
    pub fn len(&self) -> (r: usize)
        ensures
            r == self.nodes().len(),
    {
        self.nodes.len()
    }

    /// Puts `value` in a new slot and returns its handle; fails only when no
    /// 32-bit index is left.
    pub fn allocate(&mut self, value: T) -> (r: Res<NodeId<T>>)
        requires
            old(self).wf(),
        ensures
            final(self).wf(),
            old(self).nodes().len() < MAX_INDEX <==> r is Ok,
            match r {
                Ok(id) => id.index == old(self).nodes().len() && final(self).nodes() == old(
                    self,
                ).nodes().push(value),
                Err(e) => e == Problem::RanOutOfNodeIds && *final(self) == *old(self),
            },
            final(self).text() == old(self).text(),
    {
        let n = self.nodes.len();
        if n >= MAX_INDEX {
            return Err(Problem::RanOutOfNodeIds);
        }
        self.nodes.push(value);
        Ok(NodeId { index: n as u32, _phantom: PhantomData })
    }

    /// Puts `items` in consecutive new slots and returns the run they fill.
    pub fn allocate_run(&mut self, items: Vec<T>) -> (r: Res<PoolVec<T>>)
        requires
            old(self).wf(),
        ensures
            final(self).wf(),
            old(self).nodes().len() + items@.len() <= MAX_INDEX <==> r is Ok,
            match r {
                Ok(v) => v.first == old(self).nodes().len() && v.len == items@.len()
                    && final(self).nodes() == old(self).nodes() + items@,
                Err(e) => e == Problem::RanOutOfNodeIds && *final(self) == *old(self),
            },
            final(self).text() == old(self).text(),
    {
        let n = self.nodes.len();
        let k = items.len();
        if n > MAX_INDEX || k > MAX_INDEX - n {
            return Err(Problem::RanOutOfNodeIds);
        }
        let mut items = items;
        self.nodes.append(&mut items);
        Ok(PoolVec { first: n as u32, len: k as u32, _phantom: PhantomData })
    }

    /// Copies `text` into the string storage and returns its handle.
    pub fn intern_string(&mut self, text: &str) -> (r: Res<PoolStr>)
        requires
            old(self).wf(),
        ensures
            final(self).wf(),
            old(self).text().len() + text.spec_bytes().len() <= MAX_INDEX <==> r is Ok,
            match r {
                Ok(s) => s.offset == old(self).text().len() && s.len == text.spec_bytes().len()
                    && final(self).text() == old(self).text() + text.spec_bytes(),
                Err(e) => e == Problem::RanOutOfNodeIds && *final(self) == *old(self),
            },
            final(self).nodes() == old(self).nodes(),
    {
        let bytes = text.as_bytes();
        let n = self.text.len();
        let k = bytes.len();
        if n > MAX_INDEX || k > MAX_INDEX - n {
            return Err(Problem::RanOutOfNodeIds);
        }
        let mut i: usize = 0;
        while i < k
            invariant
                k == bytes@.len(),
                i <= k,
                self.text@ == old(self).text@ + bytes@.subrange(0, i as int),
                self.nodes@ == old(self).nodes@,
            decreases k - i,
        {
            self.text.push(bytes[i]);
            i = i + 1;
            assert(bytes@.subrange(0, i as int) == bytes@.subrange(0, i - 1) + seq![bytes@[i - 1]]);
        }
        assert(bytes@.subrange(0, k as int) == bytes@);
        Ok(PoolStr { offset: n as u32, len: k as u32 })
    }

    /// The value in slot `id`.
    pub fn get(&self, id: NodeId<T>) -> (r: &T)
        requires
            self.contains_id(id),
        ensures
            *r == self.nodes()[id.index as int],
    {
        &self.nodes[id.index as usize]
    }

    /// Replaces the value in slot `id`; every other slot keeps its value.
    pub fn set(&mut self, id: NodeId<T>, value: T)
        requires
            old(self).wf(),
            old(self).contains_id(id),
        ensures
            final(self).wf(),
            final(self).nodes() == old(self).nodes().update(id.index as int, value),
            final(self).text() == old(self).text(),
    {
        self.nodes.set(id.index as usize, value);
    }

    /// The handle of the slot at position `i` of run `v`.
    pub fn run_id(&self, v: PoolVec<T>, i: u32) -> (r: NodeId<T>)
        requires
            self.wf(),
            i < v.len,
            self.contains_run(v),
        ensures
            r.index == v.first + i,
            self.nodes()[r.index as int] == self.run(v)[i as int],
    {
        NodeId { index: (v.first as usize + i as usize) as u32, _phantom: PhantomData }
    }

    /// The bytes of string `s`.
    pub fn get_str(&self, s: PoolStr) -> (r: &[u8])
        requires
            self.wf(),
            self.contains_str(s),
        ensures
            r@ == self.str_bytes(s),
    {
        vstd::slice::slice_subrange(self.text.as_slice(), s.offset as usize, s.offset as usize + s.len as usize)
    }
}

impl<T: Copy> Pool<T> {
    /// Copies the values of run `v` into consecutive new slots and returns the
    /// new run. The values are copied as they are: handles among them are not followed.
    pub fn duplicate_run(&mut self, v: PoolVec<T>) -> (r: Res<PoolVec<T>>)
        requires
            old(self).wf(),
            old(self).contains_run(v),
        ensures
            final(self).wf(),
            old(self).nodes().len() + v.len <= MAX_INDEX <==> r is Ok,
            match r {
                Ok(d) => d.first == old(self).nodes().len() && d.len == v.len
                    && final(self).nodes() == old(self).nodes() + old(self).run(v)
                    && final(self).run(d) == old(self).run(v),
                Err(e) => e == Problem::RanOutOfNodeIds && *final(self) == *old(self),
            },
            final(self).text() == old(self).text(),
    {
        let n = self.nodes.len();
        let k = v.len as usize;
        if k > MAX_INDEX - n {
            return Err(Problem::RanOutOfNodeIds);
        }
        let first = v.first as usize;
        let ghost run = self.run(v);
        let mut i: usize = 0;
        while i < k
            invariant
                n == old(self).nodes().len(),
                k == v.len,
                first == v.first,
                first + k <= n,
                n + k <= MAX_INDEX,
                i <= k,
                run == old(self).nodes().subrange(first as int, first + k),
                self.nodes@ == old(self).nodes() + run.subrange(0, i as int),
                self.text@ == old(self).text(),
            decreases k - i,
        {
            let x: T = self.nodes[first + i];
            proof {
                assert(x == run[i as int]);
            }
            self.nodes.push(x);
            i = i + 1;
            proof {
                assert(run.subrange(0, i as int) == run.subrange(0, i - 1) + seq![run[i - 1]]);
            }
        }
        proof {
            assert(run.subrange(0, k as int) == run);
            assert(self.nodes@.subrange(n as int, n + k) =~= run);
        }
        Ok(PoolVec { first: n as u32, len: k as u32, _phantom: PhantomData })
    }
}

/// Successive allocations on one pool: the pool held `states[k]` before the
/// `k`-th allocation, which stored `values[k]` and issued `ids[k]`.
pub open spec fn allocation_history<T>(
    states: Seq<Seq<T>>,
    values: Seq<T>,
    ids: Seq<NodeId<T>>,
) -> bool {
    &&& states.len() == values.len() + 1
    &&& ids.len() == values.len()
    &&& forall|k: int|
        0 <= k < values.len() ==> ids[k].index == states[k].len() && states[k + 1] == states[
            k
        ].push(values[k])
}

proof fn lemma_history_prefix<T>(states: Seq<Seq<T>>, values: Seq<T>, ids: Seq<NodeId<T>>, k: int)
    requires
        allocation_history(states, values, ids),
        0 <= k < states.len(),
    ensures
        states[k].len() == states[0].len() + k,
        forall|i: int| 0 <= i < k ==> states[k][states[0].len() + i] == values[i],
    decreases k,
{
    if k > 0 {
        lemma_history_prefix(states, values, ids, k - 1);
        assert(states[k] == states[k - 1].push(values[k - 1]));
        assert forall|i: int| 0 <= i < k implies states[k][states[0].len() + i] == values[i] by {
            assert(states[k] == states[k - 1].push(values[k - 1]));
        }
    }
}

/// Handles that successive allocations issue are pairwise distinct, and each
/// keeps reading the value it was issued for however much the pool grows after.
pub proof fn lemma_allocations_distinct_and_stable<T>(
    states: Seq<Seq<T>>,
    values: Seq<T>,
    ids: Seq<NodeId<T>>,
)
    requires
        allocation_history(states, values, ids),
    ensures
        forall|i: int, j: int| 0 <= i < j < ids.len() ==> ids[i].index != ids[j].index,
        forall|i: int, k: int|
            #![trigger ids[i], states[k]]
            0 <= i < k < states.len() ==> (ids[i].index < states[k].len() && states[k][ids[i].index
                as int] == values[i]),
{
    assert forall|i: int, j: int| 0 <= i < j < ids.len() implies ids[i].index != ids[j].index by {
        lemma_history_prefix(states, values, ids, i);
        lemma_history_prefix(states, values, ids, j);
    }
    assert forall|i: int, k: int|
        #![trigger ids[i], states[k]]
        0 <= i < k < states.len() implies (ids[i].index < states[k].len()
        && states[k][ids[i].index as int] == values[i]) by {
        lemma_history_prefix(states, values, ids, i);
        lemma_history_prefix(states, values, ids, k);
        assert(ids[i].index == states[i].len());
        assert(ids[i].index == states[0].len() + i);
        assert(states[k][states[0].len() + i] == values[i]);
    }
}

/// A shallow copy of a run refers to the same slots as the original: a change
/// made to a slot of the original's run is seen through the copy.
pub proof fn lemma_shallow_clone_aliases<T>(
    before: Pool<T>,
    after: Pool<T>,
    original: PoolVec<T>,
    copy: PoolVec<T>,
    id: NodeId<T>,
    value: T,
)
    requires
        copy == original,
        before.contains_run(original),
        original.first <= id.index < original.end(),
        after.nodes() == before.nodes().update(id.index as int, value),
    ensures
        after.run(copy) == after.run(original),
        after.run(copy)[id.index - original.first] == value,
{
}

} // verus!
