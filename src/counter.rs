//! The shared counter that the stateful tools read and change.
//!
//! A `Counter` is mutated only through `&mut`, so every change is one whole
//! step; the server holds it behind a mutual-exclusion guard, which orders
//! concurrent calls into a sequence of such steps.
use vstd::multiset::Multiset;
use vstd::prelude::*;

verus! {

/// One completed change of the counter.
#[derive(Clone, Copy, Debug, PartialEq, Eq, Structural)]
pub enum CounterOp {
    Increment,
    Decrement,
}

/// The value after one operation.
pub open spec fn apply_op(v: int, op: CounterOp) -> int {
    match op {
        CounterOp::Increment => v + 1,
        CounterOp::Decrement => v - 1,
    }
}

/// The value after a sequence of operations, applied in order from `v`.
pub open spec fn run_ops(v: int, ops: Seq<CounterOp>) -> int
    decreases ops.len(),
{
    if ops.len() == 0 {
        v
    } else {
        apply_op(run_ops(v, ops.drop_last()), ops.last())
    }
}

/// A process-wide integer counter, starting at zero.
pub struct Counter {
    value: i32,
}

impl View for Counter {
    type V = int;

    closed spec fn view(&self) -> int {
        self.value as int
    }
}

impl Counter {
    /// The counter's value lies in the range of `i32`.
    pub proof fn lemma_in_range(&self)
        ensures
            i32::MIN <= self@ <= i32::MAX,
    {
    }

    /// A counter at zero.
    pub fn new() -> (c: Counter)
        ensures
            c@ == 0,
    {
        Counter { value: 0 }
    }

    /// A counter at `v`.
    pub fn starting_at(v: i32) -> (c: Counter)
        ensures
            c@ == v as int,
    {
        Counter { value: v }
    }

    /// The current value.
    pub fn get_value(&self) -> (r: i32)
        ensures
            r as int == self@,
    {
        self.value
    }

    /// Applies one operation and returns the new value. Where the new value
    /// would leave the range of `i32`, nothing changes and `None` comes back.
    pub fn apply(&mut self, op: CounterOp) -> (r: Option<i32>)
        ensures
            match r {
                Some(v) => v as int == apply_op(old(self)@, op) && final(self)@ == v as int,
                None => final(self)@ == old(self)@ && (apply_op(old(self)@, op) < i32::MIN
                    || apply_op(old(self)@, op) > i32::MAX),
            },
    {
        match op {
            CounterOp::Increment => {
                if self.value == i32::MAX {
                    None
                } else {
                    self.value = self.value + 1;
                    Some(self.value)
                }
            },
            CounterOp::Decrement => {
                if self.value == i32::MIN {
                    None
                } else {
                    self.value = self.value - 1;
                    Some(self.value)
                }
            },
        }
    }

    /// Adds one and returns the new value; `None`, unchanged, at `i32::MAX`.
    pub fn increment(&mut self) -> (r: Option<i32>)
        ensures
            old(self)@ < i32::MAX ==> r == Some((old(self)@ + 1) as i32) && final(self)@ == old(
                self,
            )@ + 1,
            old(self)@ == i32::MAX ==> r is None && final(self)@ == old(self)@,
    {
        proof {
            self.lemma_in_range();
        }
        self.apply(CounterOp::Increment)
    }

    /// Subtracts one and returns the new value; `None`, unchanged, at `i32::MIN`.
    pub fn decrement(&mut self) -> (r: Option<i32>)
        ensures
            old(self)@ > i32::MIN ==> r == Some((old(self)@ - 1) as i32) && final(self)@ == old(
                self,
            )@ - 1,
            old(self)@ == i32::MIN ==> r is None && final(self)@ == old(self)@,
    {
        proof {
            self.lemma_in_range();
        }
        self.apply(CounterOp::Decrement)
    }
}

/// However the increments and decrements of a history were interleaved, the
/// value after all of them is the start value plus the number of increments
/// minus the number of decrements.
pub proof fn lemma_final_value(v: int, ops: Seq<CounterOp>)
    ensures
        run_ops(v, ops) == v + ops.to_multiset().count(CounterOp::Increment) - ops.to_multiset().count(
            CounterOp::Decrement,
        ),
    decreases ops.len(),
{
    broadcast use vstd::seq_lib::group_to_multiset_ensures;

    if ops.len() == 0 {
        assert(ops.to_multiset() =~= Multiset::empty());
    } else {
        let init = ops.drop_last();
        lemma_final_value(v, init);
        assert(ops =~= init.push(ops.last()));
    }
}

/// Two histories made of the same operations, in any order, leave the counter
/// at the same value.
pub proof fn lemma_order_irrelevant(v: int, ops1: Seq<CounterOp>, ops2: Seq<CounterOp>)
    requires
        ops1.to_multiset() == ops2.to_multiset(),
    ensures
        run_ops(v, ops1) == run_ops(v, ops2),
{
    lemma_final_value(v, ops1);
    lemma_final_value(v, ops2);
}

/// A read made after the first `k` operations of a history have completed
/// sees the start value moved by exactly those operations.
pub proof fn lemma_read_sees_completed(v: int, ops: Seq<CounterOp>, k: int)
    requires
        0 <= k <= ops.len(),
    ensures
        run_ops(v, ops.take(k)) == v + ops.take(k).to_multiset().count(CounterOp::Increment)
            - ops.take(k).to_multiset().count(CounterOp::Decrement),
        k < ops.len() ==> run_ops(v, ops.take(k + 1)) == apply_op(run_ops(v, ops.take(k)), ops[k]),
{
    lemma_final_value(v, ops.take(k));
    if k < ops.len() {
        assert(ops.take(k + 1).drop_last() =~= ops.take(k));
    }
}

} // verus!
