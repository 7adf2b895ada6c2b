use vstd::prelude::*;

use crate::bus::{Error, Op};

verus! {

/// Carries out a plan of bus operations one at a time, stopping at the first
/// failure. The caller performs each operation that [`Transaction::pending`]
/// hands out and reports how it went with [`Transaction::record`].
pub struct Transaction {
    ops: Vec<Op>,
    next: usize,
    stopped: bool,
}

impl Transaction {
    /// The operations to carry out, in order.
    pub closed spec fn plan(&self) -> Seq<Op> {
        self.ops@
    }

    /// How many operations have been handed out and reported.
    pub closed spec fn done(&self) -> nat {
        self.next as nat
    }

    /// A failure has been reported.
    pub closed spec fn failed(&self) -> bool {
        self.stopped
    }

    pub open spec fn wf(&self) -> bool {
        self.done() <= self.plan().len()
    }

    /// Nothing more is to be carried out: a failure came, or the plan is through.
    pub open spec fn finished(&self) -> bool {
        self.failed() || self.done() == self.plan().len()
    }

    pub fn new(ops: Vec<Op>) -> (t: Transaction)
        ensures
            t.wf(),
            t.plan() == ops@,
            t.done() == 0,
            !t.failed(),
    {
        Transaction { ops, next: 0, stopped: false }
    }

    /// The next operation to carry out, or `None` once the transaction is finished.
    pub fn pending(&self) -> (r: Option<&Op>)
        requires
            self.wf(),
        ensures
            r is None <==> self.finished(),
            r is Some ==> *r->0 == self.plan()[self.done() as int],
    {
        if self.stopped || self.next >= self.ops.len() {
            None
        } else {
            Some(&self.ops[self.next])
        }
    }

    /// Records how the pending operation went and hands the outcome back: a
    /// failure ends the transaction, so that no later operation is carried out.
    pub fn record<SpiE, PinE>(&mut self, outcome: Result<(), Error<SpiE, PinE>>) -> (r: Result<
        (),
        Error<SpiE, PinE>,
    >)
        requires
            old(self).wf(),
            !old(self).finished(),
        ensures
            final(self).wf(),
            final(self).plan() == old(self).plan(),
            final(self).done() == old(self).done() + 1,
            final(self).failed() <==> outcome is Err,
            r == outcome,
    {
        let len = self.ops.len();
        assert(self.next < len);
        self.next = self.next + 1;
        if outcome.is_err() {
            self.stopped = true;
        }
        outcome
    }

    /// How many operations have been carried out.
    pub fn done_count(&self) -> (r: usize)
        ensures
            r == self.done(),
    {
        self.next
    }
}

} // verus!
