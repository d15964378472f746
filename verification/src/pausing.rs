//! Fleet pausing: a registry of pausable contract addresses and the
//! decision logic for pausing or resuming them, one bounded batch of
//! calls at a time.
//!
//! The registry itself performs no cross-contract call: each operation
//! returns the addresses to act on, and the host performs the calls and
//! comes back for the next batch. An interrupted sweep saves its
//! progress and continues on the next invocation.

use vstd::prelude::*;

verus! {

/// The interface a pausable contract exposes. The pool exposes `pause`
/// and `resume` in exactly this shape.
pub trait Pausable {
    fn pause(&mut self);

    fn resume(&mut self);
}

/// A sweep that ran out of its call budget saves where to go on.
#[derive(Clone, Copy, Debug, PartialEq, Eq, Structural)]
pub enum OngoingOperation {
    NoOperation,
    PauseAll { addr_index: usize },
    ResumeAll { addr_index: usize },
}

/// Whether a sweep finished or must be continued by another call.
#[derive(Clone, Copy, Debug, PartialEq, Eq, Structural)]
pub enum OperationCompletionStatus {
    Completed,
    InterruptedBeforeOutOfGas,
}

/// The registry of pausable contracts and the saved progress of an
/// interrupted sweep.
pub struct PauseAll {
    pub pausable_contracts: Vec<u64>,
    pub current_operation: OngoingOperation,
}

/// The mathematical value of the registry.
pub ghost struct PauseAllModel {
    pub pausable_contracts: Seq<u64>,
    pub current_operation: OngoingOperation,
}

impl View for PauseAll {
    type V = PauseAllModel;

    open spec fn view(&self) -> PauseAllModel {
        PauseAllModel {
            pausable_contracts: self.pausable_contracts@,
            current_operation: self.current_operation,
        }
    }
}

/// No address is registered twice.
pub open spec fn distinct_addresses(s: Seq<u64>) -> bool {
    forall|i: int, j: int| 0 <= i < j < s.len() ==> s[i] != s[j]
}

/// The registered addresses among `addrs`, in the order of `addrs`.
pub open spec fn selected_addresses(contracts: Seq<u64>, addrs: Seq<u64>) -> Seq<u64>
    decreases addrs.len(),
{
    if addrs.len() == 0 {
        Seq::empty()
    } else {
        let rest = selected_addresses(contracts, addrs.drop_last());
        if contracts.contains(addrs.last()) {
            rest.push(addrs.last())
        } else {
            rest
        }
    }
}

/// Where a sweep continues: at its saved index, or at the start.
pub open spec fn pause_all_start(op: OngoingOperation) -> int {
    match op {
        OngoingOperation::PauseAll { addr_index } => addr_index as int,
        _ => 0,
    }
}

/// Where a resume sweep continues: at its saved index, or at the start.
pub open spec fn resume_all_start(op: OngoingOperation) -> int {
    match op {
        OngoingOperation::ResumeAll { addr_index } => addr_index as int,
        _ => 0,
    }
}

impl PauseAll {
    /// An empty registry with no sweep in progress.
    pub fn init() -> (r: PauseAll)
        ensures
            r@.pausable_contracts == Seq::<u64>::empty(),
            r@.current_operation == OngoingOperation::NoOperation,
            distinct_addresses(r@.pausable_contracts),
    {
        let r = PauseAll {
            pausable_contracts: Vec::new(),
            current_operation: OngoingOperation::NoOperation,
        };
        assert(r@.pausable_contracts =~= Seq::<u64>::empty());
        r
    }

    /// Registers every given address, ignoring those already present.
    pub fn add_pausable_contracts(&mut self, pausable_sc_addr: &Vec<u64>)
        requires
            distinct_addresses(old(self)@.pausable_contracts),
        ensures
            distinct_addresses(final(self)@.pausable_contracts),
            forall|a: u64|
                final(self)@.pausable_contracts.contains(a) <==> (old(self)@.pausable_contracts.contains(a) || pausable_sc_addr@.contains(a)),
            final(self)@.current_operation == old(self)@.current_operation,
    {
        let mut i: usize = 0;
        while i < pausable_sc_addr.len()
            invariant
                i <= pausable_sc_addr@.len(),
                distinct_addresses(self@.pausable_contracts),
                self@.current_operation == old(self)@.current_operation,
                forall|a: u64|
                    self@.pausable_contracts.contains(a) <==> (old(self)@.pausable_contracts.contains(a) || (exists|k: int|
                        0 <= k < i && pausable_sc_addr@[k] == a)),
            decreases pausable_sc_addr@.len() - i,
        {
            let addr = pausable_sc_addr[i];
            let ghost before = self@.pausable_contracts;
            if !crate::pair::vec_contains(&self.pausable_contracts, addr) {
                self.pausable_contracts.push(addr);
                proof {
                    assert(self@.pausable_contracts == before.push(addr));
                    assert forall|a: u64| #[trigger]
                        self@.pausable_contracts.contains(a) implies (before.contains(a) || a
                        == addr) by {
                        let idx = choose|idx: int|
                            0 <= idx < self@.pausable_contracts.len()
                                && self@.pausable_contracts[idx] == a;
                        if idx < before.len() {
                            assert(before[idx] == a);
                        }
                    }
                    assert forall|a: u64| (before.contains(a) || a == addr) implies #[trigger]
                        self@.pausable_contracts.contains(a) by {
                        if before.contains(a) {
                            let idx = choose|idx: int|
                                0 <= idx < before.len() && before[idx] == a;
                            assert(self@.pausable_contracts[idx] == a);
                        } else {
                            assert(self@.pausable_contracts[before.len() as int] == a);
                        }
                    }
                    assert(distinct_addresses(self@.pausable_contracts)) by {
                        assert forall|x: int, y: int|
                            0 <= x < y < self@.pausable_contracts.len() implies self@
                            .pausable_contracts[x] != self@.pausable_contracts[y] by {
                            if y == before.len() as int {
                                assert(before.contains(before[x]));
                            }
                        }
                    }
                }
            }
            proof {
                assert forall|a: u64|
                    self@.pausable_contracts.contains(a) <==> (old(self)@.pausable_contracts.contains(a) || (exists|k: int|
                        0 <= k < i + 1 && pausable_sc_addr@[k] == a)) by {
                    if self@.pausable_contracts.contains(a) {
                    }
                    if (exists|k: int| 0 <= k < i + 1 && pausable_sc_addr@[k] == a) {
                        let k = choose|k: int| 0 <= k < i + 1 && pausable_sc_addr@[k] == a;
                        if k == i {
                            assert(pausable_sc_addr@[k] == addr);
                        }
                    }
                }
            }
            i += 1;
        }
        proof {
            assert forall|a: u64|
                self@.pausable_contracts.contains(a) <==> (old(self)@.pausable_contracts.contains(a) || pausable_sc_addr@.contains(a)) by {
                if pausable_sc_addr@.contains(a) {
                    let k = choose|k: int|
                        0 <= k < pausable_sc_addr@.len() && pausable_sc_addr@[k] == a;
                    assert(0 <= k < i && pausable_sc_addr@[k] == a);
                }
            }
        }
    }

    /// Deregisters every given address; absent ones are ignored.
    pub fn remove_pausable_contracts(&mut self, pausable_sc_addr: &Vec<u64>)
        requires
            distinct_addresses(old(self)@.pausable_contracts),
        ensures
            distinct_addresses(final(self)@.pausable_contracts),
            forall|a: u64|
                final(self)@.pausable_contracts.contains(a) <==> (old(self)@.pausable_contracts.contains(a) && !pausable_sc_addr@.contains(a)),
            final(self)@.current_operation == old(self)@.current_operation,
    {
        let mut kept: Vec<u64> = Vec::new();
        let mut i: usize = 0;
        while i < self.pausable_contracts.len()
            invariant
                i <= self@.pausable_contracts.len(),
                distinct_addresses(self@.pausable_contracts),
                distinct_addresses(kept@),
                forall|a: u64|
                    kept@.contains(a) <==> ((exists|k: int|
                        0 <= k < i && self@.pausable_contracts[k] == a)
                        && !pausable_sc_addr@.contains(a)),
            decreases self@.pausable_contracts.len() - i,
        {
            let addr = self.pausable_contracts[i];
            let ghost before = kept@;
            if !crate::pair::vec_contains(pausable_sc_addr, addr) {
                proof {
                    if before.contains(addr) {
                        let k = choose|k: int|
                            0 <= k < i && self@.pausable_contracts[k] == addr;
                        assert(self@.pausable_contracts[k] == self@.pausable_contracts[i as int]);
                    }
                }
                kept.push(addr);
                proof {
                    assert(kept@ == before.push(addr));
                    assert forall|a: u64| #[trigger] kept@.contains(a) implies (before.contains(a)
                        || a == addr) by {
                        let idx = choose|idx: int|
                            0 <= idx < kept@.len() && kept@[idx] == a;
                        if idx < before.len() {
                            assert(before[idx] == a);
                        }
                    }
                    assert forall|a: u64| (before.contains(a) || a == addr) implies #[trigger]
                        kept@.contains(a) by {
                        if before.contains(a) {
                            let idx = choose|idx: int|
                                0 <= idx < before.len() && before[idx] == a;
                            assert(kept@[idx] == a);
                        } else {
                            assert(kept@[before.len() as int] == a);
                        }
                    }
                    assert(distinct_addresses(kept@)) by {
                        assert forall|x: int, y: int|
                            0 <= x < y < kept@.len() implies kept@[x] != kept@[y] by {
                            if y == before.len() as int {
                                assert(before.contains(before[x]));
                            }
                        }
                    }
                }
            }
            proof {
                assert forall|a: u64|
                    kept@.contains(a) <==> ((exists|k: int|
                        0 <= k < i + 1 && self@.pausable_contracts[k] == a)
                        && !pausable_sc_addr@.contains(a)) by {
                    if (exists|k: int| 0 <= k < i + 1 && self@.pausable_contracts[k] == a)
                        && !pausable_sc_addr@.contains(a) {
                        let k = choose|k: int|
                            0 <= k < i + 1 && self@.pausable_contracts[k] == a;
                        if k == i {
                            assert(self@.pausable_contracts[k] == addr);
                        }
                    }
                }
            }
            i += 1;
        }
        proof {
            assert forall|a: u64|
                kept@.contains(a) <==> (self@.pausable_contracts.contains(a)
                    && !pausable_sc_addr@.contains(a)) by {
                if self@.pausable_contracts.contains(a) && !pausable_sc_addr@.contains(a) {
                    let k = choose|k: int|
                        0 <= k < self@.pausable_contracts.len() && self@.pausable_contracts[k]
                            == a;
                    assert(0 <= k < i && self@.pausable_contracts[k] == a);
                }
            }
        }
        self.pausable_contracts = kept;
    }

    /// The registered addresses among the given ones, in the order
    /// given: the host pauses each of them.
    pub fn pause_selected(&self, pausable_sc_addr: &Vec<u64>) -> (r: Vec<u64>)
        ensures
            r@ == selected_addresses(self@.pausable_contracts, pausable_sc_addr@),
            forall|a: u64|
                r@.contains(a) <==> (pausable_sc_addr@.contains(a)
                    && self@.pausable_contracts.contains(a)),
    {
        self.select_registered(pausable_sc_addr)
    }

    /// The registered addresses among the given ones, in the order
    /// given: the host resumes each of them.
    pub fn resume_selected(&self, pausable_sc_addr: &Vec<u64>) -> (r: Vec<u64>)
        ensures
            r@ == selected_addresses(self@.pausable_contracts, pausable_sc_addr@),
            forall|a: u64|
                r@.contains(a) <==> (pausable_sc_addr@.contains(a)
                    && self@.pausable_contracts.contains(a)),
    {
        self.select_registered(pausable_sc_addr)
    }

    fn select_registered(&self, pausable_sc_addr: &Vec<u64>) -> (r: Vec<u64>)
        ensures
            r@ == selected_addresses(self@.pausable_contracts, pausable_sc_addr@),
            forall|a: u64|
                r@.contains(a) <==> (pausable_sc_addr@.contains(a)
                    && self@.pausable_contracts.contains(a)),
    {
        let mut selected: Vec<u64> = Vec::new();
        let mut i: usize = 0;
        while i < pausable_sc_addr.len()
            invariant
                i <= pausable_sc_addr@.len(),
                selected@ == selected_addresses(
                    self@.pausable_contracts,
                    pausable_sc_addr@.take(i as int),
                ),
                forall|a: u64|
                    selected@.contains(a) <==> ((exists|k: int|
                        0 <= k < i && pausable_sc_addr@[k] == a)
                        && self@.pausable_contracts.contains(a)),
            decreases pausable_sc_addr@.len() - i,
        {
            let addr = pausable_sc_addr[i];
            let ghost before = selected@;
            proof {
                let prefix = pausable_sc_addr@.take(i + 1);
                assert(prefix.drop_last() =~= pausable_sc_addr@.take(i as int));
                assert(prefix.last() == addr);
            }
            if crate::pair::vec_contains(&self.pausable_contracts, addr) {
                selected.push(addr);
                proof {
                    assert(selected@ == before.push(addr));
                    assert forall|a: u64| #[trigger] selected@.contains(a) implies (
                    before.contains(a) || a == addr) by {
                        let idx = choose|idx: int|
                            0 <= idx < selected@.len() && selected@[idx] == a;
                        if idx < before.len() {
                            assert(before[idx] == a);
                        }
                    }
                    assert forall|a: u64| (before.contains(a) || a == addr) implies #[trigger]
                        selected@.contains(a) by {
                        if before.contains(a) {
                            let idx = choose|idx: int|
                                0 <= idx < before.len() && before[idx] == a;
                            assert(selected@[idx] == a);
                        } else {
                            assert(selected@[before.len() as int] == a);
                        }
                    }
                }
            }
            proof {
                assert forall|a: u64|
                    selected@.contains(a) <==> ((exists|k: int|
                        0 <= k < i + 1 && pausable_sc_addr@[k] == a)
                        && self@.pausable_contracts.contains(a)) by {
                    if (exists|k: int| 0 <= k < i + 1 && pausable_sc_addr@[k] == a) && self@
                        .pausable_contracts.contains(a) {
                        let k = choose|k: int| 0 <= k < i + 1 && pausable_sc_addr@[k] == a;
                        if k == i {
                            assert(pausable_sc_addr@[k] == addr);
                        }
                    }
                }
            }
            i += 1;
        }
        proof {
            assert(pausable_sc_addr@.take(i as int) =~= pausable_sc_addr@);
            assert forall|a: u64|
                selected@.contains(a) <==> (pausable_sc_addr@.contains(a)
                    && self@.pausable_contracts.contains(a)) by {
                if pausable_sc_addr@.contains(a) && self@.pausable_contracts.contains(a) {
                    let k = choose|k: int|
                        0 <= k < pausable_sc_addr@.len() && pausable_sc_addr@[k] == a;
                    assert(0 <= k < i && pausable_sc_addr@[k] == a);
                }
            }
        }
        selected
    }

    /// Continues (or starts) the sweep that pauses every registered
    /// contract, handing out at most `max_calls` addresses: the host
    /// pauses each of them. Returns `Completed` when the sweep reached
    /// the end, else saves its progress and returns interrupted.
    pub fn pause_all(&mut self, max_calls: usize) -> (r: (Vec<u64>, OperationCompletionStatus))
        ensures
            final(self)@.pausable_contracts == old(self)@.pausable_contracts,
            ({
                let start = pause_all_start(old(self)@.current_operation);
                let len = old(self)@.pausable_contracts.len() as int;
                let begin = if start <= len {
                    start
                } else {
                    len
                };
                let end = if begin + max_calls <= len {
                    begin + max_calls
                } else {
                    len
                };
                &&& r.0@ == old(self)@.pausable_contracts.subrange(begin, end)
                &&& (end == len ==> r.1 == OperationCompletionStatus::Completed && final(self)@.current_operation == OngoingOperation::NoOperation)
                &&& (end < len ==> r.1 == OperationCompletionStatus::InterruptedBeforeOutOfGas
                    && final(self)@.current_operation == (OngoingOperation::PauseAll {
                    addr_index: end as usize,
                }))
            }),
    {
        let start = match self.current_operation {
            OngoingOperation::PauseAll { addr_index } => addr_index,
            _ => 0,
        };
        let (batch, end) = self.sweep_batch(start, max_calls);
        if end == self.pausable_contracts.len() {
            self.current_operation = OngoingOperation::NoOperation;
            (batch, OperationCompletionStatus::Completed)
        } else {
            self.current_operation = OngoingOperation::PauseAll { addr_index: end };
            (batch, OperationCompletionStatus::InterruptedBeforeOutOfGas)
        }
    }

    /// Continues (or starts) the sweep that resumes every registered
    /// contract, handing out at most `max_calls` addresses: the host
    /// resumes each of them.
    pub fn resume_all(&mut self, max_calls: usize) -> (r: (Vec<u64>, OperationCompletionStatus))
        ensures
            final(self)@.pausable_contracts == old(self)@.pausable_contracts,
            ({
                let start = resume_all_start(old(self)@.current_operation);
                let len = old(self)@.pausable_contracts.len() as int;
                let begin = if start <= len {
                    start
                } else {
                    len
                };
                let end = if begin + max_calls <= len {
                    begin + max_calls
                } else {
                    len
                };
                &&& r.0@ == old(self)@.pausable_contracts.subrange(begin, end)
                &&& (end == len ==> r.1 == OperationCompletionStatus::Completed && final(self)@.current_operation == OngoingOperation::NoOperation)
                &&& (end < len ==> r.1 == OperationCompletionStatus::InterruptedBeforeOutOfGas
                    && final(self)@.current_operation == (OngoingOperation::ResumeAll {
                    addr_index: end as usize,
                }))
            }),
    {
        let start = match self.current_operation {
            OngoingOperation::ResumeAll { addr_index } => addr_index,
            _ => 0,
        };
        let (batch, end) = self.sweep_batch(start, max_calls);
        if end == self.pausable_contracts.len() {
            self.current_operation = OngoingOperation::NoOperation;
            (batch, OperationCompletionStatus::Completed)
        } else {
            self.current_operation = OngoingOperation::ResumeAll { addr_index: end };
            (batch, OperationCompletionStatus::InterruptedBeforeOutOfGas)
        }
    }

    /// The slice of at most `max_calls` registered addresses starting
    /// at `start`, and the index at which the next batch continues.
    fn sweep_batch(&self, start: usize, max_calls: usize) -> (r: (Vec<u64>, usize))
        ensures
            ({
                let len = self@.pausable_contracts.len() as int;
                let begin = if start <= len {
                    start as int
                } else {
                    len
                };
                let end = if begin + max_calls <= len {
                    begin + max_calls
                } else {
                    len
                };
                &&& r.0@ == self@.pausable_contracts.subrange(begin, end)
                &&& r.1 == end
            }),
    {
        let len = self.pausable_contracts.len();
        let begin = if start <= len {
            start
        } else {
            len
        };
        let end = if max_calls <= len - begin {
            begin + max_calls
        } else {
            len
        };
        let mut batch: Vec<u64> = Vec::new();
        let mut i: usize = begin;
        while i < end
            invariant
                begin <= i <= end,
                end <= self@.pausable_contracts.len(),
                batch@ == self@.pausable_contracts.subrange(begin as int, i as int),
            decreases end - i,
        {
            batch.push(self.pausable_contracts[i]);
            proof {
                assert(batch@ =~= self@.pausable_contracts.subrange(begin as int, i + 1));
            }
            i += 1;
        }
        proof {
            assert(batch@ =~= self@.pausable_contracts.subrange(begin as int, end as int));
        }
        (batch, end)
    }
}

} // verus!
