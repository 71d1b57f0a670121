//! The computation gateway: the asynchronous request/callback protocol
//! between the ledger and the confidential cluster.
//!
//! A caller queues a computation under a caller-chosen ticket; the cluster
//! later delivers exactly one result for that ticket, and the gateway hands
//! back the continuation registered for it. A ticket is pending at most once,
//! and once consumed it can be neither re-queued nor re-delivered.

use vstd::prelude::*;
use crate::errors::ErrorCode;

verus! {

/// One argument of a computation request: an opaque 32-byte ciphertext or a
/// plaintext scalar, in the order the circuit expects.
#[derive(Clone, Copy, PartialEq, Eq, Debug)]
pub enum Argument {
    ArcisPubkey([u8; 32]),
    PlaintextU128(u128),
    PlaintextU8(u8),
    PlaintextBool(bool),
    EncryptedU8([u8; 32]),
    EncryptedU64([u8; 32]),
}

/// The continuation to invoke when a computation's result is delivered: one
/// per computation kind.
#[derive(Clone, Copy, PartialEq, Eq, Structural, Debug)]
pub enum CallbackKind {
    AddTogether,
    RelayOfferClone,
    ConfidentialDepositNative,
    InterchainOriginEvmDepositSellerSpl,
    FinalizeInterchainOriginEvmOffer,
    DepositSellerNative,
    DepositSellerSpl,
    FinalizeIntrachainOffer,
    SubmitOrder,
    MatchOrders,
    CancelOrder,
    SettleMatch,
}

/// A computation request: the caller-chosen ticket, the ordered argument
/// list, and the continuation to invoke on completion.
#[derive(Clone, PartialEq, Eq, Debug)]
pub struct ComputationRequest {
    pub ticket: u64,
    pub encrypted_args: Vec<Argument>,
    pub continuation: CallbackKind,
}

/// The ticket registry. Each ticket moves from pending to completed at most
/// once; the registry remembers consumed tickets so they cannot be reused.
pub struct Gateway {
    cluster_set: bool,
    pending: Vec<(u64, CallbackKind)>,
    completed: Vec<u64>,
}

impl Gateway {
    /// Whether a cluster is configured to take computations.
    pub closed spec fn cluster_is_set(self) -> bool {
        self.cluster_set
    }

    /// Whether `t` has a queued computation whose result has not arrived.
    pub closed spec fn is_pending(self, t: u64) -> bool {
        exists|k: int| 0 <= k < self.pending@.len() && self.pending@[k].0 == t
    }

    /// The continuation registered for a pending ticket.
    pub closed spec fn pending_continuation(self, t: u64) -> CallbackKind {
        self.pending@[choose|k: int| 0 <= k < self.pending@.len() && self.pending@[k].0 == t].1
    }

    /// Whether `t` has already received its one delivery.
    pub closed spec fn is_completed(self, t: u64) -> bool {
        exists|k: int| 0 <= k < self.completed@.len() && self.completed@[k] == t
    }

    /// The registry's invariant: pending tickets are distinct, and no ticket
    /// is both pending and completed.
    pub closed spec fn wf(self) -> bool {
        &&& forall|a: int, b: int|
            0 <= a < b < self.pending@.len() ==> (#[trigger] self.pending@[a]).0 != (
            #[trigger] self.pending@[b]).0
        &&& forall|a: int, b: int|
            0 <= a < self.pending@.len() && 0 <= b < self.completed@.len() ==> (
            #[trigger] self.pending@[a]).0 != #[trigger] self.completed@[b]
    }

    /// An empty registry: no cluster, nothing pending, nothing completed.
    pub fn new() -> (g: Gateway)
        ensures
            g.wf(),
            !g.cluster_is_set(),
            forall|t: u64| !g.is_pending(t),
            forall|t: u64| !g.is_completed(t),
    {
        Gateway { cluster_set: false, pending: Vec::new(), completed: Vec::new() }
    }

    /// Marks a cluster as configured. The registry is untouched.
    pub fn set_cluster(&mut self)
        requires
            old(self).wf(),
        ensures
            final(self).wf(),
            final(self).cluster_is_set(),
            forall|t: u64| final(self).is_pending(t) == old(self).is_pending(t),
            forall|t: u64|
                final(self).is_pending(t) ==> final(self).pending_continuation(t) == old(self).pending_continuation(t),
            forall|t: u64| final(self).is_completed(t) == old(self).is_completed(t),
    {
        self.cluster_set = true;
        proof {
            assert forall|t: u64| self.is_pending(t) == old(self).is_pending(t) by {
                if old(self).is_pending(t) {
                    let k = choose|k: int|
                        0 <= k < old(self).pending@.len() && old(self).pending@[k].0 == t;
                    assert(self.pending@[k].0 == t);
                }
                if self.is_pending(t) {
                    let k = choose|k: int|
                        0 <= k < self.pending@.len() && self.pending@[k].0 == t;
                    assert(old(self).pending@[k].0 == t);
                }
            }
            assert forall|t: u64| self.is_completed(t) == old(self).is_completed(t) by {
                if old(self).is_completed(t) {
                    let k = choose|k: int|
                        0 <= k < old(self).completed@.len() && old(self).completed@[k] == t;
                    assert(self.completed@[k] == t);
                }
                if self.is_completed(t) {
                    let k = choose|k: int|
                        0 <= k < self.completed@.len() && self.completed@[k] == t;
                    assert(old(self).completed@[k] == t);
                }
            }
            assert forall|t: u64| self.is_pending(t) implies self.pending_continuation(t)
                == old(self).pending_continuation(t) by {
                let ka = choose|k: int|
                    0 <= k < self.pending@.len() && self.pending@[k].0 == t;
                let kb = choose|k: int|
                    0 <= k < old(self).pending@.len() && old(self).pending@[k].0 == t;
                if ka < kb {
                    assert(self.pending@[ka].0 != self.pending@[kb].0);
                } else if kb < ka {
                    assert(self.pending@[kb].0 != self.pending@[ka].0);
                }
            }
        }
    }

    fn find_pending(&self, ticket: u64) -> (r: Option<usize>)
        ensures
            match r {
                Some(k) => k < self.pending@.len() && self.pending@[k as int].0 == ticket,
                None => !self.is_pending(ticket),
            },
    {
        let mut k: usize = 0;
        while k < self.pending.len()
            invariant
                k <= self.pending@.len(),
                forall|j: int| 0 <= j < k as int ==> (#[trigger] self.pending@[j]).0 != ticket,
            decreases self.pending@.len() - k as int,
        {
            if self.pending[k].0 == ticket {
                return Some(k);
            }
            k += 1;
        }
        None
    }

    fn find_completed(&self, ticket: u64) -> (b: bool)
        ensures
            b == self.is_completed(ticket),
    {
        let mut k: usize = 0;
        while k < self.completed.len()
            invariant
                k <= self.completed@.len(),
                forall|j: int| 0 <= j < k as int ==> #[trigger] self.completed@[j] != ticket,
            decreases self.completed@.len() - k as int,
        {
            if self.completed[k] == ticket {
                return true;
            }
            k += 1;
        }
        false
    }

    /// Registers a computation request. Fails with `ClusterNotSet` when no
    /// cluster is configured, and with `DuplicateTicket` when the ticket is
    /// already in flight or already consumed; either failure leaves the
    /// registry unchanged. Otherwise the request's ticket becomes pending
    /// under its continuation and the call returns at once: submission never
    /// blocks on the result.
    pub fn queue(&mut self, req: &ComputationRequest) -> (r: Result<(), ErrorCode>)
        requires
            old(self).wf(),
        ensures
            final(self).wf(),
            final(self).cluster_is_set() == old(self).cluster_is_set(),
            !old(self).cluster_is_set() ==> r == Err::<(), ErrorCode>(ErrorCode::ClusterNotSet)
                && *final(self) == *old(self),
            old(self).cluster_is_set() && (old(self).is_pending(req.ticket) || old(self).is_completed(req.ticket)) ==> r == Err::<(), ErrorCode>(ErrorCode::DuplicateTicket)
                && *final(self) == *old(self),
            old(self).cluster_is_set() && !old(self).is_pending(req.ticket) && !old(self).is_completed(req.ticket) ==> {
                &&& r == Ok::<(), ErrorCode>(())
                &&& final(self).is_pending(req.ticket)
                &&& final(self).pending_continuation(req.ticket) == req.continuation
                &&& forall|u: u64|
                    u != req.ticket ==> final(self).is_pending(u) == old(self).is_pending(u)
                &&& forall|u: u64|
                    u != req.ticket && old(self).is_pending(u) ==> final(self).pending_continuation(u) == old(self).pending_continuation(u)
                &&& forall|u: u64| final(self).is_completed(u) == old(self).is_completed(u)
            },
    {
        if !self.cluster_set {
            return Err(ErrorCode::ClusterNotSet);
        }
        let already_pending = self.find_pending(req.ticket).is_some();
        let already_completed = self.find_completed(req.ticket);
        if already_pending || already_completed {
            return Err(ErrorCode::DuplicateTicket);
        }
        let ghost before = self.pending@;
        self.pending.push((req.ticket, req.continuation));
        proof {
            let t = req.ticket;
            let n = before.len() as int;
            assert(self.pending@[n] == (t, req.continuation));
            assert(self.is_pending(t));
            assert forall|a: int| 0 <= a < n implies before[a].0 != t by {
                if before[a].0 == t {
                    assert(old(self).is_pending(t));
                }
            }
            assert(self.pending_continuation(t) == req.continuation) by {
                let k = choose|k: int|
                    0 <= k < self.pending@.len() && self.pending@[k].0 == t;
                if k < n {
                    assert(before[k].0 == t);
                }
            }
            assert forall|u: u64| u != t implies self.is_pending(u) == old(self).is_pending(
                u,
            ) by {
                if old(self).is_pending(u) {
                    let k = choose|k: int|
                        0 <= k < before.len() && before[k].0 == u;
                    assert(self.pending@[k].0 == u);
                }
                if self.is_pending(u) {
                    let k = choose|k: int|
                        0 <= k < self.pending@.len() && self.pending@[k].0 == u;
                    assert(k != n);
                    assert(before[k].0 == u);
                }
            }
            assert forall|u: u64| u != t && old(self).is_pending(u) implies self
                .pending_continuation(u) == old(self).pending_continuation(u) by {
                let k0 = choose|k: int|
                    0 <= k < before.len() && before[k].0 == u;
                assert(self.pending@[k0].0 == u);
                let k1 = choose|k: int|
                    0 <= k < self.pending@.len() && self.pending@[k].0 == u;
                assert(k1 != n);
                assert(before[k1].0 == u);
                if k0 < k1 {
                    assert(before[k0].0 != before[k1].0);
                } else if k1 < k0 {
                    assert(before[k1].0 != before[k0].0);
                }
            }
            assert forall|u: u64| self.is_completed(u) == old(self).is_completed(u) by {
                if old(self).is_completed(u) {
                    let k = choose|k: int|
                        0 <= k < old(self).completed@.len() && old(self).completed@[k] == u;
                    assert(self.completed@[k] == u);
                }
                if self.is_completed(u) {
                    let k = choose|k: int|
                        0 <= k < self.completed@.len() && self.completed@[k] == u;
                    assert(old(self).completed@[k] == u);
                }
            }
            assert forall|a: int, b: int| 0 <= a < b < self.pending@.len() implies (
            #[trigger] self.pending@[a]).0 != (#[trigger] self.pending@[b]).0 by {
                if b < n {
                    assert(before[a].0 != before[b].0);
                } else {
                    assert(self.pending@[a] == before[a]);
                }
            }
            assert forall|a: int, b: int|
                0 <= a < self.pending@.len() && 0 <= b < self.completed@.len() implies (
            #[trigger] self.pending@[a]).0 != #[trigger] self.completed@[b] by {
                if a < n {
                    assert(before[a].0 != self.completed@[b]);
                } else {
                    if self.completed@[b] == t {
                        assert(old(self).is_completed(t));
                    }
                }
            }
        }
        Ok(())
    }

    /// Consumes the one delivery for a ticket. Fails with `UnknownTicket`
    /// when the ticket has no pending computation (never queued, or already
    /// delivered), leaving the registry unchanged. Otherwise the ticket moves
    /// from pending to completed and the registered continuation is handed
    /// back to be invoked with the result.
    pub fn deliver(&mut self, ticket: u64) -> (r: Result<CallbackKind, ErrorCode>)
        requires
            old(self).wf(),
        ensures
            final(self).wf(),
            final(self).cluster_is_set() == old(self).cluster_is_set(),
            !old(self).is_pending(ticket) ==> r == Err::<CallbackKind, ErrorCode>(
                ErrorCode::UnknownTicket,
            ) && *final(self) == *old(self),
            old(self).is_pending(ticket) ==> {
                &&& r == Ok::<CallbackKind, ErrorCode>(old(self).pending_continuation(ticket))
                &&& !final(self).is_pending(ticket)
                &&& final(self).is_completed(ticket)
                &&& forall|u: u64|
                    u != ticket ==> final(self).is_pending(u) == old(self).is_pending(u)
                &&& forall|u: u64|
                    u != ticket && old(self).is_pending(u) ==> final(self).pending_continuation(u)
                        == old(self).pending_continuation(u)
                &&& forall|u: u64|
                    u != ticket ==> final(self).is_completed(u) == old(self).is_completed(u)
            },
    {
        let found = self.find_pending(ticket);
        match found {
            None => Err(ErrorCode::UnknownTicket),
            Some(k) => {
                let ghost before = self.pending@;
                let entry = self.pending.remove(k);
                self.completed.push(ticket);
                proof {
                    let kk = k as int;
                    let compl_before = old(self).completed@;
                    assert(before[kk].0 == ticket);
                    assert forall|a: int, b: int|
                        0 <= a < b < self.pending@.len() implies (#[trigger] self.pending@[a]).0
                        != (#[trigger] self.pending@[b]).0 by {
                        let a0 = if a < kk { a } else { a + 1 };
                        let b0 = if b < kk { b } else { b + 1 };
                        assert(self.pending@[a] == before[a0]);
                        assert(self.pending@[b] == before[b0]);
                    }
                    assert(entry == before[kk]);
                    assert(entry.1 == old(self).pending_continuation(ticket)) by {
                        let k1 = choose|j: int|
                            0 <= j < before.len() && before[j].0 == ticket;
                        assert(before[k1].0 == ticket);
                        if k1 < kk {
                            assert(before[k1].0 != before[kk].0);
                        } else if k1 > kk {
                            assert(before[kk].0 != before[k1].0);
                        }
                    }
                    assert(!self.is_pending(ticket)) by {
                        if self.is_pending(ticket) {
                            let j = choose|j: int|
                                0 <= j < self.pending@.len() && self.pending@[j].0 == ticket;
                            let j0 = if j < kk { j } else { j + 1 };
                            assert(self.pending@[j] == before[j0]);
                            assert(before[j0].0 == ticket);
                            if j0 < kk {
                                assert(before[j0].0 != before[kk].0);
                            } else {
                                assert(before[kk].0 != before[j0].0);
                            }
                        }
                    }
                    assert(self.is_completed(ticket)) by {
                        assert(self.completed@[compl_before.len() as int] == ticket);
                    }
                    assert forall|u: u64| u != ticket implies self.is_pending(u) == old(self).is_pending(u) by {
                        if old(self).is_pending(u) {
                            let j = choose|j: int|
                                0 <= j < before.len() && before[j].0 == u;
                            let j1 = if j < kk { j } else { j - 1 };
                            assert(j != kk);
                            assert(self.pending@[j1] == before[j]);
                        }
                        if self.is_pending(u) {
                            let j = choose|j: int|
                                0 <= j < self.pending@.len() && self.pending@[j].0 == u;
                            let j0 = if j < kk { j } else { j + 1 };
                            assert(self.pending@[j] == before[j0]);
                            assert(before[j0].0 == u);
                        }
                    }
                    assert forall|u: u64| u != ticket && old(self).is_pending(u) implies self
                        .pending_continuation(u) == old(self).pending_continuation(u) by {
                        let ja = choose|j: int|
                            0 <= j < before.len() && before[j].0 == u;
                        let jb = choose|j: int|
                            0 <= j < self.pending@.len() && self.pending@[j].0 == u;
                        let jb0 = if jb < kk { jb } else { jb + 1 };
                        assert(self.pending@[jb] == before[jb0]);
                        assert(before[jb0].0 == u);
                        if ja < jb0 {
                            assert(before[ja].0 != before[jb0].0);
                        } else if ja > jb0 {
                            assert(before[jb0].0 != before[ja].0);
                        }
                    }
                    assert forall|u: u64| u != ticket implies self.is_completed(u) == old(self).is_completed(u) by {
                        if old(self).is_completed(u) {
                            let j = choose|j: int|
                                0 <= j < compl_before.len() && compl_before[j] == u;
                            assert(self.completed@[j] == u);
                        }
                        if self.is_completed(u) {
                            let j = choose|j: int|
                                0 <= j < self.completed@.len() && self.completed@[j] == u;
                            assert(j != compl_before.len() as int);
                            assert(compl_before[j] == u);
                        }
                    }
                    assert forall|a: int, b: int|
                        0 <= a < self.pending@.len() && 0 <= b < self.completed@.len() implies (
                    #[trigger] self.pending@[a]).0 != #[trigger] self.completed@[b] by {
                        let a0 = if a < kk { a } else { a + 1 };
                        assert(self.pending@[a] == before[a0]);
                        if b < compl_before.len() as int {
                            assert(before[a0].0 != compl_before[b]);
                        } else {
                            assert(self.completed@[b] == ticket);
                            if a0 < kk {
                                assert(before[a0].0 != before[kk].0);
                            } else {
                                assert(before[kk].0 != before[a0].0);
                            }
                        }
                    }
                }
                Ok(entry.1)
            },
        }
    }
}

/// Once a ticket is consumed it is no longer pending, so a further delivery
/// for it is refused as unknown and a further queue under it is refused as a
/// duplicate.
pub proof fn lemma_ticket_consumed_once(g: Gateway, t: u64)
    requires
        g.wf(),
        g.is_completed(t),
    ensures
        !g.is_pending(t),
{
}

} // verus!
