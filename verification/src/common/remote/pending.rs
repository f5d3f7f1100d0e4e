//! The table of requests that wait for their response.

use vstd::prelude::*;

verus! {

/// A request that was sent and waits for its response.
#[derive(Debug, PartialEq, Eq)]
pub struct PendingRequest {
    /// The token that the response will carry.
    pub request_id: String,
    /// The completion handle: names the caller that waits.
    pub handle: u64,
    /// The time, in milliseconds, from which on the request counts as
    /// timed out.
    pub deadline_ms: u64,
}

impl Clone for PendingRequest {
    fn clone(&self) -> (r: Self)
        ensures
            r == *self,
    {
        PendingRequest {
            request_id: self.request_id.clone(),
            handle: self.handle,
            deadline_ms: self.deadline_ms,
        }
    }
}

/// Whether a request under `request_id` is among `pending`.
pub open spec fn is_pending(pending: Seq<PendingRequest>, request_id: Seq<char>) -> bool {
    exists|i: int| 0 <= i < pending.len() && (#[trigger] pending[i]).request_id@ == request_id
}

/// Where the request under `request_id` is among `pending`, if it is.
pub open spec fn pending_position(pending: Seq<PendingRequest>, request_id: Seq<char>) -> int {
    choose|i: int| 0 <= i < pending.len() && (#[trigger] pending[i]).request_id@ == request_id
}

/// No two requests share a request id.
pub open spec fn unique_ids(pending: Seq<PendingRequest>) -> bool {
    forall|i: int, j: int|
        0 <= i < pending.len() && 0 <= j < pending.len() && i != j ==> (
        #[trigger] pending[i]).request_id@ != (#[trigger] pending[j]).request_id@
}

/// Whether `request` has timed out at the time `now_ms`.
pub open spec fn is_expired(request: PendingRequest, now_ms: u64) -> bool {
    request.deadline_ms <= now_ms
}

/// The requests among `pending` that have timed out at `now_ms`, in the
/// order in which they were sent.
pub open spec fn expired(pending: Seq<PendingRequest>, now_ms: u64) -> Seq<PendingRequest> {
    pending.filter(|request: PendingRequest| is_expired(request, now_ms))
}

/// The requests among `pending` that have not timed out at `now_ms`, in
/// the order in which they were sent.
pub open spec fn unexpired(pending: Seq<PendingRequest>, now_ms: u64) -> Seq<PendingRequest> {
    pending.filter(|request: PendingRequest| !is_expired(request, now_ms))
}

/// Among requests with unique ids, a request is found at one place only.
pub proof fn lemma_pending_position(pending: Seq<PendingRequest>, request_id: Seq<char>, i: int)
    requires
        unique_ids(pending),
        0 <= i < pending.len(),
        pending[i].request_id@ == request_id,
    ensures
        is_pending(pending, request_id),
        pending_position(pending, request_id) == i,
{
    let p = pending_position(pending, request_id);
    assert(0 <= p < pending.len() && pending[p].request_id@ == request_id);
}

/// What is picked out of requests with unique ids has unique ids, and
/// holds no request that the whole did not hold.
pub proof fn lemma_filter_unique(
    pending: Seq<PendingRequest>,
    pred: spec_fn(PendingRequest) -> bool,
)
    requires
        unique_ids(pending),
    ensures
        unique_ids(pending.filter(pred)),
        forall|id: Seq<char>| #[trigger]
            is_pending(pending.filter(pred), id) ==> is_pending(pending, id),
    decreases pending.len(),
{
    reveal(Seq::filter);
    let out = pending.filter(pred);
    if pending.len() > 0 {
        let front = pending.drop_last();
        assert forall|i: int, j: int|
            0 <= i < front.len() && 0 <= j < front.len() && i != j implies (
            #[trigger] front[i]).request_id@ != (#[trigger] front[j]).request_id@ by {
            assert(front[i] == pending[i]);
            assert(front[j] == pending[j]);
        }
        lemma_filter_unique(front, pred);
        let sub = front.filter(pred);
        assert forall|id: Seq<char>| is_pending(sub, id) implies is_pending(pending, id) by {
            assert(is_pending(front, id));
            let k = choose|k: int| 0 <= k < front.len() && (#[trigger] front[k]).request_id@ == id;
            assert(pending[k] == front[k]);
        }
        if pred(pending.last()) {
            assert(out == sub.push(pending.last()));
            assert forall|i: int, j: int|
                0 <= i < out.len() && 0 <= j < out.len() && i != j implies (
                #[trigger] out[i]).request_id@ != (#[trigger] out[j]).request_id@ by {
                if i < sub.len() && j < sub.len() {
                    assert(out[i] == sub[i]);
                    assert(out[j] == sub[j]);
                } else {
                    let inner = if i < sub.len() {
                        i
                    } else {
                        j
                    };
                    assert(out[inner] == sub[inner]);
                    assert(is_pending(sub, sub[inner].request_id@));
                    let k = choose|k: int|
                        0 <= k < front.len() && (#[trigger] front[k]).request_id@
                            == sub[inner].request_id@;
                    assert(pending[k] == front[k]);
                    assert(pending[pending.len() - 1] == pending.last());
                }
            }
            assert forall|id: Seq<char>| is_pending(out, id) implies is_pending(pending, id) by {
                let k = choose|k: int| 0 <= k < out.len() && (#[trigger] out[k]).request_id@ == id;
                if k < sub.len() {
                    assert(out[k] == sub[k]);
                    assert(is_pending(sub, id));
                } else {
                    assert(pending[pending.len() - 1].request_id@ == id);
                }
            }
        } else {
            assert(out == sub);
        }
    }
}

/// A request that was entered is found under its request id until it is
/// resolved, and resolving it gives the table back as it was before: the
/// request leaves the table exactly once.
pub proof fn lemma_enter_then_resolve(pending: Seq<PendingRequest>, request: PendingRequest)
    requires
        unique_ids(pending),
        !is_pending(pending, request.request_id@),
    ensures
        unique_ids(pending.push(request)),
        is_pending(pending.push(request), request.request_id@),
        pending_position(pending.push(request), request.request_id@) == pending.len(),
        pending.push(request).remove(pending.len() as int) == pending,
{
    let entered = pending.push(request);
    assert forall|i: int, j: int|
        0 <= i < entered.len() && 0 <= j < entered.len() && i != j implies (
        #[trigger] entered[i]).request_id@ != (#[trigger] entered[j]).request_id@ by {
        if i < pending.len() {
            assert(entered[i] == pending[i]);
        }
        if j < pending.len() {
            assert(entered[j] == pending[j]);
        }
    }
    lemma_pending_position(entered, request.request_id@, pending.len() as int);
    assert(entered.remove(pending.len() as int) =~= pending);
}

/// The requests in flight, in the order in which they were sent. No two
/// of them share a request id.
#[derive(Debug)]
pub struct PendingRequestTable {
    pending: Vec<PendingRequest>,
}

impl View for PendingRequestTable {
    type V = Seq<PendingRequest>;

    closed spec fn view(&self) -> Seq<PendingRequest> {
        self.pending@
    }
}

impl PendingRequestTable {
    /// The table is well formed: request ids are unique.
    pub open spec fn wf(&self) -> bool {
        unique_ids(self@)
    }

    /// A table without requests.
    pub fn new() -> (r: Self)
        ensures
            r.wf(),
            r@ == Seq::<PendingRequest>::empty(),
    {
        PendingRequestTable { pending: Vec::new() }
    }

    /// The number of requests in flight.
    pub fn len(&self) -> (r: usize)
        ensures
            r == self@.len(),
    {
        self.pending.len()
    }

    /// Whether no request is in flight.
    pub fn is_empty(&self) -> (r: bool)
        ensures
            r == (self@.len() == 0),
    {
        self.pending.len() == 0
    }

    /// The place of the request under `request_id`, if it is in flight.
    fn find(&self, request_id: &String) -> (r: Option<usize>)
        requires
            self.wf(),
        ensures
            r.is_some() == is_pending(self@, request_id@),
            r.is_some() ==> r.unwrap() == pending_position(self@, request_id@),
            r.is_some() ==> r.unwrap() < self@.len(),
    {
        let n = self.pending.len();
        let mut i: usize = 0;
        while i < n
            invariant
                n == self.pending@.len(),
                i <= n,
                self.wf(),
                forall|j: int|
                    0 <= j < i ==> (#[trigger] self.pending@[j]).request_id@ != request_id@,
            decreases n - i,
        {
            if self.pending[i].request_id == *request_id {
                proof {
                    lemma_pending_position(self@, request_id@, i as int);
                }
                return Some(i);
            }
            i = i + 1;
        }
        None
    }

    /// Whether a request under `request_id` is in flight.
    pub fn contains(&self, request_id: &String) -> (r: bool)
        requires
            self.wf(),
        ensures
            r == is_pending(self@, request_id@),
    {
        self.find(request_id).is_some()
    }

    /// Enters a request that is about to be sent. A request id that is in
    /// flight already is refused, and the table stays as it is.
    pub fn register(&mut self, request_id: String, handle: u64, deadline_ms: u64) -> (entered: bool)
        requires
            old(self).wf(),
        ensures
            final(self).wf(),
            entered == !is_pending(old(self)@, request_id@),
            entered ==> final(self)@ == old(self)@.push(
                PendingRequest { request_id, handle, deadline_ms },
            ),
            !entered ==> final(self)@ == old(self)@,
    {
        if self.find(&request_id).is_some() {
            return false;
        }
        let request = PendingRequest { request_id, handle, deadline_ms };
        proof {
            lemma_enter_then_resolve(self@, request);
        }
        self.pending.push(request);
        true
    }

    /// Takes the request under `request_id` out of the table, when its
    /// response has arrived. A second response under the same id finds
    /// nothing.
    pub fn resolve(&mut self, request_id: &String) -> (r: Option<PendingRequest>)
        requires
            old(self).wf(),
        ensures
            final(self).wf(),
            r.is_some() == is_pending(old(self)@, request_id@),
            !is_pending(final(self)@, request_id@),
            r.is_some() ==> {
                let at = pending_position(old(self)@, request_id@);
                &&& r.unwrap() == old(self)@[at]
                &&& final(self)@ == old(self)@.remove(at)
            },
            r.is_none() ==> final(self)@ == old(self)@,
    {
        match self.find(request_id) {
            Some(i) => {
                let request = self.pending.remove(i);
                proof {
                    let before = old(self)@;
                    let after = self@;
                    assert forall|a: int| 0 <= a < after.len() implies (#[trigger] after[a])
                        == before[if a < i {
                        a
                    } else {
                        a + 1
                    }] by {}
                    assert forall|a: int, b: int|
                        0 <= a < after.len() && 0 <= b < after.len() && a != b implies (
                    #[trigger] after[a]).request_id@ != (#[trigger] after[b]).request_id@ by {
                        let a0 = if a < i {
                            a
                        } else {
                            a + 1
                        };
                        let b0 = if b < i {
                            b
                        } else {
                            b + 1
                        };
                        assert(after[a] == before[a0]);
                        assert(after[b] == before[b0]);
                    }
                    if is_pending(after, request_id@) {
                        let k = pending_position(after, request_id@);
                        let k0 = if k < i {
                            k
                        } else {
                            k + 1
                        };
                        assert(after[k] == before[k0]);
                        assert(before[k0].request_id@ == before[i as int].request_id@);
                    }
                }
                Some(request)
            },
            None => None,
        }
    }

    /// Takes out of the table the requests that have timed out at
    /// `now_ms` and returns them, in the order in which they were sent.
    pub fn sweep_expired(&mut self, now_ms: u64) -> (r: Vec<PendingRequest>)
        requires
            old(self).wf(),
        ensures
            final(self).wf(),
            r@ == expired(old(self)@, now_ms),
            final(self)@ == unexpired(old(self)@, now_ms),
    {
        let ghost due_pred = |request: PendingRequest| is_expired(request, now_ms);
        let ghost live_pred = |request: PendingRequest| !is_expired(request, now_ms);
        let mut due: Vec<PendingRequest> = Vec::new();
        let mut live: Vec<PendingRequest> = Vec::new();
        let n = self.pending.len();
        let mut i: usize = 0;
        proof {
            reveal(Seq::filter);
            assert(self.pending@.subrange(0, 0) =~= Seq::<PendingRequest>::empty());
        }
        while i < n
            invariant
                n == self.pending@.len(),
                i <= n,
                due_pred == |request: PendingRequest| is_expired(request, now_ms),
                live_pred == |request: PendingRequest| !is_expired(request, now_ms),
                due@ == self.pending@.subrange(0, i as int).filter(due_pred),
                live@ == self.pending@.subrange(0, i as int).filter(live_pred),
            decreases n - i,
        {
            let request = self.pending[i].clone();
            proof {
                reveal(Seq::filter);
                let head = self.pending@.subrange(0, i as int);
                let next = self.pending@.subrange(0, i + 1);
                assert(next.drop_last() =~= head);
                assert(next.last() == request);
            }
            if request.deadline_ms <= now_ms {
                due.push(request);
            } else {
                live.push(request);
            }
            i = i + 1;
        }
        proof {
            assert(self.pending@.subrange(0, n as int) =~= self.pending@);
            lemma_filter_unique(self@, live_pred);
        }
        self.pending = live;
        due
    }

    /// Empties the table and returns the requests that were in flight, in
    /// the order in which they were sent.
    pub fn drain(&mut self) -> (r: Vec<PendingRequest>)
        ensures
            final(self).wf(),
            r@ == old(self)@,
            final(self)@ == Seq::<PendingRequest>::empty(),
    {
        let mut taken: Vec<PendingRequest> = Vec::new();
        core::mem::swap(&mut self.pending, &mut taken);
        taken
    }
}

} // verus!
