use vstd::prelude::*;

use crate::dispatch::ToolCallResult;

verus! {

/// Lifecycle of one client session. `Open` accepts inbound tool calls;
/// `Draining` lets in-flight dispatches complete but accepts nothing new;
/// `Closed` is reached only once nothing is in flight.
#[derive(Clone, Copy, Debug, PartialEq, Eq, Structural)]
pub enum SessionState {
    Connecting,
    Open,
    Draining,
    Closed,
}

/// One result pushed on a session's outbound stream, carrying the
/// correlation token of the request it answers so the client can match
/// results to requests whatever order completions happen in.
pub struct ResultEnvelope {
    pub request_id: u64,
    pub result: ToolCallResult,
}

/// Mathematical model of a session: its lifecycle state and the correlation
/// tokens of dispatches accepted and not yet completed, in acceptance order.
pub struct SessionModel {
    pub state: SessionState,
    pub pending: Seq<u64>,
}

/// Well-formedness: pending tokens are distinct, and nothing is in flight
/// before the session opens or after it closes.
pub open spec fn session_wf(m: SessionModel) -> bool {
    &&& (forall|i: int, j: int| 0 <= i < j < m.pending.len() ==> m.pending[i] != m.pending[j])
    &&& (m.state is Connecting ==> m.pending.len() == 0)
    &&& (m.state is Closed ==> m.pending.len() == 0)
}

/// Whether the session takes new inbound tool calls.
pub open spec fn accepts_inbound(m: SessionModel) -> bool {
    m.state is Open
}

/// Whether an inbound call with token `rid` is accepted: only an open
/// session takes it, and a token may not be in flight twice at once.
pub open spec fn spec_accept_ok(m: SessionModel, rid: u64) -> bool {
    accepts_inbound(m) && !m.pending.contains(rid)
}

/// The session after an inbound call with token `rid` arrives.
pub open spec fn spec_accept(m: SessionModel, rid: u64) -> SessionModel {
    if spec_accept_ok(m, rid) {
        SessionModel { state: m.state, pending: m.pending.push(rid) }
    } else {
        m
    }
}

/// The session after its connection is established.
pub open spec fn spec_open(m: SessionModel) -> SessionModel {
    if m.state is Connecting {
        SessionModel { state: SessionState::Open, pending: m.pending }
    } else {
        m
    }
}

/// The session after the shutdown signal (or a client disconnect) reaches
/// it: an open session stops accepting and, if nothing is in flight, closes
/// at once; a session still connecting closes.
pub open spec fn spec_drain(m: SessionModel) -> SessionModel {
    if m.state is Open {
        SessionModel {
            state: if m.pending.len() == 0 {
                SessionState::Closed
            } else {
                SessionState::Draining
            },
            pending: m.pending,
        }
    } else if m.state is Connecting {
        SessionModel { state: SessionState::Closed, pending: m.pending }
    } else {
        m
    }
}

/// `s` with the first occurrence of `x` removed.
pub open spec fn remove_first(s: Seq<u64>, x: u64) -> Seq<u64>
    decreases s.len(),
{
    if s.len() == 0 {
        s
    } else if s[0] == x {
        s.drop_first()
    } else {
        seq![s[0]] + remove_first(s.drop_first(), x)
    }
}

/// Whether completing the dispatch with token `rid` yields an envelope: the
/// dispatch must be in flight, on a session that is open or draining.
pub open spec fn spec_finish_ok(m: SessionModel, rid: u64) -> bool {
    (m.state is Open || m.state is Draining) && m.pending.contains(rid)
}

/// The session after the dispatch with token `rid` completes: the token
/// leaves the pending set, and a draining session whose last dispatch
/// completed closes.
pub open spec fn spec_finish(m: SessionModel, rid: u64) -> SessionModel {
    if spec_finish_ok(m, rid) {
        let p = remove_first(m.pending, rid);
        SessionModel {
            state: if m.state is Draining && p.len() == 0 {
                SessionState::Closed
            } else {
                m.state
            },
            pending: p,
        }
    } else {
        m
    }
}

/// Removing `x` where `s` holds it at `i` and nowhere before is removing the
/// element at `i`.
pub proof fn lemma_remove_first_at(s: Seq<u64>, x: u64, i: int)
    requires
        0 <= i < s.len(),
        s[i] == x,
        forall|j: int| 0 <= j < i ==> s[j] != x,
    ensures
        remove_first(s, x) == s.remove(i),
    decreases i,
{
    if i == 0 {
        assert(remove_first(s, x) =~= s.remove(0));
    } else {
        lemma_remove_first_at(s.drop_first(), x, i - 1);
        assert(remove_first(s, x) =~= s.remove(i));
    }
}

/// Pushing a token not in flight and completing it gives back the pending
/// set as it was.
pub proof fn lemma_remove_first_push_self(s: Seq<u64>, x: u64)
    requires
        !s.contains(x),
    ensures
        remove_first(s.push(x), x) == s,
    decreases s.len(),
{
    if s.len() == 0 {
        assert(remove_first(s.push(x), x) =~= s);
    } else {
        assert(s[0] != x);
        assert(s.push(x)[0] == s[0]);
        assert(s.push(x).drop_first() =~= s.drop_first().push(x));
        assert(!s.drop_first().contains(x)) by {
            if s.drop_first().contains(x) {
                let k = choose|k: int| 0 <= k < s.drop_first().len() && s.drop_first()[k] == x;
                assert(s[k + 1] == x);
            }
        }
        lemma_remove_first_push_self(s.drop_first(), x);
        assert(remove_first(s.push(x), x) =~= s);
    }
}

/// Completing one token does not disturb another token pushed after it.
pub proof fn lemma_remove_first_push_other(s: Seq<u64>, x: u64, y: u64)
    requires
        x != y,
        s.contains(x),
    ensures
        remove_first(s.push(y), x) == remove_first(s, x).push(y),
    decreases s.len(),
{
    assert(s.len() > 0);
    if s[0] == x {
        assert(s.push(y)[0] == x);
        assert(s.push(y).drop_first() =~= s.drop_first().push(y));
        assert(remove_first(s.push(y), x) =~= remove_first(s, x).push(y));
    } else {
        assert(s.push(y)[0] == s[0]);
        assert(s.push(y).drop_first() =~= s.drop_first().push(y));
        assert(s.drop_first().contains(x)) by {
            let k = choose|k: int| 0 <= k < s.len() && s[k] == x;
            assert(s.drop_first()[k - 1] == x);
        }
        lemma_remove_first_push_other(s.drop_first(), x, y);
        assert(remove_first(s.push(y), x) =~= remove_first(s, x).push(y));
    }
}

/// Completing one token does not add or lose any other token.
pub proof fn lemma_remove_first_preserves_others(s: Seq<u64>, x: u64, y: u64)
    requires
        x != y,
    ensures
        remove_first(s, x).contains(y) == s.contains(y),
    decreases s.len(),
{
    if s.len() == 0 {
    } else if s[0] == x {
        assert(remove_first(s, x) == s.drop_first());
        if s.drop_first().contains(y) {
            let k = choose|k: int| 0 <= k < s.drop_first().len() && s.drop_first()[k] == y;
            assert(s[k + 1] == y);
        }
        if s.contains(y) {
            let k = choose|k: int| 0 <= k < s.len() && s[k] == y;
            assert(k != 0);
            assert(s.drop_first()[k - 1] == y);
        }
    } else {
        lemma_remove_first_preserves_others(s.drop_first(), x, y);
        let r = remove_first(s, x);
        assert(r == seq![s[0]] + remove_first(s.drop_first(), x));
        assert(r[0] == s[0]);
        if remove_first(s.drop_first(), x).contains(y) {
            let k = choose|k: int|
                0 <= k < remove_first(s.drop_first(), x).len() && remove_first(s.drop_first(), x)[k]
                    == y;
            assert(r[k + 1] == y);
        }
        if r.contains(y) {
            let k = choose|k: int| 0 <= k < r.len() && r[k] == y;
            if k == 0 {
                assert(s[0] == y);
            } else {
                assert(remove_first(s.drop_first(), x)[k - 1] == y);
            }
        }
        if s.contains(y) {
            let k = choose|k: int| 0 <= k < s.len() && s[k] == y;
            if k != 0 {
                assert(s.drop_first()[k - 1] == y);
            }
        }
        if s.drop_first().contains(y) {
            let k = choose|k: int| 0 <= k < s.drop_first().len() && s.drop_first()[k] == y;
            assert(s[k + 1] == y);
        }
    }
}

/// Completing an in-flight token shortens the pending set by one.
pub proof fn lemma_remove_first_len(s: Seq<u64>, x: u64)
    requires
        s.contains(x),
    ensures
        remove_first(s, x).len() == s.len() - 1,
    decreases s.len(),
{
    if s[0] != x {
        assert(s.drop_first().contains(x)) by {
            let k = choose|k: int| 0 <= k < s.len() && s[k] == x;
            assert(s.drop_first()[k - 1] == x);
        }
        lemma_remove_first_len(s.drop_first(), x);
    }
}

/// Whether the vector holds `x`.
fn vec_contains_u64(v: &Vec<u64>, x: u64) -> (r: bool)
    ensures
        r == v@.contains(x),
{
    let mut i: usize = 0;
    while i < v.len()
        invariant
            i <= v@.len(),
            forall|j: int| 0 <= j < i ==> v@[j] != x,
        decreases v@.len() - i,
    {
        if v[i] == x {
            return true;
        }
        i += 1;
    }
    false
}

/// One connected client: its lifecycle state and the correlation tokens of
/// the dispatches currently in flight.
pub struct Session {
    pub state: SessionState,
    pub pending: Vec<u64>,
}

impl View for Session {
    type V = SessionModel;

    open spec fn view(&self) -> SessionModel {
        SessionModel { state: self.state, pending: self.pending@ }
    }
}

impl Session {
    /// Well-formedness of this session.
    pub open spec fn wf(&self) -> bool {
        session_wf(self@)
    }

    /// A session whose connection is being established.
    pub fn new() -> (s: Session)
        ensures
            s@.state is Connecting,
            s@.pending.len() == 0,
            s.wf(),
    {
        Session { state: SessionState::Connecting, pending: Vec::new() }
    }

    /// Marks the connection established: the session starts taking inbound
    /// tool calls.
    pub fn open(&mut self)
        requires
            old(self).wf(),
        ensures
            final(self).wf(),
            final(self)@ == spec_open(old(self)@),
    {
        if matches!(self.state, SessionState::Connecting) {
            self.state = SessionState::Open;
        }
    }

    /// Takes one inbound tool call with correlation token `rid`. Returns
    /// whether it was accepted: only an open session accepts, and never a
    /// token already in flight.
    pub fn accept(&mut self, rid: u64) -> (accepted: bool)
        requires
            old(self).wf(),
        ensures
            final(self).wf(),
            accepted == spec_accept_ok(old(self)@, rid),
            final(self)@ == spec_accept(old(self)@, rid),
    {
        if !matches!(self.state, SessionState::Open) {
            return false;
        }
        if vec_contains_u64(&self.pending, rid) {
            return false;
        }
        self.pending.push(rid);
        proof {
            assert forall|i: int, j: int|
                0 <= i < j < self.pending@.len() implies self.pending@[i] != self.pending@[j] by {
                if j < self.pending@.len() - 1 {
                    assert(old(self).pending@[i] != old(self).pending@[j]);
                } else {
                    assert(!old(self).pending@.contains(rid));
                    assert(old(self).pending@[i] == self.pending@[i]);
                }
            }
        }
        true
    }

    /// Reacts to the shutdown signal or a client disconnect: stop taking
    /// inbound calls, let in-flight dispatches finish, close once drained.
    pub fn begin_drain(&mut self)
        requires
            old(self).wf(),
        ensures
            final(self).wf(),
            final(self)@ == spec_drain(old(self)@),
    {
        if matches!(self.state, SessionState::Open) {
            if self.pending.len() == 0 {
                self.state = SessionState::Closed;
            } else {
                self.state = SessionState::Draining;
            }
        } else if matches!(self.state, SessionState::Connecting) {
            self.state = SessionState::Closed;
        }
    }

    /// Completes the dispatch with token `rid`, handing its result to the
    /// session's outbound stream as an envelope correlated to `rid`. Yields
    /// an envelope exactly when that dispatch was in flight; a draining
    /// session whose last dispatch completed closes.
    pub fn finish(&mut self, rid: u64, result: ToolCallResult) -> (r: Option<ResultEnvelope>)
        requires
            old(self).wf(),
        ensures
            final(self).wf(),
            final(self)@ == spec_finish(old(self)@, rid),
            r is Some <==> spec_finish_ok(old(self)@, rid),
            (r matches Some(env) ==> env.request_id == rid && env.result == result),
    {
        if !(matches!(self.state, SessionState::Open) || matches!(
            self.state,
            SessionState::Draining,
        )) {
            return None;
        }
        let n = self.pending.len();
        let mut i: usize = 0;
        while i < n
            invariant
                old(self).wf(),
                self.state == old(self).state,
                self.pending@ == old(self).pending@,
                old(self)@.state is Open || old(self)@.state is Draining,
                n == self.pending@.len(),
                i <= n,
                forall|j: int| 0 <= j < i ==> self.pending@[j] != rid,
            decreases n - i,
        {
            if self.pending[i] == rid {
                proof {
                    lemma_remove_first_at(self.pending@, rid, i as int);
                }
                let ghost old_pending = self.pending@;
                self.pending.remove(i);
                proof {
                    assert forall|p: int, q: int|
                        0 <= p < q < self.pending@.len() implies self.pending@[p]
                        != self.pending@[q] by {
                        let pp: int = if p < i { p } else { p + 1 };
                        let qq: int = if q < i { q } else { q + 1 };
                        assert(old_pending[pp] != old_pending[qq]);
                        assert(self.pending@[p] == old_pending[pp]);
                        assert(self.pending@[q] == old_pending[qq]);
                    }
                    assert(old_pending.contains(rid)) by {
                        assert(old_pending[i as int] == rid);
                    }
                }
                if matches!(self.state, SessionState::Draining) && self.pending.len() == 0 {
                    self.state = SessionState::Closed;
                }
                return Some(ResultEnvelope { request_id: rid, result });
            }
            i += 1;
        }
        proof {
            assert(!old(self).pending@.contains(rid));
        }
        None
    }
}

/// Law: concurrent dispatches on one session lose nothing and duplicate
/// nothing. Accepting two distinct correlation tokens on an open session
/// succeeds; each completion yields exactly one envelope carrying its own
/// token (see `Session::finish`); the completions may happen in either
/// order; and afterwards the pending set is exactly what it was before.
pub proof fn lemma_concurrent_dispatches_correlate(m: SessionModel, r1: u64, r2: u64)
    requires
        session_wf(m),
        m.state is Open,
        r1 != r2,
        !m.pending.contains(r1),
        !m.pending.contains(r2),
    ensures
        spec_accept_ok(m, r1),
        spec_accept_ok(spec_accept(m, r1), r2),
        spec_finish_ok(spec_accept(spec_accept(m, r1), r2), r1),
        spec_finish_ok(spec_accept(spec_accept(m, r1), r2), r2),
        spec_finish(spec_finish(spec_accept(spec_accept(m, r1), r2), r1), r2).pending == m.pending,
        spec_finish(spec_finish(spec_accept(spec_accept(m, r1), r2), r2), r1).pending == m.pending,
        !spec_finish(spec_accept(spec_accept(m, r1), r2), r1).pending.contains(r1),
        spec_finish(spec_accept(spec_accept(m, r1), r2), r1).pending.contains(r2),
{
    let p1 = m.pending.push(r1);
    let p12 = p1.push(r2);
    assert(!p1.contains(r2)) by {
        if p1.contains(r2) {
            let k = choose|k: int| 0 <= k < p1.len() && p1[k] == r2;
            if k < m.pending.len() {
                assert(m.pending[k] == r2);
            }
        }
    }
    assert(p1.contains(r1)) by {
        assert(p1[m.pending.len() as int] == r1);
    }
    assert(p12.contains(r1)) by {
        assert(p12[m.pending.len() as int] == r1);
    }
    assert(p12.contains(r2)) by {
        assert(p12[p1.len() as int] == r2);
    }
    // completing r1 first leaves r2 in flight, then completing r2 drains it
    lemma_remove_first_push_other(p1, r1, r2);
    lemma_remove_first_push_self(m.pending, r1);
    assert(remove_first(p12, r1) == m.pending.push(r2));
    assert(m.pending.push(r2).contains(r2)) by {
        assert(m.pending.push(r2)[m.pending.len() as int] == r2);
    }
    assert(!m.pending.push(r2).contains(r1)) by {
        if m.pending.push(r2).contains(r1) {
            let k = choose|k: int|
                0 <= k < m.pending.push(r2).len() && m.pending.push(r2)[k] == r1;
            if k < m.pending.len() {
                assert(m.pending[k] == r1);
            }
        }
    }
    lemma_remove_first_push_self(m.pending, r2);
    // completing r2 first gives back the state with only r1 in flight
    lemma_remove_first_push_self(p1, r2);
    assert(remove_first(p12, r2) == p1);
    lemma_remove_first_push_self(m.pending, r1);
}

/// Law: completing one dispatch loses no other and duplicates none: every
/// other in-flight token stays in flight, the completed token leaves, and a
/// second completion of the same token yields nothing.
pub proof fn lemma_finish_loses_no_other_dispatch(m: SessionModel, rid: u64, other: u64)
    requires
        session_wf(m),
        spec_finish_ok(m, rid),
        other != rid,
    ensures
        spec_finish(m, rid).pending.contains(other) == m.pending.contains(other),
        !spec_finish(m, rid).pending.contains(rid),
        !spec_finish_ok(spec_finish(m, rid), rid),
{
    lemma_remove_first_preserves_others(m.pending, rid, other);
    let k = choose|k: int| 0 <= k < m.pending.len() && m.pending[k] == rid;
    // the tokens in flight are distinct, so `k` is the only occurrence
    assert forall|j: int| 0 <= j < k implies m.pending[j] != rid by {
        assert(m.pending[j] != m.pending[k]);
    }
    lemma_remove_first_at(m.pending, rid, k);
    assert(!m.pending.remove(k).contains(rid)) by {
        if m.pending.remove(k).contains(rid) {
            let q = choose|q: int|
                0 <= q < m.pending.remove(k).len() && m.pending.remove(k)[q] == rid;
            if q < k {
                assert(m.pending[q] == rid);
            } else {
                assert(m.pending[q + 1] == rid);
            }
        }
    }
}

/// Law: once the shutdown signal reaches an open session, no new inbound
/// call is accepted and the session's state is otherwise untouched; every
/// dispatch accepted before the drain still completes and yields its
/// envelope; and the session closes exactly when the last in-flight dispatch
/// has completed, never before.
pub proof fn lemma_drain_rejects_new_but_delivers(m: SessionModel, new_rid: u64, rid: u64)
    requires
        session_wf(m),
        m.state is Open,
        m.pending.contains(rid),
    ensures
        !spec_accept_ok(spec_drain(m), new_rid),
        spec_accept(spec_drain(m), new_rid) == spec_drain(m),
        spec_finish_ok(spec_drain(m), rid),
        !(spec_drain(m).state is Closed),
        spec_finish(spec_drain(m), rid).state is Closed <==> remove_first(m.pending, rid).len()
            == 0,
{
    assert(m.pending.len() > 0);
    lemma_remove_first_len(m.pending, rid);
}

} // verus!
