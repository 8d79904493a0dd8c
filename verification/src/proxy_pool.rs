//! Pool of proxy connections to backend servers.
//!
//! Unlike the send-handle pool, a closed proxy connection is replaced:
//! the pool asks for a reconnection to the same address and for a
//! watcher that marks the old connection cleaned once idle.

use vstd::prelude::*;
use crate::conn::{NORMAL, REJECT, CLOSED, CLEANING, CLEANED, advances, is_least_index, least_index};

verus! {

/// What the pool asks its owner to do after checking a connection.
#[derive(Clone, Copy, Debug, PartialEq, Eq, Structural)]
pub enum PoolAction {
    /// Nothing to do.
    Nothing,
    /// Reconnect to the connection's address, and watch the old
    /// connection until no request uses it.
    Recover,
    /// Drop the cleaned connections from the pool.
    Sweep,
}

/// The outcome of checking a connection: its new state, the load it is
/// weighed by (`u64::MAX` when it cannot take requests) and the action
/// asked for.
pub open spec fn pxy_outcome(state: u8, is_closed: bool, count: u64) -> (u8, u64, PoolAction) {
    if state == NORMAL || state == REJECT {
        if is_closed {
            (CLOSED, u64::MAX, PoolAction::Nothing)
        } else if state == NORMAL {
            (state, count, PoolAction::Nothing)
        } else {
            (state, u64::MAX, PoolAction::Nothing)
        }
    } else if state == CLOSED {
        (CLEANING, u64::MAX, PoolAction::Recover)
    } else if state == CLEANED {
        (state, u64::MAX, PoolAction::Sweep)
    } else {
        (state, u64::MAX, PoolAction::Nothing)
    }
}

/// A proxy connection to one backend server.
pub struct PxyConn<T> {
    sender: T,
    state: u8,
    count: u64,
    addr: String,
}

/// One request in flight on a proxy connection, given back with `release`.
pub struct PxyConnGuard {
    _token: (),
}

/// The counter after an atomic `fetch_add(1)`.
pub open spec fn inc64(c: u64) -> u64 {
    if c == u64::MAX {
        0
    } else {
        (c + 1) as u64
    }
}

/// The counter after an atomic `fetch_sub(1)`.
pub open spec fn dec64(c: u64) -> u64 {
    if c == 0 {
        u64::MAX
    } else {
        (c - 1) as u64
    }
}

impl<T> PxyConn<T> {
    /// A connection around a sender that passed its first heartbeat.
    pub fn new(sender: T, addr: &str) -> (res: Self)
        ensures
            res.state() == NORMAL,
            res.count() == 0,
            res.addr() == addr@,
            res.sender() == sender,
    {
        PxyConn { sender, state: NORMAL, count: 0, addr: addr.to_owned() }
    }

    pub closed spec fn state(&self) -> u8 {
        self.state
    }

    pub closed spec fn count(&self) -> u64 {
        self.count
    }

    pub closed spec fn addr(&self) -> Seq<char> {
        self.addr@
    }

    pub closed spec fn sender(&self) -> T {
        self.sender
    }

    /// The lifecycle state.
    pub fn get_state(&self) -> (res: u8)
        ensures
            res == self.state(),
    {
        self.state
    }

    /// The number of requests in flight.
    pub fn get_count(&self) -> (res: u64)
        ensures
            res == self.count(),
    {
        self.count
    }

    /// The backend address.
    pub fn get_addr(&self) -> (res: &str)
        ensures
            res@ == self.addr(),
    {
        self.addr.as_str()
    }

    /// The sender, to look at; no request is counted.
    pub fn peek_sender(&self) -> (res: &T)
        ensures
            *res == self.sender(),
    {
        &self.sender
    }

    /// The sender, for a new request that counts as in flight until its
    /// guard is released.
    pub fn get_sender(&mut self) -> (res: (&T, PxyConnGuard))
        ensures
            *res.0 == old(self).sender(),
            final(self).count() == inc64(old(self).count()),
            final(self).state() == old(self).state(),
            final(self).addr() == old(self).addr(),
            final(self).sender() == old(self).sender(),
    {
        self.count = self.count.wrapping_add(1);
        (&self.sender, PxyConnGuard { _token: () })
    }

    /// Ends the request that `guard` stands for.
    pub fn release(&mut self, guard: PxyConnGuard)
        ensures
            final(self).count() == dec64(old(self).count()),
            final(self).state() == old(self).state(),
            final(self).addr() == old(self).addr(),
            final(self).sender() == old(self).sender(),
    {
        self.count = self.count.wrapping_sub(1);
    }

    /// One round of the idle watcher of a connection being cleaned:
    /// once no request is in flight, a cleaning connection becomes
    /// cleaned and the watch ends (`true`); otherwise the watcher waits
    /// and tries again (`false`).
    pub fn clean_check(&mut self) -> (done: bool)
        ensures
            done == (old(self).count() == 0),
            final(self).state() == (if old(self).count() == 0 && old(self).state() == CLEANING {
                CLEANED
            } else {
                old(self).state()
            }),
            advances(old(self).state(), final(self).state()),
            final(self).count() == old(self).count(),
            final(self).addr() == old(self).addr(),
            final(self).sender() == old(self).sender(),
    {
        if self.count == 0 {
            if self.state == CLEANING {
                self.state = CLEANED;
            }
            true
        } else {
            false
        }
    }

    /// Advances the connection's lifecycle given whether its sender is
    /// closed, and reports its load and the action the pool should take.
    pub fn check_state(&mut self, is_closed: bool) -> (res: (u64, PoolAction))
        ensures
            (final(self).state(), res.0, res.1) == pxy_outcome(old(self).state(), is_closed, old(self).count()),
            advances(old(self).state(), final(self).state()),
            final(self).count() == old(self).count(),
            final(self).addr() == old(self).addr(),
            final(self).sender() == old(self).sender(),
    {
        let state = self.state;
        if state == NORMAL || state == REJECT {
            if is_closed {
                self.state = CLOSED;
                (u64::MAX, PoolAction::Nothing)
            } else if state == NORMAL {
                (self.count, PoolAction::Nothing)
            } else {
                (u64::MAX, PoolAction::Nothing)
            }
        } else if state == CLOSED {
            self.state = CLEANING;
            (u64::MAX, PoolAction::Recover)
        } else if state == CLEANED {
            (u64::MAX, PoolAction::Sweep)
        } else {
            (u64::MAX, PoolAction::Nothing)
        }
    }
}

/// `new` is `old` after a check with the given closed flag.
pub open spec fn checked_conn<T>(old: PxyConn<T>, new: PxyConn<T>, is_closed: bool) -> bool {
    &&& new.state() == pxy_outcome(old.state(), is_closed, old.count()).0
    &&& new.count() == old.count()
    &&& new.addr() == old.addr()
    &&& new.sender() == old.sender()
}

/// The loads of the connections when checked with the given closed flags.
pub open spec fn conn_loads<T>(s: Seq<PxyConn<T>>, closed: Seq<bool>) -> Seq<u64> {
    Seq::new(s.len(), |j: int| pxy_outcome(s[j].state(), closed[j], s[j].count()).1)
}

/// The connections that a sweep keeps: those not yet cleaned, in order.
pub open spec fn kept_conns<T>(s: Seq<PxyConn<T>>) -> Seq<PxyConn<T>>
    decreases s.len(),
{
    if s.len() == 0 {
        Seq::empty()
    } else if s[0].state() == CLEANED {
        kept_conns(s.drop_first())
    } else {
        seq![s[0]] + kept_conns(s.drop_first())
    }
}

/// Connections to the backend servers.
pub struct PxyPool<T> {
    conns: Vec<PxyConn<T>>,
}

impl<T> PxyPool<T> {
    pub closed spec fn conns(&self) -> Seq<PxyConn<T>> {
        self.conns@
    }

    /// An empty pool.
    pub fn new() -> (res: Self)
        ensures
            res.conns() == Seq::<PxyConn<T>>::empty(),
    {
        PxyPool { conns: Vec::new() }
    }

    /// The number of connections.
    pub fn len(&self) -> (res: usize)
        ensures
            res == self.conns().len(),
    {
        self.conns.len()
    }

    /// The connection at `i`.
    pub fn conn(&self, i: usize) -> (res: &PxyConn<T>)
        requires
            i < self.conns().len(),
        ensures
            *res == self.conns()[i as int],
    {
        &self.conns[i]
    }

    /// The connection at `i`, to send on it or watch it.
    pub fn conn_mut(&mut self, i: usize) -> (res: &mut PxyConn<T>)
        requires
            i < old(self).conns().len(),
        ensures
            *res == old(self).conns()[i as int],
            final(self).conns() == old(self).conns().update(i as int, *final(res)),
    {
        &mut self.conns[i]
    }

    /// Adds a connection.
    pub fn add(&mut self, conn: PxyConn<T>)
        ensures
            final(self).conns() == old(self).conns().push(conn),
    {
        self.conns.push(conn);
    }

    /// Checks every connection, given whether the sender of each is
    /// closed, and picks the least loaded usable one. Reports, for each
    /// connection, the action asked for.
    pub fn balance(&mut self, closed: &Vec<bool>) -> (res: (Option<usize>, Vec<PoolAction>))
        requires
            closed@.len() == old(self).conns().len(),
        ensures
            final(self).conns().len() == old(self).conns().len(),
            forall|j: int|
                0 <= j < old(self).conns().len() ==> checked_conn(
                    old(self).conns()[j],
                    #[trigger] final(self).conns()[j],
                    closed@[j],
                ),
            is_least_index(conn_loads(old(self).conns(), closed@), u64::MAX, res.0),
            res.1@.len() == old(self).conns().len(),
            forall|j: int|
                0 <= j < old(self).conns().len() ==> #[trigger] res.1@[j] == pxy_outcome(
                    old(self).conns()[j].state(),
                    closed@[j],
                    old(self).conns()[j].count(),
                ).2,
    {
        let ghost orig = self.conns@;
        let mut loads: Vec<u64> = Vec::new();
        let mut actions: Vec<PoolAction> = Vec::new();
        let mut k: usize = 0;
        while k < self.conns.len()
            invariant
                k <= self.conns@.len(),
                self.conns@.len() == orig.len(),
                closed@.len() == orig.len(),
                loads@ == conn_loads(orig, closed@).take(k as int),
                actions@.len() == k,
                forall|j: int|
                    0 <= j < k ==> #[trigger] actions@[j] == pxy_outcome(
                        orig[j].state(),
                        closed@[j],
                        orig[j].count(),
                    ).2,
                forall|j: int|
                    0 <= j < k ==> checked_conn(orig[j], #[trigger] self.conns@[j], closed@[j]),
                forall|j: int| k <= j < orig.len() ==> #[trigger] self.conns@[j] == orig[j],
            decreases orig.len() - k,
        {
            let c = closed[k];
            let (load, action) = self.conns[k].check_state(c);
            loads.push(load);
            actions.push(action);
            k = k + 1;
            assert(conn_loads(orig, closed@).take(k as int) =~= conn_loads(orig, closed@).take(
                (k - 1) as int,
            ).push(conn_loads(orig, closed@)[k - 1]));
        }
        assert(conn_loads(orig, closed@).take(k as int) =~= conn_loads(orig, closed@));
        let picked = least_index(&loads, u64::MAX);
        (picked, actions)
    }

    /// Drops the cleaned connections, keeping the others in order.
    pub fn remove(&mut self)
        ensures
            final(self).conns() == kept_conns(old(self).conns()),
    {
        let mut rest: Vec<PxyConn<T>> = Vec::new();
        std::mem::swap(&mut rest, &mut self.conns);
        let ghost orig = rest@;
        while rest.len() > 0
            invariant
                self.conns@ + kept_conns(rest@) == kept_conns(orig),
            decreases rest@.len(),
        {
            let ghost before = rest@;
            let c = rest.remove(0);
            assert(rest@ =~= before.drop_first());
            if c.state != CLEANED {
                self.conns.push(c);
                assert(self.conns@ + kept_conns(rest@) =~= (self.conns@.drop_last() + seq![c])
                    + kept_conns(rest@));
            }
        }
        assert(self.conns@ + kept_conns(rest@) =~= self.conns@);
    }
}

} // verus!

verus! {

/// The connection the balancer picks can take requests: its sender was
/// open, it was in normal use before its state was checked, and its load is the
/// number of requests in flight on it.
pub proof fn lemma_picked_conn_is_live<T>(conns: Seq<PxyConn<T>>, closed: Seq<bool>, i: usize)
    requires
        closed.len() == conns.len(),
        is_least_index(conn_loads(conns, closed), u64::MAX, Some(i)),
    ensures
        !closed[i as int],
        conns[i as int].state() == NORMAL,
        conn_loads(conns, closed)[i as int] == conns[i as int].count(),
{
}

/// A sweep keeps exactly the connections that are not cleaned, in order:
/// none of the kept connections is cleaned, and every connection that is
/// not cleaned is kept.
pub proof fn lemma_sweep_keeps_live<T>(s: Seq<PxyConn<T>>)
    ensures
        forall|j: int| 0 <= j < kept_conns(s).len() ==> #[trigger] kept_conns(s)[j].state() != CLEANED,
        forall|j: int| 0 <= j < s.len() && #[trigger] s[j].state() != CLEANED ==> kept_conns(s).contains(s[j]),
        kept_conns(s).len() <= s.len(),
    decreases s.len(),
{
    if s.len() > 0 {
        lemma_sweep_keeps_live(s.drop_first());
        let rest = kept_conns(s.drop_first());
        assert forall|j: int| 0 <= j < s.len() && #[trigger] s[j].state() != CLEANED implies kept_conns(
            s,
        ).contains(s[j]) by {
            if j == 0 {
                assert(kept_conns(s)[0] == s[0]);
            } else {
                assert(s[j] == s.drop_first()[j - 1]);
                let k = choose|k: int| 0 <= k < rest.len() && rest[k] == s[j];
                if s[0].state() == CLEANED {
                    assert(kept_conns(s)[k] == s[j]);
                } else {
                    assert(kept_conns(s)[k + 1] == s[j]);
                }
            }
        }
        assert forall|j: int| 0 <= j < kept_conns(s).len() implies #[trigger] kept_conns(s)[j].state()
            != CLEANED by {
            if s[0].state() != CLEANED && j > 0 {
                assert(kept_conns(s)[j] == rest[j - 1]);
            }
        }
    }
}

/// Once recovery has started, a connection is never used again: a check
/// of a closing, cleaning or cleaned connection gives it the largest
/// load, so the balancer never picks it.
pub proof fn lemma_closed_conn_never_picked<T>(c: PxyConn<T>, is_closed: bool)
    requires
        c.state() == CLOSED || c.state() == CLEANING || c.state() == CLEANED,
    ensures
        pxy_outcome(c.state(), is_closed, c.count()).1 == u64::MAX,
        pxy_outcome(c.state(), is_closed, c.count()).0 != NORMAL,
        pxy_outcome(c.state(), is_closed, c.count()).0 != REJECT,
{
}

/// Releasing a connection taken with `get_sender` brings its count of
/// requests in flight back to what it was.
pub proof fn lemma_release_undoes_get(c: u64)
    ensures
        dec64(inc64(c)) == c,
{
}

/// Recovery is asked for exactly once per connection: only a check that
/// finds the connection closed asks for it, and that check moves it on
/// to cleaning, where no later check, whatever the sender and the count,
/// asks for it again.
pub proof fn lemma_recover_once(state: u8, c1: bool, n1: u64, c2: bool, n2: u64)
    ensures
        pxy_outcome(state, c1, n1).2 == PoolAction::Recover <==> state == CLOSED,
        pxy_outcome(state, c1, n1).2 == PoolAction::Recover ==> pxy_outcome(
            pxy_outcome(state, c1, n1).0,
            c2,
            n2,
        ).2 != PoolAction::Recover,
        (state == CLEANING || state == CLEANED) ==> pxy_outcome(state, c1, n1).2 != PoolAction::Recover
            && pxy_outcome(state, c1, n1).0 == state,
{
}

} // verus!
