//! Connection lifecycle shared by every client handle and pool.
//!
//! A handle starts `NORMAL` (or `REJECT` when the remote side refuses new
//! work), is marked `CLOSED` once its transport is gone, then `CLEANING`
//! while outstanding users finish, and finally `CLEANED`, after which the
//! pool drops it.

use vstd::prelude::*;

verus! {

/// The handle is usable.
pub const NORMAL: u8 = 0;

/// The remote side rejects further requests on this handle.
pub const REJECT: u8 = 1;

/// The transport of the handle is closed.
pub const CLOSED: u8 = 2;

/// Waiting for the remaining users of the handle to finish.
pub const CLEANING: u8 = 3;

/// No user is left; the handle may be dropped.
pub const CLEANED: u8 = 4;

/// The state a handle moves to when its transport is found closed:
/// an active handle (normal or rejecting) becomes closed, any other
/// state is left alone.
pub open spec fn closed_from(state: u8) -> u8 {
    if state == NORMAL || state == REJECT {
        CLOSED
    } else {
        state
    }
}

/// `new` is `old` or the state that directly follows it in the lifecycle.
pub open spec fn advances(old: u8, new: u8) -> bool {
    ||| new == old
    ||| (old == NORMAL || old == REJECT) && new == CLOSED
    ||| old == CLOSED && new == CLEANING
    ||| old == CLEANING && new == CLEANED
}

/// `new` can be reached from `old` by zero or more lifecycle steps.
pub open spec fn reachable(old: u8, new: u8) -> bool {
    ||| new == old
    ||| (old == NORMAL || old == REJECT) && (new == CLOSED || new == CLEANING || new == CLEANED)
    ||| old == CLOSED && (new == CLEANING || new == CLEANED)
    ||| old == CLEANING && new == CLEANED
}

/// Counter increment with the wrap-around of an atomic `fetch_add`.
pub open spec fn inc_wrapping(c: u32) -> u32 {
    if c == u32::MAX {
        0
    } else {
        (c + 1) as u32
    }
}

/// Counter decrement with the wrap-around of an atomic `fetch_sub`.
pub open spec fn dec_wrapping(c: u32) -> u32 {
    if c == 0 {
        u32::MAX
    } else {
        (c - 1) as u32
    }
}

/// Marks an active state closed; leaves other states as they are.
pub fn close_active(state: u8) -> (res: u8)
    ensures
        res == closed_from(state),
        advances(state, res),
{
    if state == NORMAL || state == REJECT {
        CLOSED
    } else {
        state
    }
}

/// `res` is the position of the first smallest value among those below
/// `ceiling`, or `None` when no value is below it.
pub open spec fn is_least_index(vals: Seq<u64>, ceiling: u64, res: Option<usize>) -> bool {
    match res {
        None => forall|j: int| 0 <= j < vals.len() ==> vals[j] >= ceiling,
        Some(i) => {
            &&& i < vals.len()
            &&& vals[i as int] < ceiling
            &&& forall|j: int| 0 <= j < vals.len() ==> vals[i as int] <= vals[j]
            &&& forall|j: int| 0 <= j < i ==> vals[i as int] < vals[j]
        },
    }
}

/// The first position of the smallest value below `ceiling`: the choice
/// every pool makes between its handles, by their load.
pub fn least_index(vals: &Vec<u64>, ceiling: u64) -> (res: Option<usize>)
    ensures
        is_least_index(vals@, ceiling, res),
{
    let mut min: u64 = ceiling;
    let mut idx: Option<usize> = None;
    let mut k: usize = 0;
    while k < vals.len()
        invariant
            k <= vals.len(),
            is_least_index(vals@.take(k as int), ceiling, idx),
            match idx {
                Some(i) => min == vals@[i as int],
                None => min == ceiling,
            },
            min <= ceiling,
        decreases vals.len() - k,
    {
        let v = vals[k];
        if v < min {
            min = v;
            idx = Some(k);
        }
        k = k + 1;
        assert(vals@.take(k as int) =~= vals@.take((k - 1) as int).push(v));
    }
    assert(vals@.take(k as int) =~= vals@);
    idx
}

/// The usage counters of a client handle: how many requests are in
/// flight on it and where it stands in its lifecycle.
#[derive(Clone, Copy, Debug, PartialEq, Eq, Structural)]
pub struct ClientStats {
    pub count: u32,
    pub state: u8,
}

/// Proof that one user was registered on a handle; handing it back
/// with `release` unregisters that user.
#[derive(Debug)]
pub struct StatisticsGuard {
    _token: (),
}

/// The reply of an HTTP/2 handle to `usage_count`: its new state and the
/// (load, state) pair reported to the pool.
pub open spec fn h2_usage(count: u32, state: u8, is_closed: bool) -> (u8, (u32, u8)) {
    if count == 0 {
        if is_closed {
            (closed_from(state), (u32::MAX, CLOSED))
        } else {
            (state, (count, NORMAL))
        }
    } else if count == 1 {
        if is_closed {
            (closed_from(state), (u32::MAX, CLOSED))
        } else {
            (state, (u32::MAX, REJECT))
        }
    } else if count == 2 {
        if state == CLOSED {
            (CLEANING, (u32::MAX, CLEANING))
        } else {
            (state, (u32::MAX, state))
        }
    } else if count == 4 {
        (state, (u32::MAX, CLEANED))
    } else {
        (state, (u32::MAX, CLEANING))
    }
}

impl ClientStats {
    /// Counters of a fresh handle: nobody uses it and it is usable.
    pub fn new() -> (res: ClientStats)
        ensures
            res.count == 0,
            res.state == NORMAL,
    {
        ClientStats { count: 0, state: NORMAL }
    }

    /// The current load and state, as read by plain (HTTP/1 and HTTP/3)
    /// handles.
    pub fn usage_count(&self) -> (res: (u32, u8))
        ensures
            res == (self.count, self.state),
    {
        (self.count, self.state)
    }

    /// Registers one more user of the handle.
    pub fn usage_add(&mut self) -> (guard: StatisticsGuard)
        ensures
            final(self).count == inc_wrapping(old(self).count),
            final(self).state == old(self).state,
    {
        self.count = self.count.wrapping_add(1);
        StatisticsGuard { _token: () }
    }

    /// Unregisters the user that `guard` stands for.
    pub fn release(&mut self, guard: StatisticsGuard)
        ensures
            final(self).count == dec_wrapping(old(self).count),
            final(self).state == old(self).state,
    {
        self.count = self.count.wrapping_sub(1);
    }

    /// The load and state an HTTP/2 handle reports, given whether its
    /// sender is closed. The handle keys its decision on the usage
    /// counter, and moves its own state along the lifecycle.
    pub fn h2_usage_count(&mut self, is_closed: bool) -> (res: (u32, u8))
        ensures
            (final(self).state, res) == h2_usage(old(self).count, old(self).state, is_closed),
            final(self).count == old(self).count,
            advances(old(self).state, final(self).state),
    {
        if self.count == 0 {
            if is_closed {
                self.state = close_active(self.state);
                (u32::MAX, CLOSED)
            } else {
                (self.count, NORMAL)
            }
        } else if self.count == 1 {
            if is_closed {
                self.state = close_active(self.state);
                (u32::MAX, CLOSED)
            } else {
                (u32::MAX, REJECT)
            }
        } else if self.count == 2 {
            if self.state == CLOSED {
                self.state = CLEANING;
                (u32::MAX, CLEANING)
            } else {
                (u32::MAX, self.state)
            }
        } else if self.count == 4 {
            (u32::MAX, CLEANED)
        } else {
            (u32::MAX, CLEANING)
        }
    }
}

/// What a pool of plain clients decided: which client to use, and
/// whether closed clients should be swept out.
#[derive(Clone, Copy, Debug, PartialEq, Eq, Structural)]
pub struct ClientPick {
    pub index: Option<usize>,
    pub clean: bool,
}

/// The load under which a client takes part in the choice: its count
/// when it is usable, the ceiling otherwise.
pub open spec fn client_load(u: (u32, u8)) -> u64 {
    if u.1 == NORMAL {
        u.0 as u64
    } else {
        u32::MAX as u64
    }
}

/// Chooses among clients by their reported `(count, state)`: the first
/// usable client with the smallest count below `u32::MAX`; a closed
/// client asks for a sweep of the pool.
pub fn select_client(usages: &Vec<(u32, u8)>) -> (res: ClientPick)
    ensures
        is_least_index(usages@.map_values(|u: (u32, u8)| client_load(u)), u32::MAX as u64, res.index),
        res.clean == exists|j: int| 0 <= j < usages@.len() && #[trigger] usages@[j].1 == CLOSED,
{
    let mut loads: Vec<u64> = Vec::new();
    let mut clean = false;
    let mut k: usize = 0;
    while k < usages.len()
        invariant
            k <= usages.len(),
            loads@ == usages@.take(k as int).map_values(|u: (u32, u8)| client_load(u)),
            clean == exists|j: int| 0 <= j < k && #[trigger] usages@[j].1 == CLOSED,
        decreases usages.len() - k,
    {
        let (count, state) = usages[k];
        if state == NORMAL {
            loads.push(count as u64);
        } else {
            loads.push(u32::MAX as u64);
        }
        if state == CLOSED {
            clean = true;
        }
        k = k + 1;
        assert(usages@.take(k as int).map_values(|u: (u32, u8)| client_load(u)) =~= usages@.take(
            (k - 1) as int,
        ).map_values(|u: (u32, u8)| client_load(u)).push(client_load(usages@[k - 1])));
    }
    assert(usages@.take(k as int) =~= usages@);
    let index = least_index(&loads, u32::MAX as u64);
    ClientPick { index, clean }
}

} // verus!

verus! {

/// Lifecycle law: a step followed by any number of further steps is
/// itself reachable, so states only ever move forward.
pub proof fn lemma_lifecycle_forward(a: u8, b: u8, c: u8)
    requires
        advances(a, b),
        reachable(b, c),
    ensures
        reachable(a, c),
{
}

/// Lifecycle law: once a handle is closed, no sequence of steps makes it
/// usable or rejecting again.
pub proof fn lemma_closed_is_final(a: u8, b: u8)
    requires
        a == CLOSED || a == CLEANING || a == CLEANED,
        reachable(a, b),
    ensures
        b != NORMAL && b != REJECT,
{
}

/// Releasing the guard that `usage_add` returned gives back the count
/// the handle had before.
pub proof fn lemma_release_undoes_add(c: u32)
    ensures
        dec_wrapping(inc_wrapping(c)) == c,
{
}

/// A chosen position holds a value below the ceiling, so a handle whose
/// load is the ceiling (one that cannot take requests) is never chosen.
pub proof fn lemma_least_index_below_ceiling(vals: Seq<u64>, ceiling: u64, i: usize)
    requires
        is_least_index(vals, ceiling, Some(i)),
    ensures
        vals[i as int] < ceiling,
{
}

} // verus!

verus! {

/// An HTTP/2 client whose sender is closed is never usable: its report
/// carries the largest load, so the pool never picks it. An idle or
/// singly used client that is still in use becomes closed (and reports
/// so), and a client already closing keeps its state.
pub proof fn lemma_closed_h2_never_picked(count: u32, state: u8)
    ensures
        h2_usage(count, state, true).1.0 == u32::MAX,
        client_load(h2_usage(count, state, true).1) == u32::MAX as u64,
        count <= 1 ==> h2_usage(count, state, true).1.1 == CLOSED,
        count <= 1 && (state == NORMAL || state == REJECT) ==> h2_usage(count, state, true).0 == CLOSED,
        count <= 1 && !(state == NORMAL || state == REJECT) ==> h2_usage(count, state, true).0 == state,
        forall|others: Seq<(u32, u8)>, j: usize|
            j < others.len() && #[trigger] others[j as int] == h2_usage(count, state, true).1 ==> !is_least_index(
                others.map_values(|u: (u32, u8)| client_load(u)),
                u32::MAX as u64,
                Some(j),
            ),
{
    assert forall|others: Seq<(u32, u8)>, j: usize|
        j < others.len() && #[trigger] others[j as int] == h2_usage(count, state, true).1 implies !is_least_index(
            others.map_values(|u: (u32, u8)| client_load(u)),
            u32::MAX as u64,
            Some(j),
        ) by {
        assert(others.map_values(|u: (u32, u8)| client_load(u))[j as int] == client_load(others[j as int]));
    }
}

} // verus!

verus! {

/// Load accounting of a pooled client: the pool reads `(count, state)`
/// to choose a client, and registers a user of the chosen one.
pub trait Statistics {
    /// The number of requests in flight and the lifecycle state.
    fn usage_count(&self) -> (u32, u8);

    /// Registers one more user.
    fn usage_add(&self) -> StatisticsGuard;

    /// Whether the client should stay in the pool when it is swept; by
    /// default every client stays.
    fn is_valid(&self) -> (res: bool)
        default_ensures
            res,
    {
        true
    }
}

} // verus!
