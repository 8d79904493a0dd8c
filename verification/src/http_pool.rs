//! Pool of HTTP/2 or HTTP/3 send handles to upstream endpoints.
//!
//! Each handle keeps its sender, the number of requests in flight on it,
//! its lifecycle state and the address it was opened to. The pool hands
//! out the least loaded usable handle and sweeps cleaned handles out.

use vstd::prelude::*;
use crate::conn::{NORMAL, REJECT, CLOSED, CLEANING, CLEANED, close_active, advances, inc_wrapping, dec_wrapping, is_least_index, least_index};
use crate::text::str_eq;

verus! {

/// The outcome of checking a handle: its new state, whether the pool
/// should drop cleaned handles, and the load it is weighed by. Only a
/// normal handle whose sender is open takes requests; a handle whose
/// server has rejected further requests weighs the most, like one that
/// cannot be used.
pub open spec fn check_outcome(state: u8, is_closed: bool, count: u32) -> (u8, bool, u32) {
    if state == NORMAL || state == REJECT {
        if is_closed {
            (CLOSED, false, u32::MAX)
        } else if state == NORMAL {
            (state, false, count)
        } else {
            (state, false, u32::MAX)
        }
    } else if state == CLOSED {
        (CLEANING, false, u32::MAX)
    } else if state == CLEANED {
        (state, true, u32::MAX)
    } else {
        (state, false, u32::MAX)
    }
}

/// An HTTP/2 or HTTP/3 handle for sending requests to one endpoint.
pub struct HttpSendHandle<T> {
    sender: T,
    state: u8,
    count: u32,
    addr: String,
}

/// One request in flight on a handle, given back with `release`.
pub struct SenderGuard {
    _token: (),
}

impl<T> HttpSendHandle<T> {
    /// A handle around a freshly opened sender to `addr`.
    pub fn new(sender: T, addr: &str) -> (res: Self)
        ensures
            res.state() == NORMAL,
            res.count() == 0,
            res.addr() == addr@,
            res.sender() == sender,
    {
        HttpSendHandle { sender, state: NORMAL, count: 0, addr: addr.to_owned() }
    }

    pub closed spec fn state(&self) -> u8 {
        self.state
    }

    pub closed spec fn count(&self) -> u32 {
        self.count
    }

    pub closed spec fn addr(&self) -> Seq<char> {
        self.addr@
    }

    pub closed spec fn sender(&self) -> T {
        self.sender
    }

    /// The lifecycle state of the handle.
    pub fn get_state(&self) -> (res: u8)
        ensures
            res == self.state(),
    {
        self.state
    }

    /// The number of requests in flight.
    pub fn get_count(&self) -> (res: u32)
        ensures
            res == self.count(),
    {
        self.count
    }

    /// The address the handle was opened to.
    pub fn get_addr(&self) -> (res: &str)
        ensures
            res@ == self.addr(),
    {
        self.addr.as_str()
    }

    /// The sender, to look at; no request is counted.
    pub fn peek_sender(&self) -> (res: &T)
        ensures
            *res == self.sender(),
    {
        &self.sender
    }

    /// The sender, for a new request; the request counts as in flight
    /// until its guard is released.
    pub fn get_sender(&mut self) -> (res: (&T, SenderGuard))
        ensures
            *res.0 == old(self).sender(),
            final(self).count() == inc_wrapping(old(self).count()),
            final(self).state() == old(self).state(),
            final(self).addr() == old(self).addr(),
            final(self).sender() == old(self).sender(),
    {
        self.count = self.count.wrapping_add(1);
        (&self.sender, SenderGuard { _token: () })
    }

    /// Ends the request that `guard` stands for.
    pub fn release(&mut self, guard: SenderGuard)
        ensures
            final(self).count() == dec_wrapping(old(self).count()),
            final(self).state() == old(self).state(),
            final(self).addr() == old(self).addr(),
            final(self).sender() == old(self).sender(),
    {
        self.count = self.count.wrapping_sub(1);
    }

    /// Advances the handle's lifecycle given whether its sender is closed,
    /// and reports `(remove, load)`: whether cleaned handles should be
    /// dropped from the pool, and the load to weigh the handle by
    /// (`u32::MAX` when it cannot take requests or its server rejects them).
    pub fn check(&mut self, is_closed: bool) -> (res: (bool, u32))
        ensures
            (final(self).state(), res.0, res.1) == check_outcome(old(self).state(), is_closed, old(self).count()),
            advances(old(self).state(), final(self).state()),
            final(self).count() == old(self).count(),
            final(self).addr() == old(self).addr(),
            final(self).sender() == old(self).sender(),
    {
        let mut remove = false;
        let count = if self.state == NORMAL || self.state == REJECT {
            if is_closed {
                self.state = close_active(self.state);
                u32::MAX
            } else if self.state == NORMAL {
                self.count
            } else {
                u32::MAX
            }
        } else if self.state == CLOSED {
            self.state = CLEANING;
            u32::MAX
        } else if self.state == CLEANED {
            remove = true;
            u32::MAX
        } else {
            u32::MAX
        };
        (remove, count)
    }

    /// Whether this handle is a usable one to `addr` already.
    pub fn is_repeat(&self, addr: &str) -> (res: bool)
        ensures
            res == (self.state() == NORMAL && self.addr() == addr@),
    {
        self.state == NORMAL && str_eq(self.addr.as_str(), addr)
    }
}

/// The handles that a sweep keeps: those not yet cleaned, in order.
pub open spec fn kept_handles<T>(s: Seq<HttpSendHandle<T>>) -> Seq<HttpSendHandle<T>>
    decreases s.len(),
{
    if s.len() == 0 {
        Seq::empty()
    } else if s[0].state() == CLEANED {
        kept_handles(s.drop_first())
    } else {
        seq![s[0]] + kept_handles(s.drop_first())
    }
}

/// Whether some handle of `s` is a usable one to `addr`.
pub open spec fn has_repeat<T>(s: Seq<HttpSendHandle<T>>, addr: Seq<char>) -> bool {
    exists|j: int| 0 <= j < s.len() && #[trigger] s[j].state() == NORMAL && s[j].addr() == addr
}

/// `new` is `old` after a check with the given closed flag.
pub open spec fn checked_handle<T>(old: HttpSendHandle<T>, new: HttpSendHandle<T>, is_closed: bool) -> bool {
    &&& new.state() == check_outcome(old.state(), is_closed, old.count()).0
    &&& new.count() == old.count()
    &&& new.addr() == old.addr()
    &&& new.sender() == old.sender()
}

/// The load each handle is weighed by when checked with the given
/// closed flags.
pub open spec fn handle_loads<T>(s: Seq<HttpSendHandle<T>>, closed: Seq<bool>) -> Seq<u64> {
    Seq::new(s.len(), |j: int| check_outcome(s[j].state(), closed[j], s[j].count()).2 as u64)
}

/// Handles to the upstream endpoints.
pub struct HttpSendPool<T> {
    handles: Vec<HttpSendHandle<T>>,
}

impl<T> HttpSendPool<T> {
    pub closed spec fn handles(&self) -> Seq<HttpSendHandle<T>> {
        self.handles@
    }

    /// An empty pool.
    pub fn new() -> (res: Self)
        ensures
            res.handles() == Seq::<HttpSendHandle<T>>::empty(),
    {
        HttpSendPool { handles: Vec::new() }
    }

    /// The number of handles.
    pub fn len(&self) -> (res: usize)
        ensures
            res == self.handles().len(),
    {
        self.handles.len()
    }

    /// The handle at `i`.
    pub fn handle(&self, i: usize) -> (res: &HttpSendHandle<T>)
        requires
            i < self.handles().len(),
        ensures
            *res == self.handles()[i as int],
    {
        &self.handles[i]
    }

    /// The handle at `i`, to send on it.
    pub fn handle_mut(&mut self, i: usize) -> (res: &mut HttpSendHandle<T>)
        requires
            i < old(self).handles().len(),
        ensures
            *res == old(self).handles()[i as int],
            final(self).handles() == old(self).handles().update(i as int, *final(res)),
    {
        &mut self.handles[i]
    }

    /// Checks every handle, given whether the sender of each is closed,
    /// and picks the least loaded usable one. Also tells whether cleaned
    /// handles were seen, so that the pool should be swept.
    pub fn get(&mut self, closed: &Vec<bool>) -> (res: (Option<usize>, bool))
        requires
            closed@.len() == old(self).handles().len(),
        ensures
            final(self).handles().len() == old(self).handles().len(),
            forall|j: int|
                0 <= j < old(self).handles().len() ==> checked_handle(
                    old(self).handles()[j],
                    #[trigger] final(self).handles()[j],
                    closed@[j],
                ),
            is_least_index(handle_loads(old(self).handles(), closed@), u32::MAX as u64, res.0),
            res.1 == exists|j: int|
                0 <= j < old(self).handles().len() && #[trigger] old(self).handles()[j].state()
                    == CLEANED,
    {
        let ghost orig = self.handles@;
        let mut loads: Vec<u64> = Vec::new();
        let mut remove_seen = false;
        let mut k: usize = 0;
        while k < self.handles.len()
            invariant
                k <= self.handles@.len(),
                self.handles@.len() == orig.len(),
                closed@.len() == orig.len(),
                loads@ == handle_loads(orig, closed@).take(k as int),
                remove_seen == exists|j: int| 0 <= j < k && #[trigger] orig[j].state() == CLEANED,
                forall|j: int|
                    0 <= j < k ==> checked_handle(orig[j], #[trigger] self.handles@[j], closed@[j]),
                forall|j: int| k <= j < orig.len() ==> #[trigger] self.handles@[j] == orig[j],
            decreases orig.len() - k,
        {
            let c = closed[k];
            let (remove, count) = self.handles[k].check(c);
            if remove {
                remove_seen = true;
            }
            loads.push(count as u64);
            k = k + 1;
            assert(handle_loads(orig, closed@).take(k as int) =~= handle_loads(orig, closed@).take(
                (k - 1) as int,
            ).push(handle_loads(orig, closed@)[k - 1]));
        }
        assert(handle_loads(orig, closed@).take(k as int) =~= handle_loads(orig, closed@));
        let picked = least_index(&loads, u32::MAX as u64);
        (picked, remove_seen)
    }

    /// Drops the handles that are cleaned, keeping the others in order.
    pub fn remove(&mut self)
        ensures
            final(self).handles() == kept_handles(old(self).handles()),
    {
        let mut rest: Vec<HttpSendHandle<T>> = Vec::new();
        std::mem::swap(&mut rest, &mut self.handles);
        let ghost orig = rest@;
        while rest.len() > 0
            invariant
                self.handles@ + kept_handles(rest@) == kept_handles(orig),
            decreases rest@.len(),
        {
            let ghost before = rest@;
            let h = rest.remove(0);
            assert(rest@ =~= before.drop_first());
            if h.state != CLEANED {
                self.handles.push(h);
                assert(self.handles@ + kept_handles(rest@) =~= (self.handles@.drop_last() + seq![h])
                    + kept_handles(rest@));
            }
        }
        assert(self.handles@ + kept_handles(rest@) =~= self.handles@);
    }

    /// Adds a handle unless a usable handle to the same address is
    /// already pooled; tells whether it was added.
    pub fn add(&mut self, handle: HttpSendHandle<T>) -> (added: bool)
        ensures
            added == !has_repeat(old(self).handles(), handle.addr()),
            added ==> final(self).handles() == old(self).handles().push(handle),
            !added ==> final(self).handles() == old(self).handles(),
    {
        let mut k: usize = 0;
        let mut repeat = false;
        while k < self.handles.len()
            invariant
                k <= self.handles@.len(),
                repeat == exists|j: int|
                    0 <= j < k && #[trigger] self.handles@[j].state() == NORMAL
                        && self.handles@[j].addr() == handle.addr(),
            decreases self.handles@.len() - k,
        {
            if self.handles[k].is_repeat(handle.addr.as_str()) {
                repeat = true;
            }
            k = k + 1;
        }
        if !repeat {
            self.handles.push(handle);
        }
        !repeat
    }
}

} // verus!

verus! {

/// No two usable handles of `s` are open to the same address.
pub open spec fn unique_live_addrs<T>(s: Seq<HttpSendHandle<T>>) -> bool {
    forall|i: int, j: int|
        0 <= i < s.len() && 0 <= j < s.len() && i != j && #[trigger] s[i].state() == NORMAL
            && #[trigger] s[j].state() == NORMAL ==> s[i].addr() != s[j].addr()
}

/// The handle the pool picks can take requests: its sender was open and
/// it was in normal use (not rejecting) before its state was checked.
pub proof fn lemma_picked_handle_is_live<T>(
    handles: Seq<HttpSendHandle<T>>,
    closed: Seq<bool>,
    i: usize,
)
    requires
        closed.len() == handles.len(),
        is_least_index(handle_loads(handles, closed), u32::MAX as u64, Some(i)),
    ensures
        !closed[i as int],
        handles[i as int].state() == NORMAL,
        handle_loads(handles, closed)[i as int] == handles[i as int].count() as u64,
{
}

/// Adding a handle through `add` keeps the pool free of two usable
/// handles to one address.
pub proof fn lemma_add_keeps_unique<T>(
    before: Seq<HttpSendHandle<T>>,
    handle: HttpSendHandle<T>,
    after: Seq<HttpSendHandle<T>>,
)
    requires
        unique_live_addrs(before),
        !has_repeat(before, handle.addr()) ==> after == before.push(handle),
        has_repeat(before, handle.addr()) ==> after == before,
    ensures
        unique_live_addrs(after),
{
    if !has_repeat(before, handle.addr()) {
        assert forall|i: int, j: int|
            0 <= i < after.len() && 0 <= j < after.len() && i != j && #[trigger] after[i].state()
                == NORMAL && #[trigger] after[j].state() == NORMAL implies after[i].addr()
            != after[j].addr() by {
            if i == before.len() as int {
                assert(after[j] == before[j]);
            } else if j == before.len() as int {
                assert(after[i] == before[i]);
            } else {
                assert(after[i] == before[i] && after[j] == before[j]);
            }
        }
    }
}

/// Checking handles keeps the pool free of two usable handles to one
/// address: a check never makes a handle usable.
pub proof fn lemma_check_keeps_unique<T>(
    before: Seq<HttpSendHandle<T>>,
    after: Seq<HttpSendHandle<T>>,
    closed: Seq<bool>,
)
    requires
        unique_live_addrs(before),
        closed.len() == before.len(),
        after.len() == before.len(),
        forall|j: int| 0 <= j < before.len() ==> checked_handle(before[j], #[trigger] after[j], closed[j]),
    ensures
        unique_live_addrs(after),
{
    assert forall|i: int, j: int|
        0 <= i < after.len() && 0 <= j < after.len() && i != j && #[trigger] after[i].state()
            == NORMAL && #[trigger] after[j].state() == NORMAL implies after[i].addr()
        != after[j].addr() by {
        assert(checked_handle(before[i], after[i], closed[i]));
        assert(checked_handle(before[j], after[j], closed[j]));
        assert(before[i].state() == NORMAL);
        assert(before[j].state() == NORMAL);
    }
}

/// A sweep keeps exactly the handles that are not cleaned: none of the
/// kept handles is cleaned, and every handle that is not cleaned is kept.
pub proof fn lemma_remove_keeps_live<T>(s: Seq<HttpSendHandle<T>>)
    ensures
        forall|j: int| 0 <= j < kept_handles(s).len() ==> #[trigger] kept_handles(s)[j].state() != CLEANED,
        forall|j: int|
            0 <= j < s.len() && #[trigger] s[j].state() != CLEANED ==> kept_handles(s).contains(s[j]),
        kept_handles(s).len() <= s.len(),
    decreases s.len(),
{
    if s.len() > 0 {
        lemma_remove_keeps_live(s.drop_first());
        let rest = kept_handles(s.drop_first());
        assert forall|j: int| 0 <= j < s.len() && #[trigger] s[j].state() != CLEANED implies kept_handles(
            s,
        ).contains(s[j]) by {
            if j == 0 {
                assert(kept_handles(s)[0] == s[0]);
            } else {
                assert(s[j] == s.drop_first()[j - 1]);
                let k = choose|k: int| 0 <= k < rest.len() && rest[k] == s[j];
                if s[0].state() == CLEANED {
                    assert(kept_handles(s)[k] == s[j]);
                } else {
                    assert(kept_handles(s)[k + 1] == s[j]);
                }
            }
        }
        assert forall|j: int| 0 <= j < kept_handles(s).len() implies #[trigger] kept_handles(s)[j].state()
            != CLEANED by {
            if s[0].state() != CLEANED && j > 0 {
                assert(kept_handles(s)[j] == rest[j - 1]);
            }
        }
    }
}

/// `addr` cut at its last `:` into host and port, as `rsplit_once`
/// cuts it.
pub open spec fn host_port(addr: Seq<char>) -> Option<(Seq<char>, Seq<char>)> {
    match crate::runtime::last_index_of(addr, ':') {
        Some(i) => Some((addr.take(i), addr.skip(i + 1))),
        None => None,
    }
}

/// The host and port of an address written `host:port`; `None` when it
/// holds no `:`.
pub fn split_host(addr: &str) -> (res: Option<(String, String)>)
    ensures
        match res {
            Some((h, p)) => host_port(addr@) == Some((h@, p@)),
            None => host_port(addr@) is None,
        },
{
    let len = addr.unicode_len();
    let mut k: usize = len;
    assert(addr@.take(len as int) =~= addr@);
    while k > 0
        invariant
            k <= len,
            len == addr@.len(),
            crate::runtime::last_index_of(addr@, ':') == crate::runtime::last_index_of(addr@.take(k as int), ':'),
        ensures
            k == 0 || addr@[k - 1] == ':',
        decreases k,
    {
        if addr.get_char(k - 1) == ':' {
            break;
        }
        assert(addr@.take(k as int).drop_last() =~= addr@.take(k - 1));
        k = k - 1;
    }
    if k == 0 {
        assert(addr@.take(0) =~= Seq::<char>::empty());
        return None;
    }
    assert(addr@.take(k as int).last() == ':');
    let host = crate::text::owned(addr.substring_char(0, k - 1));
    let port = crate::text::owned(addr.substring_char(k, len));
    Some((host, port))
}

} // verus!
