use coral::conn::{close_active, least_index, select_client, ClientStats, CLEANED, CLEANING, CLOSED, NORMAL, REJECT};
use coral::http_pool::{HttpSendHandle, HttpSendPool};
use coral::proxy_pool::{PoolAction, PxyConn, PxyPool};

#[test]
fn close_moves_active_states_only() {
    assert_eq!(close_active(NORMAL), CLOSED);
    assert_eq!(close_active(REJECT), CLOSED);
    assert_eq!(close_active(CLOSED), CLOSED);
    assert_eq!(close_active(CLEANING), CLEANING);
    assert_eq!(close_active(CLEANED), CLEANED);
}

#[test]
fn least_index_picks_first_minimum() {
    assert_eq!(least_index(&vec![5, 3, 3, 9], 10), Some(1));
    assert_eq!(least_index(&vec![10, 12], 10), None);
    assert_eq!(least_index(&vec![], 10), None);
}

#[test]
fn client_stats_usage() {
    let mut s = ClientStats::new();
    assert_eq!(s.usage_count(), (0, NORMAL));
    let g = s.usage_add();
    assert_eq!(s.usage_count(), (1, NORMAL));
    s.release(g);
    assert_eq!(s.usage_count(), (0, NORMAL));
    let g = s.usage_add();
    assert_eq!(s.h2_usage_count(false), (u32::MAX, REJECT));
    assert_eq!(s.h2_usage_count(true), (u32::MAX, CLOSED));
    assert_eq!(s.state, CLOSED);
    s.release(g);
    let mut t = ClientStats { count: 2, state: CLOSED };
    assert_eq!(t.h2_usage_count(false), (u32::MAX, CLEANING));
    assert_eq!(t.state, CLEANING);
    let mut u = ClientStats { count: 4, state: CLEANING };
    assert_eq!(u.h2_usage_count(false), (u32::MAX, CLEANED));
    let mut w = ClientStats::new();
    assert_eq!(w.h2_usage_count(false), (0, NORMAL));
}

#[test]
fn release_undoes_add_on_values() {
    let mut s = ClientStats { count: u32::MAX, state: NORMAL };
    let g = s.usage_add();
    assert_eq!(s.count, 0);
    s.release(g);
    assert_eq!(s.count, u32::MAX);
}

#[test]
fn client_selection() {
    let pick = select_client(&vec![(3, NORMAL), (1, REJECT), (2, NORMAL), (0, CLOSED)]);
    assert_eq!(pick.index, Some(2));
    assert!(pick.clean);
    let none = select_client(&vec![(0, REJECT), (0, CLEANING)]);
    assert_eq!(none.index, None);
    assert!(!none.clean);
}

#[test]
fn http_pool_lifecycle() {
    let mut pool: HttpSendPool<u8> = HttpSendPool::new();
    assert!(pool.add(HttpSendHandle::new(1, "10.0.0.1:80")));
    assert!(pool.add(HttpSendHandle::new(2, "10.0.0.2:80")));
    assert!(!pool.add(HttpSendHandle::new(3, "10.0.0.1:80")));
    assert_eq!(pool.len(), 2);
    {
        let h = pool.handle_mut(0);
        let (sender, guard) = h.get_sender();
        assert_eq!(*sender, 1);
        assert_eq!(h.get_count(), 1);
        let _ = guard;
    }
    let (picked, remove) = pool.get(&vec![false, false]);
    assert_eq!(picked, Some(1));
    assert!(!remove);
    let (picked, _) = pool.get(&vec![false, true]);
    assert_eq!(picked, Some(0));
    assert_eq!(pool.handle(1).get_state(), CLOSED);
    let (_, _) = pool.get(&vec![false, true]);
    assert_eq!(pool.handle(1).get_state(), CLEANING);
    assert!(pool.add(HttpSendHandle::new(4, "10.0.0.2:80")));
    pool.remove();
    assert_eq!(pool.len(), 3);
    assert_eq!(pool.handle(2).get_addr(), "10.0.0.2:80");
}

#[test]
fn http_handle_check() {
    let mut h = HttpSendHandle::new((), "a");
    assert!(h.is_repeat("a"));
    assert!(!h.is_repeat("b"));
    assert_eq!(h.check(false), (false, 0));
    assert_eq!(h.check(true), (false, u32::MAX));
    assert_eq!(h.get_state(), CLOSED);
    assert!(!h.is_repeat("a"));
    assert_eq!(h.check(false), (false, u32::MAX));
    assert_eq!(h.get_state(), CLEANING);
    let (_, g) = h.get_sender();
    h.release(g);
    assert_eq!(h.get_count(), 0);
}

#[test]
fn proxy_pool_lifecycle() {
    let mut pool: PxyPool<&str> = PxyPool::new();
    pool.add(PxyConn::new("a", "1.1.1.1:1"));
    pool.add(PxyConn::new("b", "1.1.1.2:1"));
    {
        let c = pool.conn_mut(0);
        let (s, g) = c.get_sender();
        assert_eq!(*s, "a");
        let _ = g;
    }
    let (picked, actions) = pool.balance(&vec![false, false]);
    assert_eq!(picked, Some(1));
    assert_eq!(actions, vec![PoolAction::Nothing, PoolAction::Nothing]);
    let (picked, actions) = pool.balance(&vec![false, true]);
    assert_eq!(picked, Some(0));
    assert_eq!(actions, vec![PoolAction::Nothing, PoolAction::Nothing]);
    let (_, actions) = pool.balance(&vec![false, true]);
    assert_eq!(actions[1], PoolAction::Recover);
    assert_eq!(pool.conn(1).get_state(), CLEANING);
    assert!(pool.conn_mut(1).clean_check());
    assert_eq!(pool.conn(1).get_state(), CLEANED);
    let (_, actions) = pool.balance(&vec![false, true]);
    assert_eq!(actions[1], PoolAction::Sweep);
    pool.remove();
    assert_eq!(pool.len(), 1);
    assert_eq!(pool.conn(0).get_addr(), "1.1.1.1:1");
    assert_eq!(pool.conn(0).get_count(), 1);
}

#[test]
fn proxy_conn_states() {
    let mut c = PxyConn::new(0u8, "x");
    let (_, g) = c.get_sender();
    assert!(!c.clean_check());
    c.release(g);
    assert!(c.clean_check());
    assert_eq!(c.get_state(), NORMAL);
    assert_eq!(c.check_state(false), (0, PoolAction::Nothing));
    assert_eq!(c.check_state(true), (u64::MAX, PoolAction::Nothing));
    assert_eq!(c.check_state(false), (u64::MAX, PoolAction::Recover));
    assert_eq!(c.check_state(true), (u64::MAX, PoolAction::Nothing));
}

#[test]
fn recovering_conn_is_never_picked() {
    let mut pool: PxyPool<u8> = PxyPool::new();
    pool.add(PxyConn::new(1, "a"));
    let (_, _) = pool.balance(&vec![true]);
    let (picked, actions) = pool.balance(&vec![false]);
    assert_eq!(picked, None);
    assert_eq!(actions, vec![PoolAction::Recover]);
    let (picked, _) = pool.balance(&vec![false]);
    assert_eq!(picked, None);
}

#[test]
fn host_and_port_split_at_last_colon() {
    use_split_host();
}

fn use_split_host() {
    assert_eq!(coral::http_pool::split_host("backend.local:9001"), Some(("backend.local".to_string(), "9001".to_string())));
    assert_eq!(coral::http_pool::split_host("[::1]:443"), Some(("[::1]".to_string(), "443".to_string())));
    assert_eq!(coral::http_pool::split_host("no-port"), None);
    assert_eq!(coral::http_pool::split_host(":"), Some((String::new(), String::new())));
}

#[test]
fn peeking_counts_nothing() {
    let mut h = HttpSendHandle::new(7u8, "a:1");
    assert_eq!(*h.peek_sender(), 7);
    assert_eq!(h.get_count(), 0);
    let (_, g) = h.get_sender();
    assert_eq!(h.get_count(), 1);
    h.release(g);
    let c = PxyConn::new(9u8, "b:2");
    assert_eq!(*c.peek_sender(), 9);
    assert_eq!(c.get_count(), 0);
}
