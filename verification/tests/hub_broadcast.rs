//! Broadcast fan-out: ordering, isolation of failed sessions, counts.

use rustcast::hub::BroadcastHub;

fn packets(n: usize) -> Vec<Vec<u8>> {
    (0..n).map(|i| vec![i as u8, (i * 2) as u8]).collect()
}

#[test]
fn every_session_sees_every_packet_in_order() {
    let mut hub = BroadcastHub::new();
    hub.register(1);
    hub.register(2);
    hub.register(3);
    let ps = packets(5);
    hub.broadcast_all(&ps);
    assert_eq!(hub.client_count(), 3);
    for q in &hub.sessions {
        assert!(q.connected);
        assert_eq!(q.delivered, ps);
    }
}

#[test]
fn failed_session_is_dropped_and_others_unaffected() {
    let mut hub = BroadcastHub::new();
    hub.register(10);
    hub.register(20);
    hub.register(30);
    let ps = packets(5);
    // First two packets reach everyone.
    hub.broadcast(&ps[0]);
    hub.broadcast(&ps[1]);
    // The middle session's writer goes away.
    hub.mark_disconnected(1);
    assert_eq!(hub.client_count(), 3);
    // The next pass drops it; the rest keep receiving.
    hub.broadcast(&ps[2]);
    assert_eq!(hub.client_count(), 2);
    hub.broadcast(&ps[3]);
    hub.broadcast(&ps[4]);
    assert_eq!(hub.sessions[0].serial, 10);
    assert_eq!(hub.sessions[1].serial, 30);
    for q in &hub.sessions {
        assert_eq!(q.delivered, ps);
    }
}

#[test]
fn late_session_never_sees_old_packets() {
    let mut hub = BroadcastHub::new();
    hub.register(1);
    let ps = packets(4);
    hub.broadcast(&ps[0]);
    hub.broadcast(&ps[1]);
    hub.register(2);
    hub.broadcast(&ps[2]);
    hub.broadcast(&ps[3]);
    assert_eq!(hub.sessions[0].delivered, ps);
    assert_eq!(hub.sessions[1].delivered, vec![ps[2].clone(), ps[3].clone()]);
}

#[test]
fn empty_hub_broadcast_is_harmless() {
    let mut hub = BroadcastHub::new();
    hub.broadcast(&vec![1u8, 2, 3]);
    assert_eq!(hub.client_count(), 0);
}
