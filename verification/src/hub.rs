//! The broadcast hub: one sequential stream of compressed packets fanned
//! out to every registered client queue, in arrival order.  A queue whose
//! receiver has gone away is dropped at the next fan-out pass and receives
//! nothing more; the others are unaffected.

use vstd::prelude::*;
use vstd::slice::slice_to_vec;

verus! {

/// One client's outbound queue as the hub sees it.
pub struct SessionQueue {
    /// The session's stream serial.
    pub serial: u32,
    /// False once the session's writer has gone away.
    pub connected: bool,
    /// Every packet delivered to this session, in delivery order.
    pub delivered: Vec<Vec<u8>>,
}

/// The mathematical image of a session queue.
pub ghost struct SessionModel {
    pub serial: u32,
    pub connected: bool,
    pub delivered: Seq<Seq<u8>>,
}

impl View for SessionQueue {
    type V = SessionModel;

    open spec fn view(&self) -> SessionModel {
        SessionModel {
            serial: self.serial,
            connected: self.connected,
            delivered: self.delivered@.map_values(|v: Vec<u8>| v@),
        }
    }
}

/// A session with one more packet delivered.
pub open spec fn deliver_model(s: SessionModel, p: Seq<u8>) -> SessionModel {
    SessionModel { serial: s.serial, connected: s.connected, delivered: s.delivered.push(p) }
}

/// A session whose writer has gone away.
pub open spec fn disconnect_model(s: SessionModel) -> SessionModel {
    SessionModel { serial: s.serial, connected: false, delivered: s.delivered }
}

/// One fan-out pass: every connected session receives the packet and is
/// retained, in order; every disconnected session is dropped.
pub open spec fn hub_broadcast(ss: Seq<SessionModel>, p: Seq<u8>) -> Seq<SessionModel>
    decreases ss.len(),
{
    if ss.len() == 0 {
        Seq::empty()
    } else {
        let rest = hub_broadcast(ss.drop_first(), p);
        if ss.first().connected {
            seq![deliver_model(ss.first(), p)] + rest
        } else {
            rest
        }
    }
}

/// Fan-out of a whole packet sequence, one pass per packet, in order.
pub open spec fn hub_broadcast_all(ss: Seq<SessionModel>, ps: Seq<Seq<u8>>) -> Seq<
    SessionModel,
>
    decreases ps.len(),
{
    if ps.len() == 0 {
        ss
    } else {
        hub_broadcast_all(hub_broadcast(ss, ps.first()), ps.drop_first())
    }
}

/// A fan-out pass distributes over concatenation of session lists.
proof fn lemma_hub_broadcast_append(a: Seq<SessionModel>, b: Seq<SessionModel>, p: Seq<u8>)
    ensures
        hub_broadcast(a + b, p) == hub_broadcast(a, p) + hub_broadcast(b, p),
    decreases a.len(),
{
    if a.len() == 0 {
        assert(a + b =~= b);
        assert(hub_broadcast(a, p) + hub_broadcast(b, p) =~= hub_broadcast(b, p));
    } else {
        lemma_hub_broadcast_append(a.drop_first(), b, p);
        assert((a + b).first() == a.first());
        assert((a + b).drop_first() =~= a.drop_first() + b);
        if a.first().connected {
            assert(seq![deliver_model(a.first(), p)] + (hub_broadcast(a.drop_first(), p)
                + hub_broadcast(b, p)) =~= (seq![deliver_model(a.first(), p)]
                + hub_broadcast(a.drop_first(), p)) + hub_broadcast(b, p));
        }
    }
}

/// On a list of connected sessions a pass drops nobody: every session
/// receives the packet, in place.
proof fn lemma_hub_broadcast_connected(ss: Seq<SessionModel>, p: Seq<u8>)
    requires
        forall|i: int| 0 <= i < ss.len() ==> (#[trigger] ss[i]).connected,
    ensures
        hub_broadcast(ss, p).len() == ss.len(),
        forall|i: int|
            0 <= i < ss.len() ==> #[trigger] hub_broadcast(ss, p)[i] == deliver_model(
                ss[i],
                p,
            ),
    decreases ss.len(),
{
    if ss.len() > 0 {
        assert(ss.first() == ss[0]);
        lemma_hub_broadcast_connected(ss.drop_first(), p);
    }
}

/// Sessions that all stay connected observe every broadcast packet, in
/// broadcast order, appended to what they already had.
pub proof fn lemma_broadcast_all_connected(ss: Seq<SessionModel>, ps: Seq<Seq<u8>>)
    requires
        forall|i: int| 0 <= i < ss.len() ==> (#[trigger] ss[i]).connected,
    ensures
        hub_broadcast_all(ss, ps).len() == ss.len(),
        forall|i: int|
            0 <= i < ss.len() ==> #[trigger] hub_broadcast_all(ss, ps)[i] == (SessionModel {
                serial: ss[i].serial,
                connected: true,
                delivered: ss[i].delivered + ps,
            }),
    decreases ps.len(),
{
    let out = hub_broadcast_all(ss, ps);
    if ps.len() == 0 {
        assert forall|i: int| 0 <= i < ss.len() implies #[trigger] out[i] == SessionModel {
            serial: ss[i].serial,
            connected: true,
            delivered: ss[i].delivered + ps,
        } by {
            assert(ss[i].delivered + ps =~= ss[i].delivered);
        }
    } else {
        let mid = hub_broadcast(ss, ps.first());
        lemma_hub_broadcast_connected(ss, ps.first());
        lemma_broadcast_all_connected(mid, ps.drop_first());
        assert forall|i: int| 0 <= i < ss.len() implies #[trigger] out[i] == SessionModel {
            serial: ss[i].serial,
            connected: true,
            delivered: ss[i].delivered + ps,
        } by {
            assert(mid[i] == deliver_model(ss[i], ps.first()));
            assert(ss[i].delivered.push(ps.first()) + ps.drop_first() =~= ss[i].delivered
                + ps);
        }
    }
}

/// One session's queue goes away after packet `k`: the remaining sessions
/// still observe every packet in order, and from the next fan-out pass on
/// the failed session is no longer registered.
pub proof fn lemma_broadcast_isolates_failure(
    ss: Seq<SessionModel>,
    ps: Seq<Seq<u8>>,
    k: int,
    j: int,
)
    requires
        forall|i: int| 0 <= i < ss.len() ==> (#[trigger] ss[i]).connected,
        0 <= j < ss.len(),
        0 <= k < ps.len(),
    ensures
        ({
            let mid = hub_broadcast_all(ss, ps.take(k));
            let failed = mid.update(j, disconnect_model(mid[j]));
            let out = hub_broadcast_all(failed, ps.skip(k));
            &&& out.len() == ss.len() - 1
            &&& forall|i: int|
                0 <= i < j ==> #[trigger] out[i] == (SessionModel {
                    serial: ss[i].serial,
                    connected: true,
                    delivered: ss[i].delivered + ps,
                })
            &&& forall|i: int|
                j < i < ss.len() ==> #[trigger] out[i - 1] == (SessionModel {
                    serial: ss[i].serial,
                    connected: true,
                    delivered: ss[i].delivered + ps,
                })
        }),
{
    let mid = hub_broadcast_all(ss, ps.take(k));
    let failed = mid.update(j, disconnect_model(mid[j]));
    let out = hub_broadcast_all(failed, ps.skip(k));
    lemma_broadcast_all_connected(ss, ps.take(k));
    // One pass with the failed session present: everyone else gets ps[k],
    // the failed session is dropped.
    let p = ps.skip(k).first();
    assert(p == ps[k]);
    let a = failed.take(j);
    let b = failed.skip(j + 1);
    assert(failed =~= a + (seq![failed[j]] + b));
    lemma_hub_broadcast_append(a, seq![failed[j]] + b, p);
    lemma_hub_broadcast_append(seq![failed[j]], b, p);
    assert(hub_broadcast(seq![failed[j]], p) =~= Seq::<SessionModel>::empty()) by {
        assert(seq![failed[j]].first() == failed[j]);
        assert(!failed[j].connected);
        assert(seq![failed[j]].drop_first() =~= Seq::<SessionModel>::empty());
        assert(hub_broadcast(Seq::<SessionModel>::empty(), p)
            =~= Seq::<SessionModel>::empty());
    }
    assert forall|i: int| 0 <= i < a.len() implies (#[trigger] a[i]).connected by {}
    assert forall|i: int| 0 <= i < b.len() implies (#[trigger] b[i]).connected by {}
    lemma_hub_broadcast_connected(a, p);
    lemma_hub_broadcast_connected(b, p);
    let after_one = hub_broadcast(failed, p);
    assert(after_one =~= hub_broadcast(a, p) + hub_broadcast(b, p));
    assert(after_one.len() == ss.len() - 1);
    assert forall|i: int| 0 <= i < after_one.len() implies (#[trigger] after_one[i]).connected
        by {}
    lemma_broadcast_all_connected(after_one, ps.skip(k).drop_first());
    assert(hub_broadcast_all(failed, ps.skip(k)) == hub_broadcast_all(
        after_one,
        ps.skip(k).drop_first(),
    ));
    assert forall|i: int| 0 <= i < j implies #[trigger] out[i] == SessionModel {
        serial: ss[i].serial,
        connected: true,
        delivered: ss[i].delivered + ps,
    } by {
        assert(after_one[i] == deliver_model(a[i], p));
        assert(a[i] == mid[i]);
        assert((ss[i].delivered + ps.take(k)).push(ps[k]) + ps.skip(k).drop_first()
            =~= ss[i].delivered + ps);
    }
    assert forall|i: int| j < i < ss.len() implies #[trigger] out[i - 1] == SessionModel {
        serial: ss[i].serial,
        connected: true,
        delivered: ss[i].delivered + ps,
    } by {
        assert(after_one[i - 1] == deliver_model(b[i - j - 1], p));
        assert(b[i - j - 1] == mid[i]);
        assert((ss[i].delivered + ps.take(k)).push(ps[k]) + ps.skip(k).drop_first()
            =~= ss[i].delivered + ps);
    }
}

/// The hub itself: the registered client queues, scanned on every pass.
pub struct BroadcastHub {
    /// The registered sessions, in registration order.
    pub sessions: Vec<SessionQueue>,
}

impl View for BroadcastHub {
    type V = Seq<SessionModel>;

    open spec fn view(&self) -> Seq<SessionModel> {
        self.sessions@.map_values(|s: SessionQueue| s@)
    }
}

impl BroadcastHub {
    /// A hub with no registered sessions.
    pub fn new() -> (hub: Self)
        ensures
            hub@ =~= Seq::<SessionModel>::empty(),
    {
        BroadcastHub { sessions: Vec::new() }
    }

    /// The number of registered sessions.
    pub fn client_count(&self) -> (n: usize)
        ensures
            n == self@.len(),
    {
        self.sessions.len()
    }

    /// Register a new session: appended to the collection, connected, with
    /// nothing delivered yet.  A session registered after a fan-out pass
    /// never sees the packets that came before it.
    pub fn register(&mut self, serial: u32)
        ensures
            final(self)@ =~= old(self)@.push(
                SessionModel { serial, connected: true, delivered: Seq::empty() },
            ),
    {
        let q = SessionQueue { serial, connected: true, delivered: Vec::new() };
        proof {
            assert(q@.delivered =~= Seq::<Seq<u8>>::empty());
        }
        self.sessions.push(q);
    }

    /// Record that a session's writer has gone away; the session is
    /// dropped at the next fan-out pass.
    pub fn mark_disconnected(&mut self, i: usize)
        requires
            i < old(self)@.len(),
        ensures
            final(self)@ =~= old(self)@.update(i as int, disconnect_model(old(self)@[i as int])),
    {
        let q = self.sessions.remove(i);
        let q2 = SessionQueue { serial: q.serial, connected: false, delivered: q.delivered };
        self.sessions.insert(i, q2);
    }

    /// One fan-out pass: deliver `packet` to every connected session and
    /// drop the rest.
    pub fn broadcast(&mut self, packet: &Vec<u8>)
        ensures
            final(self)@ == hub_broadcast(old(self)@, packet@),
    {
        let mut olds = self.sessions.split_off(0);
        let mut kept: Vec<SessionQueue> = Vec::new();
        proof {
            assert(self@ + olds@.map_values(|s: SessionQueue| s@) =~= old(self)@);
            assert(kept@.map_values(|s: SessionQueue| s@) =~= Seq::<SessionModel>::empty());
        }
        while olds.len() > 0
            invariant
                hub_broadcast(old(self)@, packet@) == kept@.map_values(|s: SessionQueue| s@)
                    + hub_broadcast(olds@.map_values(|s: SessionQueue| s@), packet@),
            decreases olds@.len(),
        {
            let ghost pre = olds@.map_values(|s: SessionQueue| s@);
            let mut q = olds.remove(0);
            proof {
                assert(olds@.map_values(|s: SessionQueue| s@) =~= pre.drop_first());
                assert(q@ == pre.first());
            }
            if q.connected {
                let copy = slice_to_vec(packet.as_slice());
                q.delivered.push(copy);
                proof {
                    assert(q@.delivered =~= deliver_model(pre.first(), packet@).delivered);
                }
                let ghost kpre = kept@.map_values(|s: SessionQueue| s@);
                kept.push(q);
                proof {
                    assert(kept@.map_values(|s: SessionQueue| s@) =~= kpre.push(
                        deliver_model(pre.first(), packet@),
                    ));
                    assert(kpre.push(deliver_model(pre.first(), packet@)) + hub_broadcast(
                        pre.drop_first(),
                        packet@,
                    ) =~= kpre + hub_broadcast(pre, packet@));
                }
            } else {
                proof {
                    assert(hub_broadcast(pre, packet@) == hub_broadcast(
                        pre.drop_first(),
                        packet@,
                    ));
                }
            }
        }
        proof {
            assert(olds@.map_values(|s: SessionQueue| s@) =~= Seq::<SessionModel>::empty());
            assert(hub_broadcast(Seq::<SessionModel>::empty(), packet@)
                =~= Seq::<SessionModel>::empty());
        }
        self.sessions = kept;
        proof {
            assert(self@ =~= kept@.map_values(|s: SessionQueue| s@)
                + Seq::<SessionModel>::empty());
            assert(self@ =~= hub_broadcast(old(self)@, packet@));
        }
    }

    /// Fan a whole packet sequence out, in order.
    pub fn broadcast_all(&mut self, packets: &Vec<Vec<u8>>)
        ensures
            final(self)@ == hub_broadcast_all(
                old(self)@,
                packets@.map_values(|v: Vec<u8>| v@),
            ),
    {
        let ghost ps = packets@.map_values(|v: Vec<u8>| v@);
        proof {
            assert(ps.skip(0) =~= ps);
        }
        let mut i: usize = 0;
        while i < packets.len()
            invariant
                i <= packets@.len(),
                ps == packets@.map_values(|v: Vec<u8>| v@),
                hub_broadcast_all(self@, ps.skip(i as int)) == hub_broadcast_all(
                    old(self)@,
                    ps,
                ),
            decreases packets@.len() - i,
        {
            proof {
                assert(ps.skip(i as int).first() == ps[i as int]);
                assert(ps.skip(i as int).drop_first() =~= ps.skip(i as int + 1));
            }
            self.broadcast(&packets[i]);
            i = i + 1;
        }
        proof {
            assert(ps.skip(packets@.len() as int) =~= Seq::<Seq<u8>>::empty());
        }
    }
}

} // verus!
