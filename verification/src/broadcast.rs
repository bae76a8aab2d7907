use vstd::prelude::*;
use crate::engine::{
    body_msg_id, counter_after, key_or_invalid, own_id, returns_messages, HandlerSet, Node,
    NodeView,
};
use crate::helper::Error;
use crate::message::{
    messages_view, topology_view, BroadcastMessage, Message, MessageView, NodeId, Type, Workload,
    WorkloadView,
};

verus! {

/// One ingest step of the dedup log: a value already seen leaves the log
/// unchanged; a new value is appended, preserving first-seen order.
pub open spec fn absorb(log: Seq<u64>, v: u64) -> Seq<u64> {
    if log.contains(v) {
        log
    } else {
        log.push(v)
    }
}

/// The dedup log after ingesting a whole sequence of values, oldest first.
pub open spec fn absorb_all(log: Seq<u64>, vs: Seq<u64>) -> Seq<u64>
    decreases vs.len(),
{
    if vs.len() == 0 {
        log
    } else {
        absorb_all(absorb(log, vs[0]), vs.drop_first())
    }
}

/// The index of the first occurrence of `v` in `vs`.
pub open spec fn first_idx(vs: Seq<u64>, v: u64) -> int
    decreases vs.len(),
{
    if vs.len() == 0 {
        0
    } else if vs[0] == v {
        0
    } else {
        1 + first_idx(vs.drop_first(), v)
    }
}

/// The flood messages a node emits for a newly seen value: one `Broadcast`
/// per neighbor other than the sender, in neighbor order, each carrying the
/// value and the next fresh message id.
pub open spec fn fanout(
    neighbors: Seq<Seq<char>>,
    sender: Seq<char>,
    src: Seq<char>,
    v: u64,
    c0: int,
) -> Seq<MessageView>
    decreases neighbors.len(),
{
    if neighbors.len() == 0 {
        Seq::empty()
    } else {
        let pre = fanout(neighbors.drop_last(), sender, src, v, c0);
        if neighbors.last() == sender {
            pre
        } else {
            pre.push(
                MessageView {
                    src,
                    dest: neighbors.last(),
                    body: WorkloadView::Broadcast { msg_id: c0 + pre.len() + 1, message: v },
                },
            )
        }
    }
}

/// The fan-out a node in state `s` emits on ingesting value `v` from
/// `sender`: empty if the value was already seen.
pub open spec fn ingest_fanout(s: NodeView, sender: Seq<char>, v: u64) -> Seq<MessageView> {
    if s.broadcast_messages.contains(v) {
        Seq::empty()
    } else {
        fanout(s.neighbors, sender, own_id(s), v, s.msg_counter as int)
    }
}

/// The neighbor row assigned to `id` by a topology, or the empty list where
/// the topology has no row for `id`.
pub open spec fn topo_lookup(t: Seq<(Seq<char>, Seq<Seq<char>>)>, id: Seq<char>) -> Seq<Seq<char>>
    decreases t.len(),
{
    if t.len() == 0 {
        Seq::empty()
    } else if t[0].0 == id {
        t[0].1
    } else {
        topo_lookup(t.drop_first(), id)
    }
}

/// A fan-out never emits more messages than there are neighbors.
pub proof fn lemma_fanout_len(
    neighbors: Seq<Seq<char>>,
    sender: Seq<char>,
    src: Seq<char>,
    v: u64,
    c0: int,
)
    ensures
        fanout(neighbors, sender, src, v, c0).len() <= neighbors.len(),
    decreases neighbors.len(),
{
    if neighbors.len() > 0 {
        lemma_fanout_len(neighbors.drop_last(), sender, src, v, c0);
    }
}

/// Fan-out completeness and exactness: the flood for a new value addresses
/// exactly the neighbors other than the sender, in neighbor order; every
/// emitted message carries the value, the node's own source, and a fresh
/// message id; and the ids are pairwise distinct, numbered consecutively from
/// the counter.
pub proof fn lemma_fanout_exact(
    neighbors: Seq<Seq<char>>,
    sender: Seq<char>,
    src: Seq<char>,
    v: u64,
    c0: int,
)
    ensures
        ({
            let out = fanout(neighbors, sender, src, v, c0);
            let targets = neighbors.filter(|n: Seq<char>| n != sender);
            &&& out.len() == targets.len()
            &&& forall|i: int|
                0 <= i < out.len() ==> out[i] == (MessageView {
                    src,
                    dest: targets[i],
                    body: WorkloadView::Broadcast { msg_id: c0 + i + 1, message: v },
                })
            &&& forall|i: int| 0 <= i < out.len() ==> out[i].dest != sender
            &&& forall|i: int, j: int|
                0 <= i < j < out.len() ==> body_msg_id(out[i].body) != body_msg_id(out[j].body)
        }),
    decreases neighbors.len(),
{
    let out = fanout(neighbors, sender, src, v, c0);
    let targets = neighbors.filter(|n: Seq<char>| n != sender);
    if neighbors.len() == 0 {
        assert(neighbors.filter(|n: Seq<char>| n != sender) =~= Seq::<Seq<char>>::empty());
    } else {
        let pre_n = neighbors.drop_last();
        lemma_fanout_exact(pre_n, sender, src, v, c0);
        let pre_out = fanout(pre_n, sender, src, v, c0);
        let pre_targets = pre_n.filter(|n: Seq<char>| n != sender);
        reveal_with_fuel(Seq::filter, 2);
        if neighbors.last() == sender {
            assert(targets =~= pre_targets);
            assert(out =~= pre_out);
        } else {
            assert(targets =~= pre_targets.push(neighbors.last()));
            assert(out =~= pre_out.push(
                MessageView {
                    src,
                    dest: neighbors.last(),
                    body: WorkloadView::Broadcast { msg_id: c0 + pre_out.len() + 1, message: v },
                },
            ));
        }
    }
}

/// Ingesting a list of values one at a time, then one more, is one more
/// ingest step on the accumulated log.
proof fn lemma_absorb_all_snoc(log: Seq<u64>, vs: Seq<u64>, v: u64)
    ensures
        absorb_all(log, vs.push(v)) == absorb(absorb_all(log, vs), v),
    decreases vs.len(),
{
    if vs.len() == 0 {
        assert(vs.push(v)[0] == v);
        assert(vs.push(v).drop_first() =~= Seq::<u64>::empty());
        assert(absorb_all(log, vs) == log);
        assert(absorb_all(absorb(log, v), Seq::<u64>::empty()) == absorb(log, v));
        assert(absorb_all(log, vs.push(v)) == absorb_all(
            absorb(log, vs.push(v)[0]),
            vs.push(v).drop_first(),
        ));
    } else {
        assert(vs.push(v)[0] == vs[0]);
        assert(vs.push(v).drop_first() =~= vs.drop_first().push(v));
        lemma_absorb_all_snoc(absorb(log, vs[0]), vs.drop_first(), v);
    }
}

/// Appending a value does not move the first occurrence of a value already
/// present; a value not yet present first occurs at the old length.
proof fn lemma_first_idx_push(vs: Seq<u64>, y: u64, x: u64)
    ensures
        vs.contains(x) ==> first_idx(vs.push(y), x) == first_idx(vs, x),
        !vs.contains(x) && x == y ==> first_idx(vs.push(y), x) == vs.len(),
        vs.contains(x) ==> 0 <= first_idx(vs, x) < vs.len(),
    decreases vs.len(),
{
    if vs.len() == 0 {
        if x == y {
            assert(vs.push(y)[0] == y);
        }
    } else {
        assert(vs.push(y)[0] == vs[0]);
        assert(vs.push(y).drop_first() =~= vs.drop_first().push(y));
        lemma_first_idx_push(vs.drop_first(), y, x);
        if vs[0] != x {
            assert(vs.contains(x) ==> vs.drop_first().contains(x)) by {
                if vs.contains(x) {
                    let k = choose|k: int| 0 <= k < vs.len() && vs[k] == x;
                    assert(vs.drop_first()[k - 1] == x);
                }
            }
            assert(!vs.contains(x) ==> !vs.drop_first().contains(x)) by {
                if vs.drop_first().contains(x) {
                    let k = choose|k: int| 0 <= k < vs.drop_first().len() && vs.drop_first()[k]
                        == x;
                    assert(vs[k + 1] == x);
                }
            }
        }
    }
}

/// The dedup log built from any sequence of ingested broadcast values holds
/// exactly the distinct values of the sequence, each exactly once, in
/// first-seen order.
pub proof fn lemma_log_distinct_first_seen(vs: Seq<u64>)
    ensures
        ({
            let log = absorb_all(Seq::empty(), vs);
            &&& forall|x: u64| log.contains(x) <==> vs.contains(x)
            &&& log.no_duplicates()
            &&& forall|i: int, j: int|
                0 <= i < j < log.len() ==> first_idx(vs, log[i]) < first_idx(vs, log[j])
        }),
    decreases vs.len(),
{
    let log = absorb_all(Seq::empty(), vs);
    if vs.len() == 0 {
    } else {
        let pre = vs.drop_last();
        let v = vs.last();
        lemma_log_distinct_first_seen(pre);
        let pre_log = absorb_all(Seq::empty(), pre);
        assert(vs =~= pre.push(v));
        lemma_absorb_all_snoc(Seq::empty(), pre, v);
        assert(log == absorb(pre_log, v));
        assert forall|x: u64| vs.contains(x) <==> pre.contains(x) || x == v by {
            if vs.contains(x) {
                let k = choose|k: int| 0 <= k < vs.len() && vs[k] == x;
                if k < pre.len() {
                    assert(pre[k] == x);
                }
            }
            if pre.contains(x) {
                let k = choose|k: int| 0 <= k < pre.len() && pre[k] == x;
                assert(vs[k] == x);
            }
            if x == v {
                assert(vs[vs.len() - 1] == x);
            }
        }
        assert forall|x: u64| #[trigger] log.contains(x) <==> vs.contains(x) by {
            if pre_log.contains(v) {
            } else {
                assert(log == pre_log.push(v));
                if log.contains(x) {
                    let k = choose|k: int| 0 <= k < log.len() && log[k] == x;
                    if k < pre_log.len() {
                        assert(pre_log[k] == x);
                    }
                }
                if pre_log.contains(x) {
                    let k = choose|k: int| 0 <= k < pre_log.len() && pre_log[k] == x;
                    assert(log[k] == x);
                }
                if x == v {
                    assert(log[log.len() - 1] == x);
                }
            }
        }
        assert forall|x: u64| pre_log.contains(x) implies first_idx(vs, x) == first_idx(pre, x)
            && 0 <= first_idx(pre, x) < pre.len() by {
            lemma_first_idx_push(pre, v, x);
        }
        if pre_log.contains(v) {
            assert(log == pre_log);
        } else {
            assert(log == pre_log.push(v));
            assert(log.no_duplicates()) by {
                assert(forall|k: int| 0 <= k < pre_log.len() ==> log[k] == pre_log[k]);
                assert(log[log.len() - 1] == v);
            }
            lemma_first_idx_push(pre, v, v);
            assert(!pre.contains(v)) by {
                if pre.contains(v) {
                    assert(pre_log.contains(v));
                }
            }
            assert(first_idx(vs, v) == pre.len());
            assert forall|i: int, j: int| 0 <= i < j < log.len() implies first_idx(vs, log[i])
                < first_idx(vs, log[j]) by {
                assert(pre_log.contains(log[i]));
                if j < log.len() - 1 {
                    assert(pre_log.contains(log[j]));
                } else {
                    assert(log[j] == v);
                }
            }
        }
    }
}

/// Whether a log snapshot holds a value.
fn contains_value(log: &Vec<u64>, x: u64) -> (r: bool)
    ensures
        r == log@.contains(x),
{
    let mut i: usize = 0;
    while i < log.len()
        invariant
            i <= log.len(),
            forall|j: int| 0 <= j < i ==> log@[j] != x,
        decreases log.len() - i,
    {
        if log[i] == x {
            return true;
        }
        i += 1;
    }
    false
}

/// A copy of a list of node identities.
fn clone_ids(ids: &Vec<NodeId>) -> (r: Vec<NodeId>)
    ensures
        r@ == ids@,
        r.deep_view() == ids.deep_view(),
{
    let mut out: Vec<NodeId> = Vec::new();
    let mut i: usize = 0;
    while i < ids.len()
        invariant
            i <= ids.len(),
            out@ == ids@.subrange(0, i as int),
        decreases ids.len() - i,
    {
        out.push(ids[i].clone());
        proof {
            assert(out@ =~= ids@.subrange(0, i + 1));
        }
        i += 1;
    }
    proof {
        assert(out@ =~= ids@);
        assert(out.deep_view() =~= ids.deep_view());
    }
    out
}

/// The neighbor row this node takes from a topology: its own entry, or the
/// empty list where the topology has none. Rows for other nodes are ignored.
fn topology_lookup(topology: &Vec<(NodeId, Vec<NodeId>)>, id: &NodeId) -> (r: Vec<NodeId>)
    ensures
        r.deep_view() == topo_lookup(topology_view(topology@), id@),
{
    let ghost tv = topology_view(topology@);
    let mut i: usize = 0;
    proof {
        assert(tv.skip(0) =~= tv);
    }
    while i < topology.len()
        invariant
            i <= topology.len(),
            tv == topology_view(topology@),
            tv.len() == topology.len(),
            topo_lookup(tv, id@) == topo_lookup(tv.skip(i as int), id@),
        decreases topology.len() - i,
    {
        proof {
            assert(tv.skip(i as int)[0] == tv[i as int]);
            assert(tv.skip(i as int).drop_first() =~= tv.skip(i + 1));
        }
        if topology[i].0 == *id {
            return clone_ids(&topology[i].1);
        }
        i += 1;
    }
    proof {
        assert(tv.skip(i as int).len() == 0);
    }
    Vec::new()
}

/// Ingests one broadcast value: a value already seen is dropped with no
/// outbound traffic (the idempotent no-op that terminates the flood); a new
/// value is appended to the log and forwarded to every neighbor except the
/// sender, each copy carrying a distinct fresh message id.
pub fn broadcast_message(node: &mut Node, src: NodeId, message: BroadcastMessage) -> (replies: Vec<
    Message,
>)
    requires
        old(node)@.msg_counter + old(node)@.neighbors.len() <= u32::MAX,
    ensures
        final(node)@ == (NodeView {
            broadcast_messages: absorb(old(node)@.broadcast_messages, message),
            msg_counter: (old(node)@.msg_counter + ingest_fanout(old(node)@, src@, message).len())
                as u32,
            ..old(node)@
        }),
        messages_view(replies@) == ingest_fanout(old(node)@, src@, message),
{
    let ghost s0 = old(node)@;
    let log = node.broadcast_messages();
    let seen = contains_value(&log, message);
    let mut replies: Vec<Message> = Vec::new();
    if !seen {
        node.push_broadcast_message(message);
        let neighbors = node.neighbors();
        let ghost nv = s0.neighbors;
        let ghost c0 = s0.msg_counter as int;
        let mut i: usize = 0;
        proof {
            assert(nv.take(0) =~= Seq::<Seq<char>>::empty());
            assert(fanout(nv.take(0), src@, own_id(s0), message, c0) =~= Seq::<
                MessageView,
            >::empty());
            assert(messages_view(replies@) =~= Seq::<MessageView>::empty());
        }
        while i < neighbors.len()
            invariant
                i <= neighbors.len(),
                neighbors.deep_view() == nv,
                nv.len() == neighbors.len(),
                c0 == s0.msg_counter as int,
                c0 + nv.len() <= u32::MAX,
                messages_view(replies@) == fanout(nv.take(i as int), src@, own_id(s0), message, c0),
                replies@.len() == fanout(nv.take(i as int), src@, own_id(s0), message, c0).len(),
                node@ == (NodeView {
                    broadcast_messages: s0.broadcast_messages.push(message),
                    msg_counter: (c0 + fanout(
                        nv.take(i as int),
                        src@,
                        own_id(s0),
                        message,
                        c0,
                    ).len()) as u32,
                    ..s0
                }),
            decreases neighbors.len() - i,
        {
            proof {
                lemma_fanout_len(nv.take(i as int), src@, own_id(s0), message, c0);
                assert(fanout(nv.take(i as int), src@, own_id(s0), message, c0).len() <= i);
                assert(nv.take(i + 1).drop_last() =~= nv.take(i as int));
                assert(nv.take(i + 1).last() == nv[i as int]);
                assert(nv[i as int] == neighbors@[i as int]@);
            }
            let neighbor = &neighbors[i];
            if *neighbor != src {
                let mid = node.gen_msg_id();
                let body = Workload::Broadcast { msg_id: mid, message };
                let reply = node.reply(neighbor.clone(), body);
                replies.push(reply);
            }
            proof {
                assert(messages_view(replies@) =~= fanout(
                    nv.take(i + 1),
                    src@,
                    own_id(s0),
                    message,
                    c0,
                ));
            }
            i += 1;
        }
        proof {
            assert(nv.take(nv.len() as int) =~= nv);
        }
    } else {
        proof {
            assert(messages_view(replies@) =~= Seq::<MessageView>::empty());
        }
    }
    replies
}

/// The `Broadcast` handler: ingests the value, then appends one
/// `BroadcastOk` reply to the sender after the fan-out messages. The reply is
/// returned for every `Broadcast` received, seen or not.
pub fn handler_broadcast(node: &mut Node, msg: Message) -> (r: Result<Vec<Message>, Error>)
    requires
        msg@.body is Broadcast ==> old(node)@.msg_counter + old(node)@.neighbors.len() + 1
            <= u32::MAX,
    ensures
        msg@.body matches WorkloadView::Broadcast { msg_id, message: v } ==> ({
            let fan = ingest_fanout(old(node)@, msg@.src, v);
            &&& final(node)@ == (NodeView {
                broadcast_messages: absorb(old(node)@.broadcast_messages, v),
                msg_counter: (old(node)@.msg_counter + fan.len() + 1) as u32,
                ..old(node)@
            })
            &&& returns_messages(
                r,
                fan.push(
                    MessageView {
                        src: own_id(old(node)@),
                        dest: msg@.src,
                        body: WorkloadView::BroadcastOk {
                            in_reply_to: msg_id,
                            msg_id: old(node)@.msg_counter + fan.len() + 1,
                        },
                    },
                ),
            )
        }),
        !(msg@.body is Broadcast) ==> r == Err::<Vec<Message>, Error>(
            Error::ExpectedMessage { found: key_or_invalid(msg@.body), expected: Type::Broadcast },
        ) && final(node)@ == old(node)@,
        old(node)@.msg_counter <= final(node)@.msg_counter,
        r matches Ok(v) ==> forall|i: int|
            #![trigger v@[i]]
            0 <= i < v@.len() ==> (body_msg_id(v@[i]@.body) matches Some(id) ==> old(
                node,
            )@.msg_counter < id <= final(node)@.msg_counter),
{
    let Message { src, dest: _, body } = msg;
    match body {
        Workload::Broadcast { msg_id, message } => {
            proof {
                lemma_fanout_len(
                    old(node)@.neighbors,
                    src@,
                    own_id(old(node)@),
                    message,
                    old(node)@.msg_counter as int,
                );
            }
            let mut replies = broadcast_message(node, src.clone(), message);
            let mid = node.gen_msg_id();
            let ok_body = Workload::broadcast_ok(msg_id, mid);
            let reply = node.reply(src, ok_body);
            replies.push(reply);
            proof {
                let s0 = old(node)@;
                let c0 = s0.msg_counter as int;
                let fan = ingest_fanout(s0, src@, message);
                let c1 = node@.msg_counter as int;
                assert(messages_view(replies@) =~= fan.push(reply@));
                lemma_fanout_exact(s0.neighbors, src@, own_id(s0), message, c0);
                assert forall|i: int|
                    0 <= i < replies@.len() implies (body_msg_id(
                    #[trigger] replies@[i]@.body,
                ) matches Some(id) ==> c0 < id <= c1) by {
                    assert(messages_view(replies@)[i] == replies@[i]@);
                    if i < fan.len() {
                        assert(replies@[i]@ == fan[i]);
                    } else {
                        assert(replies@[i]@ == reply@);
                    }
                }
            }
            Ok(replies)
        },
        other => {
            let found = match other.key() {
                Ok(k) => k,
                Err(_) => Type::Invalid,
            };
            Err(Error::ExpectedMessage { found, expected: Type::Broadcast })
        },
    }
}

/// The `Read` handler: replies with a snapshot of the broadcast log, in
/// first-seen order, exactly as held.
pub fn handler_read(node: &mut Node, msg: Message) -> (r: Result<Vec<Message>, Error>)
    requires
        msg@.body is Read ==> old(node)@.msg_counter < u32::MAX,
    ensures
        msg@.body matches WorkloadView::Read { msg_id } ==> ({
            &&& final(node)@ == counter_after(old(node)@, 1)
            &&& returns_messages(
                r,
                seq![
                    (MessageView {
                        src: own_id(old(node)@),
                        dest: msg@.src,
                        body: WorkloadView::ReadOk {
                            in_reply_to: msg_id,
                            msg_id: old(node)@.msg_counter + 1,
                            messages: old(node)@.broadcast_messages,
                        },
                    }),
                ],
            )
        }),
        !(msg@.body is Read) ==> r == Err::<Vec<Message>, Error>(
            Error::ExpectedMessage { found: key_or_invalid(msg@.body), expected: Type::Read },
        ) && final(node)@ == old(node)@,
        old(node)@.msg_counter <= final(node)@.msg_counter,
        r matches Ok(v) ==> forall|i: int|
            #![trigger v@[i]]
            0 <= i < v@.len() ==> (body_msg_id(v@[i]@.body) matches Some(id) ==> old(
                node,
            )@.msg_counter < id <= final(node)@.msg_counter),
{
    let Message { src, dest: _, body } = msg;
    match body {
        Workload::Read { msg_id } => {
            let mid = node.gen_msg_id();
            let snapshot = node.broadcast_messages();
            let ok_body = Workload::read_ok(msg_id, mid, snapshot);
            let reply = node.reply(src, ok_body);
            let mut out: Vec<Message> = Vec::new();
            out.push(reply);
            proof {
                assert(messages_view(out@) =~= seq![reply@]);
                assert forall|i: int|
                    #![trigger out@[i]]
                    0 <= i < out@.len() implies (body_msg_id(out@[i]@.body) matches Some(id)
                    ==> old(node)@.msg_counter < id <= node@.msg_counter) by {
                    assert(messages_view(out@)[i] == out@[i]@);
                    assert(out@[i]@ == reply@);
                }
            }
            Ok(out)
        },
        other => {
            let found = match other.key() {
                Ok(k) => k,
                Err(_) => Type::Invalid,
            };
            Err(Error::ExpectedMessage { found, expected: Type::Read })
        },
    }
}

/// The `Topology` handler: takes this node's own row from the supplied map
/// (or no neighbors where the map has no row for it) and replies
/// `TopologyOk`. Neighbor identities are not validated against the peer list.
pub fn handler_topology(node: &mut Node, msg: Message) -> (r: Result<Vec<Message>, Error>)
    requires
        msg@.body is Topology ==> old(node)@.msg_counter < u32::MAX,
    ensures
        msg@.body matches WorkloadView::Topology { msg_id, topology } ==> ({
            &&& final(node)@ == (NodeView {
                neighbors: topo_lookup(topology, own_id(old(node)@)),
                msg_counter: (old(node)@.msg_counter + 1) as u32,
                ..old(node)@
            })
            &&& returns_messages(
                r,
                seq![
                    (MessageView {
                        src: own_id(old(node)@),
                        dest: msg@.src,
                        body: WorkloadView::TopologyOk {
                            in_reply_to: msg_id,
                            msg_id: old(node)@.msg_counter + 1,
                        },
                    }),
                ],
            )
        }),
        !(msg@.body is Topology) ==> r == Err::<Vec<Message>, Error>(
            Error::ExpectedMessage { found: key_or_invalid(msg@.body), expected: Type::Topology },
        ) && final(node)@ == old(node)@,
        old(node)@.msg_counter <= final(node)@.msg_counter,
        r matches Ok(v) ==> forall|i: int|
            #![trigger v@[i]]
            0 <= i < v@.len() ==> (body_msg_id(v@[i]@.body) matches Some(id) ==> old(
                node,
            )@.msg_counter < id <= final(node)@.msg_counter),
{
    let Message { src, dest: _, body } = msg;
    match body {
        Workload::Topology { msg_id, topology } => {
            let node_id = node.node_id();
            let neighbors = topology_lookup(&topology, &node_id);
            node.set_neighbors(neighbors);
            let mid = node.gen_msg_id();
            let ok_body = Workload::topology_ok(msg_id, mid);
            let reply = node.reply(src, ok_body);
            let mut out: Vec<Message> = Vec::new();
            out.push(reply);
            proof {
                assert(messages_view(out@) =~= seq![reply@]);
                assert forall|i: int|
                    #![trigger out@[i]]
                    0 <= i < out@.len() implies (body_msg_id(out@[i]@.body) matches Some(id)
                    ==> old(node)@.msg_counter < id <= node@.msg_counter) by {
                    assert(messages_view(out@)[i] == out@[i]@);
                    assert(out@[i]@ == reply@);
                }
            }
            Ok(out)
        },
        other => {
            let found = match other.key() {
                Ok(k) => k,
                Err(_) => Type::Invalid,
            };
            Err(Error::ExpectedMessage { found, expected: Type::Topology })
        },
    }
}

/// A node wired for the broadcast workload: the gossip handlers plus the
/// built-in initialization handler.
pub fn create_node() -> (n: Node)
    ensures
        n@ == crate::engine::fresh_node(
            HandlerSet { echo: false, generate: false, broadcast: true, read: true, topology: true },
        ),
{
    Node::new(
        HandlerSet { echo: false, generate: false, broadcast: true, read: true, topology: true },
    )
}

} // verus!
