use vstd::prelude::*;
use vstd::string::StringExecFns;
use crate::broadcast::{absorb, fanout, handler_broadcast, handler_read, handler_topology};
use crate::echo::handler_echo;
use crate::helper::Error;
use crate::message::{
    key_of, messages_view, BroadcastMessage, Message, MessageId, MessageView, NodeId, Type,
    Workload, WorkloadView,
};
use crate::uid::{
    dec_str, numeric_suffix, pack_unique_id, parse_numeric_suffix, u64_to_dec,
    unique_id_from_parts, valid_numeric_suffix, wrap_inc,
};
use crate::uniqueids::handler_generate;

verus! {

/// Which application handlers are registered on a node. The built-in
/// initialization handler is not listed here: it is always present on a fresh
/// node and is removed by its own first successful run.
#[derive(Debug, Clone, Copy, PartialEq, Eq, Structural)]
pub struct HandlerSet {
    pub echo: bool,
    pub generate: bool,
    pub broadcast: bool,
    pub read: bool,
    pub topology: bool,
}

/// The mathematical state of a node: identity and cluster membership (both
/// set together, exactly once, at initialization), the registered handlers,
/// the outbound message-id counter, the wrapping unique-id counter, the
/// ordered log of distinct broadcast values seen, and the neighbor list the
/// node floods broadcasts to.
#[verifier::ext_equal]
pub struct NodeView {
    pub node_id: Option<Seq<char>>,
    pub node_ids: Option<Seq<Seq<char>>>,
    pub handlers: HandlerSet,
    pub msg_counter: u32,
    pub uid_counter: u8,
    pub broadcast_messages: Seq<u64>,
    pub neighbors: Seq<Seq<char>>,
}

/// Whether the node has been initialized: identity and cluster membership are
/// both set, or both unset.
pub open spec fn initialized(s: NodeView) -> bool {
    s.node_id is Some && s.node_ids is Some
}

/// The node's own identity, or the empty string before initialization.
pub open spec fn own_id(s: NodeView) -> Seq<char> {
    match s.node_id {
        Some(id) => id,
        None => Seq::empty(),
    }
}

/// The state of a freshly constructed node with the given handlers.
pub open spec fn fresh_node(handlers: HandlerSet) -> NodeView {
    NodeView {
        node_id: None,
        node_ids: None,
        handlers,
        msg_counter: 0,
        uid_counter: 0,
        broadcast_messages: Seq::empty(),
        neighbors: Seq::empty(),
    }
}

/// The node state after `k` more outbound message ids were generated.
pub open spec fn counter_after(s: NodeView, k: int) -> NodeView {
    NodeView { msg_counter: (s.msg_counter + k) as u32, ..s }
}

/// Whether `r` succeeded with exactly the given outbound messages, in order.
pub open spec fn returns_messages(r: Result<Vec<Message>, Error>, ms: Seq<MessageView>) -> bool {
    r matches Ok(v) && messages_view(v@) == ms
}

/// The request tag of a body, or `Invalid` where none is recognized.
pub open spec fn key_or_invalid(b: WorkloadView) -> Type {
    match key_of(b) {
        Some(t) => t,
        None => Type::Invalid,
    }
}

/// The `msg_id` a body carries as its own (not the `in_reply_to` correlation).
pub open spec fn body_msg_id(b: WorkloadView) -> Option<int> {
    match b {
        WorkloadView::Init { msg_id, .. } => Some(msg_id),
        WorkloadView::InitOk { .. } => None,
        WorkloadView::Error { .. } => None,
        WorkloadView::Echo { msg_id, .. } => Some(msg_id),
        WorkloadView::EchoOk { msg_id, .. } => Some(msg_id),
        WorkloadView::Generate { msg_id } => Some(msg_id),
        WorkloadView::GenerateOk { msg_id, .. } => Some(msg_id),
        WorkloadView::Broadcast { msg_id, .. } => Some(msg_id),
        WorkloadView::BroadcastOk { msg_id, .. } => Some(msg_id),
        WorkloadView::Read { msg_id } => Some(msg_id),
        WorkloadView::ReadOk { msg_id, .. } => Some(msg_id),
        WorkloadView::Topology { msg_id, .. } => Some(msg_id),
        WorkloadView::TopologyOk { msg_id, .. } => Some(msg_id),
    }
}

/// What `Node::process` demands of its caller: enough room in the 32-bit
/// message-id counter for every id the dispatched handler will generate, and,
/// for a dispatched `Generate`, a node identity following the convention the
/// unique-id generator parses (one prefix character, then decimal digits).
pub open spec fn may_process(s: NodeView, m: MessageView) -> bool {
    &&& m.body is Echo && initialized(s) && s.handlers.echo ==> s.msg_counter < u32::MAX
    &&& m.body is Generate && initialized(s) && s.handlers.generate ==> s.msg_counter < u32::MAX
        && valid_numeric_suffix(own_id(s))
    &&& m.body is Broadcast && initialized(s) && s.handlers.broadcast ==> s.msg_counter
        + s.neighbors.len() + 1 <= u32::MAX
    &&& m.body is Read && initialized(s) && s.handlers.read ==> s.msg_counter < u32::MAX
    &&& m.body is Topology && initialized(s) && s.handlers.topology ==> s.msg_counter < u32::MAX
}

/// One simulated participant in the distributed system. It is mutated in
/// place by every processed message and lives for the process lifetime.
pub struct Node {
    node_id: Option<NodeId>,
    node_ids: Option<Vec<NodeId>>,
    handlers: HandlerSet,
    msg_counter: u32,
    uid_counter: u8,
    broadcast_messages: Vec<BroadcastMessage>,
    neighbors: Vec<NodeId>,
}

impl View for Node {
    type V = NodeView;

    closed spec fn view(&self) -> NodeView {
        NodeView {
            node_id: match self.node_id {
                Some(id) => Some(id@),
                None => None,
            },
            node_ids: match self.node_ids {
                Some(ids) => Some(ids.deep_view()),
                None => None,
            },
            handlers: self.handlers,
            msg_counter: self.msg_counter,
            uid_counter: self.uid_counter,
            broadcast_messages: self.broadcast_messages@,
            neighbors: self.neighbors.deep_view(),
        }
    }
}

/// Relies on std::time: `SystemTime::now`, `SystemTime::duration_since` with
/// `UNIX_EPOCH`, and `Duration::as_millis` — the wall-clock time in
/// milliseconds since the Unix epoch, truncated to 64 bits. The result is
/// whatever the system clock reads; nothing can be promised of it. Panics
/// only if the clock reads earlier than the epoch.
#[verifier::external_body]
fn now_millis() -> u64 {
    std::time::SystemTime::now()
        .duration_since(std::time::UNIX_EPOCH)
        .expect("Unique id: should be able to get unix epoch.")
        .as_millis() as u64
}

impl Node {
    /// A fresh, uninitialized node with the given application handlers and
    /// the built-in initialization handler.
    pub fn new(handlers: HandlerSet) -> (n: Node)
        ensures
            n@ == fresh_node(handlers),
    {
        Node {
            handlers,
            node_id: None,
            node_ids: None,
            msg_counter: 0,
            uid_counter: 0,
            broadcast_messages: Vec::new(),
            neighbors: Vec::new(),
        }
    }

    /// The next outbound message id: the counter is incremented first, so the
    /// first call on a fresh node yields 1, and every call yields a value
    /// strictly greater than all earlier ones.
    pub fn gen_msg_id(&mut self) -> (r: MessageId)
        requires
            old(self)@.msg_counter < u32::MAX,
        ensures
            r == old(self)@.msg_counter + 1,
            final(self)@ == counter_after(old(self)@, 1),
    {
        self.msg_counter = self.msg_counter + 1;
        self.msg_counter
    }

    /// Builds an outbound envelope: the source is always the node's own
    /// identity (the empty string before initialization).
    pub fn reply(&self, dest: NodeId, body: Workload) -> (m: Message)
        ensures
            m@ == (MessageView { src: own_id(self@), dest: dest@, body: body@ }),
    {
        Message { src: self.node_id(), dest, body }
    }

    /// The node's own identity; the empty string if the node is not
    /// initialized.
    pub fn node_id(&self) -> (r: NodeId)
        ensures
            r@ == own_id(self@),
    {
        match &self.node_id {
            Some(id) => id.clone(),
            None => String::new(),
        }
    }

    /// Appends a newly seen broadcast value to the log.
    pub fn push_broadcast_message(&mut self, message: BroadcastMessage)
        ensures
            final(self)@ == (NodeView {
                broadcast_messages: old(self)@.broadcast_messages.push(message),
                ..old(self)@
            }),
    {
        self.broadcast_messages.push(message);
    }

    /// A snapshot copy of the broadcast log, in first-seen order.
    pub fn broadcast_messages(&self) -> (r: Vec<BroadcastMessage>)
        ensures
            r@ == self@.broadcast_messages,
    {
        let mut out: Vec<BroadcastMessage> = Vec::new();
        let mut i: usize = 0;
        while i < self.broadcast_messages.len()
            invariant
                i <= self.broadcast_messages.len(),
                out@ == self@.broadcast_messages.subrange(0, i as int),
            decreases self.broadcast_messages.len() - i,
        {
            out.push(self.broadcast_messages[i]);
            i += 1;
        }
        proof {
            assert(out@ =~= self@.broadcast_messages);
        }
        out
    }

    /// A snapshot copy of the neighbor list.
    pub fn neighbors(&self) -> (r: Vec<NodeId>)
        ensures
            r.deep_view() == self@.neighbors,
    {
        let mut out: Vec<NodeId> = Vec::new();
        let mut i: usize = 0;
        while i < self.neighbors.len()
            invariant
                i <= self.neighbors.len(),
                out@ == self.neighbors@.subrange(0, i as int),
            decreases self.neighbors.len() - i,
        {
            out.push(self.neighbors[i].clone());
            proof {
                assert(out@ =~= self.neighbors@.subrange(0, i + 1));
            }
            i += 1;
        }
        proof {
            assert(out@ =~= self.neighbors@);
            assert(out.deep_view() =~= self@.neighbors);
        }
        out
    }

    /// Replaces the neighbor list with the row assigned by a topology.
    pub fn set_neighbors(&mut self, neighbors: Vec<NodeId>)
        ensures
            final(self)@ == (NodeView { neighbors: neighbors.deep_view(), ..old(self)@ }),
    {
        self.neighbors = neighbors;
    }

    fn is_initialized(&self) -> (r: bool)
        ensures
            r == initialized(self@),
    {
        self.node_id.is_some() && self.node_ids.is_some()
    }

    /// Stores identity and cluster membership; from here on the
    /// initialization handler is no longer registered, so a second `Init`
    /// falls into "no handler" and is reported as `AlreadyInitialized`.
    fn init(&mut self, node_id: NodeId, node_ids: Vec<NodeId>)
        ensures
            final(self)@ == (NodeView {
                node_id: Some(node_id@),
                node_ids: Some(node_ids.deep_view()),
                ..old(self)@
            }),
    {
        self.node_id = Some(node_id);
        self.node_ids = Some(node_ids);
    }

    /// The built-in initialization handler: stores identity and membership
    /// and replies `InitOk` to the sender, with the source already set to the
    /// new identity. Any other body is a dispatch-table wiring bug, reported
    /// as `ExpectedMessage`.
    fn handler_init(node: &mut Node, message: Message) -> (r: Result<Vec<Message>, Error>)
        ensures
            message@.body matches WorkloadView::Init { msg_id, node_id, node_ids } ==> ({
                &&& final(node)@ == (NodeView {
                    node_id: Some(node_id),
                    node_ids: Some(node_ids),
                    ..old(node)@
                })
                &&& returns_messages(
                    r,
                    seq![
                        (MessageView {
                            src: node_id,
                            dest: message@.src,
                            body: WorkloadView::InitOk { in_reply_to: msg_id },
                        }),
                    ],
                )
            }),
            !(message@.body is Init) ==> r == Err::<Vec<Message>, Error>(
                Error::ExpectedMessage {
                    found: key_or_invalid(message@.body),
                    expected: Type::Init,
                },
            ) && final(node)@ == old(node)@,
            old(node)@.msg_counter <= final(node)@.msg_counter,
            r matches Ok(v) ==> forall|i: int|
                #![trigger v@[i]]
                0 <= i < v@.len() ==> (body_msg_id(v@[i]@.body) matches Some(id) ==> old(
                    node,
                )@.msg_counter < id <= final(node)@.msg_counter),
    {
        let Message { src, dest: _, body } = message;
        match body {
            Workload::Init { msg_id, node_id, node_ids } => {
                node.init(node_id, node_ids);
                let reply = node.reply(src, Workload::init_ok(msg_id));
                let mut out: Vec<Message> = Vec::new();
                out.push(reply);
                proof {
                    assert(messages_view(out@) =~= seq![reply@]);
                    assert forall|i: int|
                        #![trigger out@[i]]
                        0 <= i < out@.len() implies (body_msg_id(out@[i]@.body) matches Some(id)
                        ==> old(node)@.msg_counter < id <= node@.msg_counter) by {
                        assert(messages_view(out@)[i] == out@[i]@);
                        assert(out@[i]@ == reply@);
                    }
                }
                Ok(out)
            },
            other => {
                let found = match other.key() {
                    Ok(k) => k,
                    Err(_) => Type::Invalid,
                };
                Err(Error::ExpectedMessage { found, expected: Type::Init })
            },
        }
    }

    /// A fresh unique id: the wall-clock milliseconds, the node number parsed
    /// from the identity's decimal suffix, and the freshly incremented
    /// wrapping call counter, bit-packed into 64 bits and rendered in
    /// decimal. The identity must follow the one-prefix-character-then-digits
    /// convention; parsing it is otherwise a fatal error.
    pub fn gen_unique_id(&mut self) -> (r: String)
        requires
            valid_numeric_suffix(own_id(old(self)@)),
        ensures
            final(self)@ == (NodeView { uid_counter: wrap_inc(old(self)@.uid_counter), ..old(self)@ }),
            exists|t: u64|
                r@ == dec_str(
                    pack_unique_id(
                        t,
                        numeric_suffix(own_id(old(self)@)),
                        wrap_inc(old(self)@.uid_counter),
                    ) as nat,
                ),
    {
        let now = now_millis();
        let id = self.node_id();
        let node_num = parse_numeric_suffix(id.as_str());
        self.uid_counter = if self.uid_counter == 255 {
            0
        } else {
            self.uid_counter + 1
        };
        let packed = unique_id_from_parts(now, node_num, self.uid_counter);
        let rendered = u64_to_dec(packed);
        proof {
            assert(rendered@ == dec_str(
                pack_unique_id(
                    now,
                    numeric_suffix(own_id(old(self)@)),
                    wrap_inc(old(self)@.uid_counter),
                ) as nat,
            ));
        }
        rendered
    }

    /// Dispatches one inbound message: extracts the body's tag, enforces the
    /// initialization gate, runs the registered handler, and reports a
    /// failure — with no state change — where no handler may run. Every
    /// outbound message id lies strictly between the counter before and at
    /// most the counter after the call, so ids are strictly monotone across
    /// any sequence of invocations.
    pub fn process(&mut self, message: Message) -> (r: Result<Vec<Message>, Error>)
        requires
            may_process(old(self)@, message@),
        ensures
            old(self)@.msg_counter <= final(self)@.msg_counter,
            r is Err ==> final(self)@ == old(self)@,
            r matches Ok(v) ==> forall|i: int|
                #![trigger v@[i]]
                0 <= i < v@.len() ==> (body_msg_id(v@[i]@.body) matches Some(id)
                    ==> old(self)@.msg_counter < id <= final(self)@.msg_counter),
            key_of(message@.body) is None ==> r == Err::<Vec<Message>, Error>(Error::KeyNotFound),
            !initialized(old(self)@) && !(message@.body is Init) && key_of(message@.body) is Some
                ==> r == Err::<Vec<Message>, Error>(Error::NotInitializedYet),
            message@.body is Init && initialized(old(self)@) ==> r == Err::<Vec<Message>, Error>(
                Error::AlreadyInitialized,
            ),
            message@.body matches WorkloadView::Init { msg_id, node_id, node_ids } ==> (!initialized(
                old(self)@,
            ) ==> ({
                &&& final(self)@ == (NodeView {
                    node_id: Some(node_id),
                    node_ids: Some(node_ids),
                    ..old(self)@
                })
                &&& returns_messages(
                    r,
                    seq![
                        (MessageView {
                            src: node_id,
                            dest: message@.src,
                            body: WorkloadView::InitOk { in_reply_to: msg_id },
                        }),
                    ],
                )
            })),
            message@.body matches WorkloadView::Echo { msg_id, echo } ==> (initialized(old(self)@)
                ==> if old(self)@.handlers.echo {
                &&& final(self)@ == counter_after(old(self)@, 1)
                &&& returns_messages(
                    r,
                    seq![
                        (MessageView {
                            src: own_id(old(self)@),
                            dest: message@.src,
                            body: WorkloadView::EchoOk {
                                in_reply_to: msg_id,
                                msg_id: old(self)@.msg_counter + 1,
                                echo,
                            },
                        }),
                    ],
                )
            } else {
                r == Err::<Vec<Message>, Error>(Error::HandlerNotFound { key: Type::Echo })
            }),
            message@.body matches WorkloadView::Generate { msg_id } ==> (initialized(old(self)@)
                ==> if old(self)@.handlers.generate {
                &&& final(self)@ == (NodeView {
                    msg_counter: (old(self)@.msg_counter + 1) as u32,
                    uid_counter: wrap_inc(old(self)@.uid_counter),
                    ..old(self)@
                })
                &&& r matches Ok(v) && v@.len() == 1 && (exists|t: u64|
                    v@[0]@ == (MessageView {
                        src: own_id(old(self)@),
                        dest: message@.src,
                        body: WorkloadView::GenerateOk {
                            in_reply_to: msg_id,
                            msg_id: old(self)@.msg_counter + 1,
                            id: dec_str(
                                pack_unique_id(
                                    t,
                                    numeric_suffix(own_id(old(self)@)),
                                    wrap_inc(old(self)@.uid_counter),
                                ) as nat,
                            ),
                        },
                    }))
            } else {
                r == Err::<Vec<Message>, Error>(Error::HandlerNotFound { key: Type::Generate })
            }),
            message@.body matches WorkloadView::Broadcast { msg_id, message: v } ==> (initialized(
                old(self)@,
            ) ==> if old(self)@.handlers.broadcast {
                let fan = if old(self)@.broadcast_messages.contains(v) {
                    Seq::<MessageView>::empty()
                } else {
                    fanout(
                        old(self)@.neighbors,
                        message@.src,
                        own_id(old(self)@),
                        v,
                        old(self)@.msg_counter as int,
                    )
                };
                &&& final(self)@ == (NodeView {
                    broadcast_messages: absorb(old(self)@.broadcast_messages, v),
                    msg_counter: (old(self)@.msg_counter + fan.len() + 1) as u32,
                    ..old(self)@
                })
                &&& returns_messages(
                    r,
                    fan.push(
                        MessageView {
                            src: own_id(old(self)@),
                            dest: message@.src,
                            body: WorkloadView::BroadcastOk {
                                in_reply_to: msg_id,
                                msg_id: old(self)@.msg_counter + fan.len() + 1,
                            },
                        },
                    ),
                )
            } else {
                r == Err::<Vec<Message>, Error>(Error::HandlerNotFound { key: Type::Broadcast })
            }),
            message@.body matches WorkloadView::Read { msg_id } ==> (initialized(old(self)@)
                ==> if old(self)@.handlers.read {
                &&& final(self)@ == counter_after(old(self)@, 1)
                &&& returns_messages(
                    r,
                    seq![
                        (MessageView {
                            src: own_id(old(self)@),
                            dest: message@.src,
                            body: WorkloadView::ReadOk {
                                in_reply_to: msg_id,
                                msg_id: old(self)@.msg_counter + 1,
                                messages: old(self)@.broadcast_messages,
                            },
                        }),
                    ],
                )
            } else {
                r == Err::<Vec<Message>, Error>(Error::HandlerNotFound { key: Type::Read })
            }),
            message@.body matches WorkloadView::Topology { msg_id, topology } ==> (initialized(
                old(self)@,
            ) ==> if old(self)@.handlers.topology {
                &&& final(self)@ == (NodeView {
                    neighbors: crate::broadcast::topo_lookup(topology, own_id(old(self)@)),
                    msg_counter: (old(self)@.msg_counter + 1) as u32,
                    ..old(self)@
                })
                &&& returns_messages(
                    r,
                    seq![
                        (MessageView {
                            src: own_id(old(self)@),
                            dest: message@.src,
                            body: WorkloadView::TopologyOk {
                                in_reply_to: msg_id,
                                msg_id: old(self)@.msg_counter + 1,
                            },
                        }),
                    ],
                )
            } else {
                r == Err::<Vec<Message>, Error>(Error::HandlerNotFound { key: Type::Topology })
            }),
    {
        let key = match message.body.key() {
            Ok(k) => k,
            Err(e) => {
                return Err(e);
            },
        };
        if !self.is_initialized() && key != Type::Init {
            return Err(Error::NotInitializedYet);
        }
        match key {
            Type::Init => {
                if self.is_initialized() {
                    Err(Error::AlreadyInitialized)
                } else {
                    Self::handler_init(self, message)
                }
            },
            Type::Echo => {
                if self.handlers.echo {
                    handler_echo(self, message)
                } else {
                    Err(Error::HandlerNotFound { key })
                }
            },
            Type::Generate => {
                if self.handlers.generate {
                    handler_generate(self, message)
                } else {
                    Err(Error::HandlerNotFound { key })
                }
            },
            Type::Broadcast => {
                if self.handlers.broadcast {
                    handler_broadcast(self, message)
                } else {
                    Err(Error::HandlerNotFound { key })
                }
            },
            Type::Read => {
                if self.handlers.read {
                    handler_read(self, message)
                } else {
                    Err(Error::HandlerNotFound { key })
                }
            },
            Type::Topology => {
                if self.handlers.topology {
                    handler_topology(self, message)
                } else {
                    Err(Error::HandlerNotFound { key })
                }
            },
            Type::Invalid => Err(Error::HandlerNotFound { key }),
        }
    }
}

impl Default for Node {
    /// A node with no application handlers: only initialization can succeed.
    fn default() -> (n: Node)
        ensures
            n@ == fresh_node(
                HandlerSet {
                    echo: false,
                    generate: false,
                    broadcast: false,
                    read: false,
                    topology: false,
                },
            ),
    {
        Node::new(
            HandlerSet {
                echo: false,
                generate: false,
                broadcast: false,
                read: false,
                topology: false,
            },
        )
    }
}

/// Outbound message ids are strictly monotone across handler invocations:
/// `process` promises that every id it emits lies strictly above the counter
/// it started from and at most the counter it ended at, and that the counter
/// never decreases; so an id emitted by a later invocation is strictly
/// greater than every id emitted by an earlier one.
pub proof fn lemma_msg_id_monotonic(c0: int, c1: int, c2: int, id1: int, id2: int)
    requires
        c0 < id1 <= c1,
        c1 <= c2,
        c2 < id2,
    ensures
        id1 < id2,
{
}

} // verus!
