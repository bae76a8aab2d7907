use vstd::prelude::*;
use crate::helper::Error;

verus! {

/// A node's identity on the wire: a short string such as `"n1"` or `"c3"`.
pub type NodeId = String;

/// A per-node, monotonically assigned sequence number for outbound messages.
pub type MessageId = u32;

/// A numeric code carried by the `Error` body variant.
pub type CodeId = u32;

/// The payload value gossiped by the broadcast protocol.
pub type BroadcastMessage = u64;

/// The request tags that the dispatcher recognizes. Reply variants carry no
/// tag of their own: they are never dispatched.
#[derive(Debug, Clone, Copy, PartialEq, Eq, Structural)]
pub enum Type {
    Init,
    Echo,
    Generate,
    Broadcast,
    Read,
    Topology,
    /// The received key is either not listed or missing in the message.
    Invalid,
}

/// The envelope wrapping every message: who sent it, who it is for, and the
/// tagged payload. Message identity is structural; there is no message-level
/// id outside the body.
#[derive(Debug, Clone, PartialEq)]
pub struct Message {
    pub src: NodeId,
    pub dest: NodeId,
    pub body: Workload,
}

/// The closed, tagged union of every body a message can carry. Request
/// variants carry a `msg_id` local to the sender; reply variants carry
/// `in_reply_to` referencing the originating `msg_id`.
#[derive(Debug, Clone, PartialEq)]
pub enum Workload {
    Init { msg_id: MessageId, node_id: NodeId, node_ids: Vec<NodeId> },
    InitOk { in_reply_to: MessageId },
    Error { in_reply_to: MessageId, code: CodeId, text: String },
    Echo { msg_id: MessageId, echo: String },
    EchoOk { in_reply_to: MessageId, msg_id: MessageId, echo: String },
    Generate { msg_id: MessageId },
    GenerateOk { in_reply_to: MessageId, msg_id: MessageId, id: String },
    Broadcast { msg_id: MessageId, message: BroadcastMessage },
    BroadcastOk { in_reply_to: MessageId, msg_id: MessageId },
    Read { msg_id: MessageId },
    ReadOk { in_reply_to: MessageId, msg_id: MessageId, messages: Vec<BroadcastMessage> },
    Topology { msg_id: MessageId, topology: Vec<(NodeId, Vec<NodeId>)> },
    TopologyOk { in_reply_to: MessageId, msg_id: MessageId },
}

/// The mathematical shape of a `Workload`: strings as sequences of
/// characters, vectors as sequences, ids as unbounded integers.
pub enum WorkloadView {
    Init { msg_id: int, node_id: Seq<char>, node_ids: Seq<Seq<char>> },
    InitOk { in_reply_to: int },
    Error { in_reply_to: int, code: int, text: Seq<char> },
    Echo { msg_id: int, echo: Seq<char> },
    EchoOk { in_reply_to: int, msg_id: int, echo: Seq<char> },
    Generate { msg_id: int },
    GenerateOk { in_reply_to: int, msg_id: int, id: Seq<char> },
    Broadcast { msg_id: int, message: BroadcastMessage },
    BroadcastOk { in_reply_to: int, msg_id: int },
    Read { msg_id: int },
    ReadOk { in_reply_to: int, msg_id: int, messages: Seq<BroadcastMessage> },
    Topology { msg_id: int, topology: Seq<(Seq<char>, Seq<Seq<char>>)> },
    TopologyOk { in_reply_to: int, msg_id: int },
}

/// The mathematical shape of a `Message`.
pub struct MessageView {
    pub src: Seq<char>,
    pub dest: Seq<char>,
    pub body: WorkloadView,
}

/// A topology map as a sequence of rows: one node's identity paired with the
/// neighbors it floods broadcasts to.
pub open spec fn topology_view(t: Seq<(NodeId, Vec<NodeId>)>) -> Seq<(Seq<char>, Seq<Seq<char>>)> {
    t.map_values(|row: (NodeId, Vec<NodeId>)| (row.0@, row.1.deep_view()))
}

impl View for Workload {
    type V = WorkloadView;

    open spec fn view(&self) -> WorkloadView {
        match self {
            Workload::Init { msg_id, node_id, node_ids } => WorkloadView::Init {
                msg_id: *msg_id as int,
                node_id: node_id@,
                node_ids: node_ids.deep_view(),
            },
            Workload::InitOk { in_reply_to } => WorkloadView::InitOk {
                in_reply_to: *in_reply_to as int,
            },
            Workload::Error { in_reply_to, code, text } => WorkloadView::Error {
                in_reply_to: *in_reply_to as int,
                code: *code as int,
                text: text@,
            },
            Workload::Echo { msg_id, echo } => WorkloadView::Echo {
                msg_id: *msg_id as int,
                echo: echo@,
            },
            Workload::EchoOk { in_reply_to, msg_id, echo } => WorkloadView::EchoOk {
                in_reply_to: *in_reply_to as int,
                msg_id: *msg_id as int,
                echo: echo@,
            },
            Workload::Generate { msg_id } => WorkloadView::Generate { msg_id: *msg_id as int },
            Workload::GenerateOk { in_reply_to, msg_id, id } => WorkloadView::GenerateOk {
                in_reply_to: *in_reply_to as int,
                msg_id: *msg_id as int,
                id: id@,
            },
            Workload::Broadcast { msg_id, message } => WorkloadView::Broadcast {
                msg_id: *msg_id as int,
                message: *message,
            },
            Workload::BroadcastOk { in_reply_to, msg_id } => WorkloadView::BroadcastOk {
                in_reply_to: *in_reply_to as int,
                msg_id: *msg_id as int,
            },
            Workload::Read { msg_id } => WorkloadView::Read { msg_id: *msg_id as int },
            Workload::ReadOk { in_reply_to, msg_id, messages } => WorkloadView::ReadOk {
                in_reply_to: *in_reply_to as int,
                msg_id: *msg_id as int,
                messages: messages@,
            },
            Workload::Topology { msg_id, topology } => WorkloadView::Topology {
                msg_id: *msg_id as int,
                topology: topology_view(topology@),
            },
            Workload::TopologyOk { in_reply_to, msg_id } => WorkloadView::TopologyOk {
                in_reply_to: *in_reply_to as int,
                msg_id: *msg_id as int,
            },
        }
    }
}

impl View for Message {
    type V = MessageView;

    open spec fn view(&self) -> MessageView {
        MessageView { src: self.src@, dest: self.dest@, body: self.body@ }
    }
}

/// The views of a list of messages, in order.
pub open spec fn messages_view(v: Seq<Message>) -> Seq<MessageView> {
    v.map_values(|m: Message| m@)
}

/// The request tag of a body, or `None` for a reply-only variant, which the
/// dispatcher must refuse.
pub open spec fn key_of(b: WorkloadView) -> Option<Type> {
    match b {
        WorkloadView::Init { .. } => Some(Type::Init),
        WorkloadView::Echo { .. } => Some(Type::Echo),
        WorkloadView::Generate { .. } => Some(Type::Generate),
        WorkloadView::Broadcast { .. } => Some(Type::Broadcast),
        WorkloadView::Read { .. } => Some(Type::Read),
        WorkloadView::Topology { .. } => Some(Type::Topology),
        _ => None,
    }
}

impl Workload {
    /// The tag under which this body is dispatched: `Ok` for the six request
    /// variants, `Err(KeyNotFound)` for every reply-only variant.
    pub fn key(&self) -> (r: Result<Type, Error>)
        ensures
            r == match key_of(self@) {
                Some(t) => Result::<Type, Error>::Ok(t),
                None => Result::<Type, Error>::Err(Error::KeyNotFound),
            },
    {
        match self {
            Workload::Init { .. } => Ok(Type::Init),
            Workload::Echo { .. } => Ok(Type::Echo),
            Workload::Generate { .. } => Ok(Type::Generate),
            Workload::Broadcast { .. } => Ok(Type::Broadcast),
            Workload::Read { .. } => Ok(Type::Read),
            Workload::Topology { .. } => Ok(Type::Topology),
            _ => Err(Error::KeyNotFound),
        }
    }

    pub fn echo_ok(in_reply_to: MessageId, msg_id: MessageId, echo: String) -> (r: Workload)
        ensures
            r@ == (WorkloadView::EchoOk {
                in_reply_to: in_reply_to as int,
                msg_id: msg_id as int,
                echo: echo@,
            }),
    {
        Workload::EchoOk { in_reply_to, msg_id, echo }
    }

    pub fn generate_ok(in_reply_to: MessageId, msg_id: MessageId, id: String) -> (r: Workload)
        ensures
            r@ == (WorkloadView::GenerateOk {
                in_reply_to: in_reply_to as int,
                msg_id: msg_id as int,
                id: id@,
            }),
    {
        Workload::GenerateOk { in_reply_to, msg_id, id }
    }

    pub fn broadcast_ok(in_reply_to: MessageId, msg_id: MessageId) -> (r: Workload)
        ensures
            r@ == (WorkloadView::BroadcastOk {
                in_reply_to: in_reply_to as int,
                msg_id: msg_id as int,
            }),
    {
        Workload::BroadcastOk { in_reply_to, msg_id }
    }

    pub fn read_ok(in_reply_to: MessageId, msg_id: MessageId, messages: Vec<BroadcastMessage>) -> (r:
        Workload)
        ensures
            r@ == (WorkloadView::ReadOk {
                in_reply_to: in_reply_to as int,
                msg_id: msg_id as int,
                messages: messages@,
            }),
    {
        Workload::ReadOk { in_reply_to, msg_id, messages }
    }

    pub fn topology_ok(in_reply_to: MessageId, msg_id: MessageId) -> (r: Workload)
        ensures
            r@ == (WorkloadView::TopologyOk {
                in_reply_to: in_reply_to as int,
                msg_id: msg_id as int,
            }),
    {
        Workload::TopologyOk { in_reply_to, msg_id }
    }

    pub(crate) fn init_ok(in_reply_to: MessageId) -> (r: Workload)
        ensures
            r@ == (WorkloadView::InitOk { in_reply_to: in_reply_to as int }),
    {
        Workload::InitOk { in_reply_to }
    }
}

} // verus!
