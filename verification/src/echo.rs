use vstd::prelude::*;
use crate::engine::{body_msg_id, counter_after, key_or_invalid, own_id, returns_messages, HandlerSet, Node};
use crate::helper::Error;
use crate::message::{messages_view, Message, MessageView, Type, Workload, WorkloadView};

verus! {

/// The `Echo` handler: replies `EchoOk` to the sender, echoing the payload
/// unchanged, correlated to the request and carrying a fresh message id.
pub fn handler_echo(node: &mut Node, msg: Message) -> (r: Result<Vec<Message>, Error>)
    requires
        msg@.body is Echo ==> old(node)@.msg_counter < u32::MAX,
    ensures
        msg@.body matches WorkloadView::Echo { msg_id, echo } ==> ({
            &&& final(node)@ == counter_after(old(node)@, 1)
            &&& returns_messages(
                r,
                seq![
                    (MessageView {
                        src: own_id(old(node)@),
                        dest: msg@.src,
                        body: WorkloadView::EchoOk {
                            in_reply_to: msg_id,
                            msg_id: old(node)@.msg_counter + 1,
                            echo,
                        },
                    }),
                ],
            )
        }),
        !(msg@.body is Echo) ==> r == Err::<Vec<Message>, Error>(
            Error::ExpectedMessage { found: key_or_invalid(msg@.body), expected: Type::Echo },
        ) && final(node)@ == old(node)@,
        old(node)@.msg_counter <= final(node)@.msg_counter,
        r matches Ok(v) ==> forall|i: int|
            #![trigger v@[i]]
            0 <= i < v@.len() ==> (body_msg_id(v@[i]@.body) matches Some(id) ==> old(
                node,
            )@.msg_counter < id <= final(node)@.msg_counter),
{
    let Message { src, dest: _, body } = msg;
    match body {
        Workload::Echo { msg_id, echo } => {
            let mid = node.gen_msg_id();
            let ok_body = Workload::EchoOk { in_reply_to: msg_id, msg_id: mid, echo };
            let reply = node.reply(src, ok_body);
            let mut out: Vec<Message> = Vec::new();
            out.push(reply);
            proof {
                assert(messages_view(out@) =~= seq![reply@]);
                assert forall|i: int|
                    #![trigger out@[i]]
                    0 <= i < out@.len() implies (body_msg_id(out@[i]@.body) matches Some(id)
                    ==> old(node)@.msg_counter < id <= node@.msg_counter) by {
                    assert(messages_view(out@)[i] == out@[i]@);
                    assert(out@[i]@ == reply@);
                }
            }
            Ok(out)
        },
        other => {
            let found = match other.key() {
                Ok(k) => k,
                Err(_) => Type::Invalid,
            };
            Err(Error::ExpectedMessage { found, expected: Type::Echo })
        },
    }
}

/// A node wired for the echo workload.
pub fn create_node() -> (n: Node)
    ensures
        n@ == crate::engine::fresh_node(
            HandlerSet {
                echo: true,
                generate: false,
                broadcast: false,
                read: false,
                topology: false,
            },
        ),
{
    Node::new(
        HandlerSet { echo: true, generate: false, broadcast: false, read: false, topology: false },
    )
}

} // verus!
