use vstd::prelude::*;
use crate::engine::{body_msg_id, key_or_invalid, own_id, HandlerSet, Node, NodeView};
use crate::helper::Error;
use crate::message::{messages_view, Message, MessageView, Type, Workload, WorkloadView};
use crate::uid::{dec_str, numeric_suffix, pack_unique_id, valid_numeric_suffix, wrap_inc};

verus! {

/// The `Generate` handler: replies `GenerateOk` carrying a freshly generated
/// unique id and a fresh message id. The node's identity must follow the
/// one-prefix-character-then-digits convention the generator parses.
pub fn handler_generate(node: &mut Node, msg: Message) -> (r: Result<Vec<Message>, Error>)
    requires
        msg@.body is Generate ==> old(node)@.msg_counter < u32::MAX && valid_numeric_suffix(
            own_id(old(node)@),
        ),
    ensures
        msg@.body matches WorkloadView::Generate { msg_id } ==> ({
            &&& final(node)@ == (NodeView {
                msg_counter: (old(node)@.msg_counter + 1) as u32,
                uid_counter: wrap_inc(old(node)@.uid_counter),
                ..old(node)@
            })
            &&& r matches Ok(v) && v@.len() == 1 && (exists|t: u64|
                v@[0]@ == (MessageView {
                    src: own_id(old(node)@),
                    dest: msg@.src,
                    body: WorkloadView::GenerateOk {
                        in_reply_to: msg_id,
                        msg_id: old(node)@.msg_counter + 1,
                        id: dec_str(
                            pack_unique_id(
                                t,
                                numeric_suffix(own_id(old(node)@)),
                                wrap_inc(old(node)@.uid_counter),
                            ) as nat,
                        ),
                    },
                }))
        }),
        !(msg@.body is Generate) ==> r == Err::<Vec<Message>, Error>(
            Error::ExpectedMessage { found: key_or_invalid(msg@.body), expected: Type::Generate },
        ) && final(node)@ == old(node)@,
        old(node)@.msg_counter <= final(node)@.msg_counter,
        r matches Ok(v) ==> forall|i: int|
            #![trigger v@[i]]
            0 <= i < v@.len() ==> (body_msg_id(v@[i]@.body) matches Some(id) ==> old(
                node,
            )@.msg_counter < id <= final(node)@.msg_counter),
{
    let Message { src, dest: _, body } = msg;
    match body {
        Workload::Generate { msg_id } => {
            let mid = node.gen_msg_id();
            let uid = node.gen_unique_id();
            let ok_body = Workload::generate_ok(msg_id, mid, uid);
            let reply = node.reply(src, ok_body);
            let mut out: Vec<Message> = Vec::new();
            out.push(reply);
            proof {
                assert(messages_view(out@) =~= seq![reply@]);
                assert forall|i: int|
                    #![trigger out@[i]]
                    0 <= i < out@.len() implies (body_msg_id(out@[i]@.body) matches Some(id)
                    ==> old(node)@.msg_counter < id <= node@.msg_counter) by {
                    assert(messages_view(out@)[i] == out@[i]@);
                    assert(out@[i]@ == reply@);
                }
            }
            Ok(out)
        },
        other => {
            let found = match other.key() {
                Ok(k) => k,
                Err(_) => Type::Invalid,
            };
            Err(Error::ExpectedMessage { found, expected: Type::Generate })
        },
    }
}

/// A node wired for the unique-id workload.
pub fn create_node() -> (n: Node)
    ensures
        n@ == crate::engine::fresh_node(
            HandlerSet {
                echo: false,
                generate: true,
                broadcast: false,
                read: false,
                topology: false,
            },
        ),
{
    Node::new(
        HandlerSet { echo: false, generate: true, broadcast: false, read: false, topology: false },
    )
}

} // verus!
