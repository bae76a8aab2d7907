use node::broadcast::create_node;
use node::message::{Message, Workload};
use serde_json::{Number, Value};

fn parse_message(s: &str) -> Message {
    let v: Value = serde_json::from_str(s).unwrap();
    let src = v["src"].as_str().unwrap().to_string();
    let dest = v["dest"].as_str().unwrap().to_string();
    let b = &v["body"];
    let body = match b["type"].as_str().unwrap() {
        "init" => Workload::Init {
            msg_id: b["msg_id"].as_u64().unwrap() as u32,
            node_id: b["node_id"].as_str().unwrap().to_string(),
            node_ids: b["node_ids"]
                .as_array()
                .unwrap()
                .iter()
                .map(|x| x.as_str().unwrap().to_string())
                .collect(),
        },
        "broadcast" => Workload::Broadcast {
            msg_id: b["msg_id"].as_u64().unwrap() as u32,
            message: b["message"].as_u64().unwrap(),
        },
        "read" => Workload::Read { msg_id: b["msg_id"].as_u64().unwrap() as u32 },
        "topology" => Workload::Topology {
            msg_id: b["msg_id"].as_u64().unwrap() as u32,
            topology: b["topology"]
                .as_object()
                .unwrap()
                .iter()
                .map(|(k, row)| {
                    (
                        k.clone(),
                        row.as_array()
                            .unwrap()
                            .iter()
                            .map(|x| x.as_str().unwrap().to_string())
                            .collect(),
                    )
                })
                .collect(),
        },
        other => panic!("unsupported body type in test input: {other}"),
    };
    Message { src, dest, body }
}

fn obj(entries: Vec<(&str, Value)>) -> Value {
    let mut m = serde_json::Map::new();
    for (k, v) in entries {
        m.insert(k.to_string(), v);
    }
    Value::Object(m)
}

fn num(n: u64) -> Value {
    Value::Number(Number::from(n))
}

fn message_to_value(m: &Message) -> Value {
    let body = match &m.body {
        Workload::BroadcastOk { in_reply_to, msg_id } => obj(vec![
            ("type", Value::String("broadcast_ok".to_string())),
            ("in_reply_to", num(*in_reply_to as u64)),
            ("msg_id", num(*msg_id as u64)),
        ]),
        Workload::ReadOk { in_reply_to, msg_id, messages } => obj(vec![
            ("type", Value::String("read_ok".to_string())),
            ("in_reply_to", num(*in_reply_to as u64)),
            ("msg_id", num(*msg_id as u64)),
            ("messages", Value::Array(messages.iter().map(|x| num(*x)).collect())),
        ]),
        Workload::TopologyOk { in_reply_to, msg_id } => obj(vec![
            ("type", Value::String("topology_ok".to_string())),
            ("in_reply_to", num(*in_reply_to as u64)),
            ("msg_id", num(*msg_id as u64)),
        ]),
        other => panic!("unsupported body in test output: {other:?}"),
    };
    obj(vec![
        ("src", Value::String(m.src.clone())),
        ("dest", Value::String(m.dest.clone())),
        ("body", body),
    ])
}

fn init_node(node: &mut node::engine::Node) {
    let init_json = r#"{"src":"c1","dest":"n1","body":{"type":"init","msg_id":1,"node_id":"n1","node_ids":["n1","n2","n3"]}}"#;
    let _ = node.process(parse_message(init_json));
}

#[test]
fn test_broadcast() {
    let mut node = create_node();
    init_node(&mut node);

    let broadcast_json =
        r#"{"src":"c1","dest":"n1","body":{"type":"broadcast","message":1000,"msg_id":1}}"#;
    let reply = node.process(parse_message(broadcast_json));
    assert!(reply.is_ok());

    let reply = message_to_value(reply.unwrap().first().unwrap());
    let expected: Value = serde_json::from_str(
        r#"{"src":"n1","dest":"c1","body":{"type":"broadcast_ok","in_reply_to":1,"msg_id":1}}"#,
    )
    .unwrap();
    assert_eq!(reply, expected);

    let broadcast_json =
        r#"{"src":"c1","dest":"n1","body":{"type":"broadcast","message":10,"msg_id":2}}"#;
    let _ = node.process(parse_message(broadcast_json));

    let read_json = r#"{"src":"c1","dest":"n1","body":{"type":"read","msg_id":2}}"#;
    let reply = node.process(parse_message(read_json));
    assert!(reply.is_ok());

    let reply = message_to_value(reply.unwrap().first().unwrap());
    let expected: Value = serde_json::from_str(
        r#"{"src":"n1","dest":"c1","body":{"type":"read_ok","in_reply_to":2,"msg_id":3,"messages":[1000,10]}}"#,
    )
    .unwrap();
    assert_eq!(reply, expected);
}

// Repeated broadcast values are recorded once each, in first-seen order.
#[test]
fn test_read_returns_distinct_values_in_first_seen_order() {
    let mut node = create_node();
    init_node(&mut node);
    for (i, v) in [5u64, 3, 5, 7, 3, 7, 5].iter().enumerate() {
        let msg = Message {
            src: "c1".to_string(),
            dest: "n1".to_string(),
            body: Workload::Broadcast { msg_id: (i + 1) as u32, message: *v },
        };
        assert!(node.process(msg).is_ok());
    }
    let read = Message {
        src: "c1".to_string(),
        dest: "n1".to_string(),
        body: Workload::Read { msg_id: 99 },
    };
    let replies = node.process(read).unwrap();
    assert_eq!(replies.len(), 1);
    match &replies[0].body {
        Workload::ReadOk { messages, .. } => assert_eq!(messages, &vec![5u64, 3, 7]),
        other => panic!("expected read_ok, got {other:?}"),
    }
}

// A value already seen produces no fan-out, only the client-facing reply.
#[test]
fn test_redelivered_value_produces_no_fanout() {
    let mut node = create_node();
    init_node(&mut node);
    let topo_json = r#"{"src":"c1","dest":"n1","body":{"type":"topology","msg_id":1,"topology":{"n1":["n2","n3"]}}}"#;
    assert!(node.process(parse_message(topo_json)).is_ok());

    let b = Message {
        src: "n2".to_string(),
        dest: "n1".to_string(),
        body: Workload::Broadcast { msg_id: 5, message: 42 },
    };
    let first = node.process(b.clone()).unwrap();
    // one copy to n3 (not back to n2), then the ok reply
    assert_eq!(first.len(), 2);

    let second = node.process(b).unwrap();
    // the value is already held: no fan-out, but the ok reply still comes
    assert_eq!(second.len(), 1);
    assert!(matches!(second[0].body, Workload::BroadcastOk { in_reply_to: 5, .. }));
}

// With neighbors {a, b, c} and a broadcast from a, exactly b and c get one
// copy each, carrying the value, with distinct fresh message ids.
#[test]
fn test_fanout_excludes_sender_and_covers_other_neighbors() {
    let mut node = create_node();
    init_node(&mut node);
    let topo_json = r#"{"src":"c1","dest":"n1","body":{"type":"topology","msg_id":1,"topology":{"n1":["a","b","c"]}}}"#;
    assert!(node.process(parse_message(topo_json)).is_ok());

    let b = Message {
        src: "a".to_string(),
        dest: "n1".to_string(),
        body: Workload::Broadcast { msg_id: 9, message: 77 },
    };
    let replies = node.process(b).unwrap();
    assert_eq!(replies.len(), 3);
    let dests: Vec<&str> = replies[..2].iter().map(|m| m.dest.as_str()).collect();
    assert_eq!(dests, vec!["b", "c"]);
    let mut ids = Vec::new();
    for m in &replies[..2] {
        assert_eq!(m.src, "n1");
        match &m.body {
            Workload::Broadcast { msg_id, message } => {
                assert_eq!(*message, 77);
                ids.push(*msg_id);
            },
            other => panic!("expected a broadcast copy, got {other:?}"),
        }
    }
    assert_ne!(ids[0], ids[1]);
    assert!(matches!(replies[2].body, Workload::BroadcastOk { in_reply_to: 9, .. }));
    assert_eq!(replies[2].dest, "a");
}

// A topology without a row for this node leaves it with no neighbors: a new
// value then produces only the ok reply.
#[test]
fn test_topology_without_own_row_clears_neighbors() {
    let mut node = create_node();
    init_node(&mut node);
    let topo_json = r#"{"src":"c1","dest":"n1","body":{"type":"topology","msg_id":1,"topology":{"n2":["n1","n3"]}}}"#;
    let reply = node.process(parse_message(topo_json)).unwrap();
    assert_eq!(reply.len(), 1);
    assert!(matches!(reply[0].body, Workload::TopologyOk { in_reply_to: 1, .. }));

    let b = Message {
        src: "c1".to_string(),
        dest: "n1".to_string(),
        body: Workload::Broadcast { msg_id: 2, message: 8 },
    };
    let replies = node.process(b).unwrap();
    assert_eq!(replies.len(), 1);
    assert!(matches!(replies[0].body, Workload::BroadcastOk { in_reply_to: 2, .. }));
}
