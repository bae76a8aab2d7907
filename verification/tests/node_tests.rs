use node::engine::Node;
use node::helper::Error;
use node::message::{Message, Workload};
use serde_json::{Number, Value};

fn parse_message(s: &str) -> Message {
    let v: Value = serde_json::from_str(s).unwrap();
    let src = v["src"].as_str().unwrap().to_string();
    let dest = v["dest"].as_str().unwrap().to_string();
    let b = &v["body"];
    let body = match b["type"].as_str().unwrap() {
        "init" => Workload::Init {
            msg_id: b["msg_id"].as_u64().unwrap() as u32,
            node_id: b["node_id"].as_str().unwrap().to_string(),
            node_ids: b["node_ids"]
                .as_array()
                .unwrap()
                .iter()
                .map(|x| x.as_str().unwrap().to_string())
                .collect(),
        },
        "echo" => Workload::Echo {
            msg_id: b["msg_id"].as_u64().unwrap() as u32,
            echo: b["echo"].as_str().unwrap().to_string(),
        },
        other => panic!("unsupported body type in test input: {other}"),
    };
    Message { src, dest, body }
}

fn obj(entries: Vec<(&str, Value)>) -> Value {
    let mut m = serde_json::Map::new();
    for (k, v) in entries {
        m.insert(k.to_string(), v);
    }
    Value::Object(m)
}

fn num(n: u64) -> Value {
    Value::Number(Number::from(n))
}

fn message_to_value(m: &Message) -> Value {
    let body = match &m.body {
        Workload::InitOk { in_reply_to } => obj(vec![
            ("type", Value::String("init_ok".to_string())),
            ("in_reply_to", num(*in_reply_to as u64)),
        ]),
        Workload::EchoOk { in_reply_to, msg_id, echo } => obj(vec![
            ("type", Value::String("echo_ok".to_string())),
            ("in_reply_to", num(*in_reply_to as u64)),
            ("msg_id", num(*msg_id as u64)),
            ("echo", Value::String(echo.clone())),
        ]),
        other => panic!("unsupported body in test output: {other:?}"),
    };
    obj(vec![
        ("src", Value::String(m.src.clone())),
        ("dest", Value::String(m.dest.clone())),
        ("body", body),
    ])
}

#[test]
fn test_node_init() {
    let mut node = Node::default();
    let message = parse_message(
        r#"{"src":"c1","dest":"n1","body":{"type":"init","msg_id":1,"node_id":"n1","node_ids":["n1","n2","n3"]}}"#,
    );
    let reply = node.process(message);
    assert!(reply.is_ok());

    let reply = message_to_value(reply.unwrap().first().unwrap());
    let expected: Value = serde_json::from_str(
        r#"{"src":"n1","dest":"c1","body":{"type":"init_ok","in_reply_to":1}}"#,
    )
    .unwrap();
    assert_eq!(reply, expected);
}

#[test]
fn test_node_not_init() {
    let mut node = Node::default();
    let json =
        r#"{"src":"c1","dest":"n2","body":{"type":"echo","echo":"Hello, World!","msg_id":1}}"#;
    let message = parse_message(json);
    let reply = node.process(message); // received valid message but node is not initialized yet.
    assert!(reply.is_err());
    assert_eq!(
        reply.err().unwrap().describe(),
        Error::NotInitializedYet.describe()
    );
}

#[test]
fn test_node_fail_reini() {
    let mut node = Node::default();
    let json = r#"{"src":"c1","dest":"n1","body":{"type":"init","msg_id":1,"node_id":"n1","node_ids":["n1","n2","n3"]}}"#;
    let message = parse_message(json);

    let _ = node.process(message.clone()); // initialized.
    let reply = node.process(parse_message(json)); // receiving "init" again!
    assert!(reply.is_err());
    assert_eq!(
        reply.err().unwrap().describe(),
        Error::AlreadyInitialized.describe()
    );
}
