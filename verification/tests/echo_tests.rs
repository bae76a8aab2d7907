use node::echo::create_node;
use node::message::{Message, Workload};
use serde_json::{Number, Value};

fn parse_message(s: &str) -> Message {
    let v: Value = serde_json::from_str(s).unwrap();
    let src = v["src"].as_str().unwrap().to_string();
    let dest = v["dest"].as_str().unwrap().to_string();
    let b = &v["body"];
    let body = match b["type"].as_str().unwrap() {
        "init" => Workload::Init {
            msg_id: b["msg_id"].as_u64().unwrap() as u32,
            node_id: b["node_id"].as_str().unwrap().to_string(),
            node_ids: b["node_ids"]
                .as_array()
                .unwrap()
                .iter()
                .map(|x| x.as_str().unwrap().to_string())
                .collect(),
        },
        "echo" => Workload::Echo {
            msg_id: b["msg_id"].as_u64().unwrap() as u32,
            echo: b["echo"].as_str().unwrap().to_string(),
        },
        other => panic!("unsupported body type in test input: {other}"),
    };
    Message { src, dest, body }
}

fn obj(entries: Vec<(&str, Value)>) -> Value {
    let mut m = serde_json::Map::new();
    for (k, v) in entries {
        m.insert(k.to_string(), v);
    }
    Value::Object(m)
}

fn num(n: u64) -> Value {
    Value::Number(Number::from(n))
}

fn message_to_value(m: &Message) -> Value {
    let body = match &m.body {
        Workload::EchoOk { in_reply_to, msg_id, echo } => obj(vec![
            ("type", Value::String("echo_ok".to_string())),
            ("in_reply_to", num(*in_reply_to as u64)),
            ("msg_id", num(*msg_id as u64)),
            ("echo", Value::String(echo.clone())),
        ]),
        other => panic!("unsupported body in test output: {other:?}"),
    };
    obj(vec![
        ("src", Value::String(m.src.clone())),
        ("dest", Value::String(m.dest.clone())),
        ("body", body),
    ])
}

#[test]
fn test_echo() {
    let mut node = create_node();
    let init_json = r#"{"src":"c1","dest":"n1","body":{"type":"init","msg_id":1,"node_id":"n1","node_ids":["n1","n2","n3"]}}"#;
    let init_message = parse_message(init_json);
    let _ = node.process(init_message);

    let echo_json =
        r#"{"src":"c1","dest":"n1","body":{"type":"echo","echo":"Hello, World!","msg_id":1}}"#;
    let echo_message = parse_message(echo_json);
    let reply = node.process(echo_message);
    assert!(reply.is_ok());

    let reply = message_to_value(reply.unwrap().first().unwrap());
    let expected: Value = serde_json::from_str(
        r#"{"src":"n1","dest":"c1","body":{"type":"echo_ok","in_reply_to":1,"msg_id":1,"echo":"Hello, World!"}}"#,
    )
    .unwrap();
    assert_eq!(reply, expected);
}
