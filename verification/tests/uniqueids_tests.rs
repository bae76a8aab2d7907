use node::message::{Message, Workload};
use node::uid::{parse_numeric_suffix, u64_to_dec, unique_id_from_parts};
use node::uniqueids::create_node;
use serde_json::Value;
use std::collections::HashSet;

fn parse_message(s: &str) -> Message {
    let v: Value = serde_json::from_str(s).unwrap();
    let src = v["src"].as_str().unwrap().to_string();
    let dest = v["dest"].as_str().unwrap().to_string();
    let b = &v["body"];
    let body = match b["type"].as_str().unwrap() {
        "init" => Workload::Init {
            msg_id: b["msg_id"].as_u64().unwrap() as u32,
            node_id: b["node_id"].as_str().unwrap().to_string(),
            node_ids: b["node_ids"]
                .as_array()
                .unwrap()
                .iter()
                .map(|x| x.as_str().unwrap().to_string())
                .collect(),
        },
        "generate" => Workload::Generate { msg_id: b["msg_id"].as_u64().unwrap() as u32 },
        other => panic!("unsupported body type in test input: {other}"),
    };
    Message { src, dest, body }
}

#[test]
fn test_uniqueids() {
    let mut node = create_node();
    let init_json = r#"{"src":"c1","dest":"n1","body":{"type":"init","msg_id":1,"node_id":"n1","node_ids":["n1","n2","n3"]}}"#;
    let _ = node.process(parse_message(init_json));

    let generate_json = r#"{"src":"c1","dest":"n1","body":{"type":"generate","msg_id":1}}"#;
    let reply = node.process(parse_message(generate_json));
    assert!(reply.is_ok());
    assert!(match reply.unwrap().first().unwrap().body {
        Workload::GenerateOk { in_reply_to, .. } => in_reply_to == 1,
        _ => false,
    });
}

// Any run of at most 256 consecutive calls yields pairwise distinct ids: the
// wrapping call counter differs between any two of them.
#[test]
fn test_unique_ids_distinct_within_counter_period() {
    let mut node = create_node();
    let init_json = r#"{"src":"c1","dest":"n1","body":{"type":"init","msg_id":1,"node_id":"n7","node_ids":["n7"]}}"#;
    let _ = node.process(parse_message(init_json));

    let mut seen = HashSet::new();
    for _ in 0..256 {
        let id = node.gen_unique_id();
        assert!(seen.insert(id), "a generated id repeated within 256 calls");
    }
}

// A thousand consecutive ids from one node are pairwise distinct as long as
// no more than 256 of them fall into one millisecond: here the clock advances
// every 200 calls.
#[test]
fn test_thousand_ids_distinct_with_advancing_clock() {
    let node_num = parse_numeric_suffix("n7");
    let mut counter: u8 = 0;
    let mut seen = HashSet::new();
    for i in 0u64..1000 {
        counter = counter.wrapping_add(1);
        let millis = 1_700_000_000_000 + i / 200;
        let id = u64_to_dec(unique_id_from_parts(millis, node_num, counter));
        assert!(seen.insert(id), "a generated id repeated across 1000 calls");
    }
    assert_eq!(seen.len(), 1000);
}

#[test]
fn test_unique_id_packing_exact() {
    // timestamp bits land at positions 23..56, node number at 8..15,
    // counter at 0..7
    assert_eq!(unique_id_from_parts(1, 3, 5), (1u64 << 23) | (3 << 8) | 5);
    assert_eq!(unique_id_from_parts(0, 0, 0), 0);
    // only the low 8 bits of the node number are kept
    assert_eq!(unique_id_from_parts(0, 0x1FF, 0), 0xFF00);
    // only the low 34 bits of the timestamp are kept
    assert_eq!(unique_id_from_parts(1u64 << 34, 0, 0), 0);
}

#[test]
fn test_decimal_rendering_exact() {
    assert_eq!(u64_to_dec(0), "0");
    assert_eq!(u64_to_dec(7), "7");
    assert_eq!(u64_to_dec(1234567890123456789), "1234567890123456789");
    assert_eq!(u64_to_dec(u64::MAX), "18446744073709551615");
}

#[test]
fn test_numeric_suffix_parsing() {
    assert_eq!(parse_numeric_suffix("n1"), 1);
    assert_eq!(parse_numeric_suffix("n255"), 255);
    assert_eq!(parse_numeric_suffix("c007"), 7);
    assert_eq!(parse_numeric_suffix("x18446744073709551615"), u64::MAX);
}
