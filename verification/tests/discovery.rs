use drilltrack::messages::{
    announcement_now, apply_datagram, encode_announcement, encode_response, handle_datagram,
    handle_datagram_now, AnnounceContext,
};
use drilltrack::registry::ClientRegistry;

fn ctx() -> AnnounceContext {
    AnnounceContext {
        name: "X".to_string(),
        http_port: 8080,
        discovery_port: 9090,
        all_ips: vec!["192.168.1.2".to_string(), "192.168.1.3".to_string()],
    }
}

fn parse(s: &str) -> serde_json::Value {
    serde_json::from_str(s).expect("the encoder must produce valid JSON")
}

#[test]
fn client_discovery_records_sender_and_is_answered() {
    let mut reg = ClientRegistry::new();
    let c = ctx();
    let buf = b"{\"type\":\"client_discovery\",\"whoever\":1}";
    let sender = "10.0.0.5".to_string();
    let reply = handle_datagram(&mut reg, &c, buf, &sender, 123);

    assert_eq!(reg.snapshot(), vec!["10.0.0.5".to_string()]);
    let reply = reply.expect("a client_discovery request is answered");
    let v = parse(&reply);
    assert_eq!(v.get("type").and_then(|t| t.as_str()), Some("server_response"));
    assert_eq!(v.get("name").and_then(|t| t.as_str()), Some("X"));
    assert_eq!(v.get("http_port").and_then(|t| t.as_u64()), Some(8080));
    assert_eq!(v.get("ip").and_then(|t| t.as_str()), Some("192.168.1.2"));
    assert_eq!(v.get("discovery_port").and_then(|t| t.as_u64()), Some(9090));
    assert_eq!(v.get("timestamp").and_then(|t| t.as_i64()), Some(123));
}

#[test]
fn repeated_requests_from_one_peer_are_recorded_once() {
    let mut reg = ClientRegistry::new();
    let c = ctx();
    let buf = b"{\"type\":\"client_discovery\"}";
    let sender = "10.0.0.5".to_string();
    for _ in 0..3 {
        assert!(handle_datagram(&mut reg, &c, buf, &sender, 1).is_some());
    }
    assert_eq!(reg.snapshot(), vec!["10.0.0.5".to_string()]);
}

#[test]
fn malformed_datagram_is_dropped() {
    let mut reg = ClientRegistry::new();
    let c = ctx();
    let sender = "10.0.0.5".to_string();
    assert_eq!(handle_datagram(&mut reg, &c, b"not json at all", &sender, 1), None);
    assert_eq!(handle_datagram(&mut reg, &c, b"{\"no_type\":true}", &sender, 1), None);
    assert_eq!(handle_datagram(&mut reg, &c, b"{\"type\":42}", &sender, 1), None);
    assert_eq!(reg.len(), 0);
}

#[test]
fn unrecognized_type_is_dropped() {
    let mut reg = ClientRegistry::new();
    let c = ctx();
    let sender = "10.0.0.5".to_string();
    let reply = handle_datagram(&mut reg, &c, b"{\"type\":\"server_announce\"}", &sender, 1);
    assert_eq!(reply, None);
    assert_eq!(reg.len(), 0);
}

#[test]
fn classified_datagram_is_applied_the_same_way() {
    let mut reg = ClientRegistry::new();
    let c = ctx();
    let sender = "10.0.0.9".to_string();
    let reply = apply_datagram(&mut reg, &c, Some("client_discovery".to_string()), &sender, 7);
    assert!(reply.is_some());
    assert_eq!(reg.snapshot(), vec!["10.0.0.9".to_string()]);
    assert_eq!(apply_datagram(&mut reg, &c, Some("other".to_string()), &sender, 7), None);
    assert_eq!(apply_datagram(&mut reg, &c, None, &sender, 7), None);
}

#[test]
fn announcement_carries_the_session_parameters() {
    let c = ctx();
    let payload = encode_announcement(&c, 42);
    let v = parse(&payload);
    assert_eq!(v.get("type").and_then(|t| t.as_str()), Some("server_announce"));
    assert_eq!(v.get("name").and_then(|t| t.as_str()), Some("X"));
    assert_eq!(v.get("http_port").and_then(|t| t.as_u64()), Some(8080));
    assert_eq!(v.get("discovery_port").and_then(|t| t.as_u64()), Some(9090));
    assert_eq!(v.get("ip").and_then(|t| t.as_str()), Some("192.168.1.2"));
    assert_eq!(v.get("version").and_then(|t| t.as_str()), Some("1.0"));
    assert_eq!(v.get("timestamp").and_then(|t| t.as_i64()), Some(42));
    let ips: Vec<&str> =
        v.get("all_ips").unwrap().as_array().unwrap().iter().map(|x| x.as_str().unwrap()).collect();
    assert_eq!(ips, vec!["192.168.1.2", "192.168.1.3"]);
}

#[test]
fn announce_ticks_carry_strictly_increasing_timestamps() {
    // Five ticks of the two-second announce loop over a ten-second window,
    // with the clock readings the loop would observe.
    let c = ctx();
    let clock = [1000i64, 3000, 5000, 7000, 9000];
    let payloads: Vec<String> = clock.iter().map(|t| encode_announcement(&c, *t)).collect();
    assert_eq!(payloads.len(), 5);
    let stamps: Vec<i64> = payloads
        .iter()
        .map(|p| parse(p).get("timestamp").and_then(|t| t.as_i64()).unwrap())
        .collect();
    for w in stamps.windows(2) {
        assert!(w[0] < w[1]);
    }
    for i in 0..payloads.len() {
        for j in 0..i {
            assert_ne!(payloads[i], payloads[j]);
        }
    }
}

#[test]
fn name_needing_escapes_round_trips() {
    let mut c = ctx();
    c.name = "a\"b\\c\nd\u{1}e".to_string();
    let payload = encode_announcement(&c, 1);
    let v = parse(&payload);
    assert_eq!(v.get("name").and_then(|t| t.as_str()), Some("a\"b\\c\nd\u{1}e"));
    let reply = encode_response(&c, 1);
    let v = parse(&reply);
    assert_eq!(v.get("name").and_then(|t| t.as_str()), Some("a\"b\\c\nd\u{1}e"));
}

#[test]
fn negative_timestamp_is_encoded_as_json_number() {
    let c = ctx();
    let v = parse(&encode_announcement(&c, -1234));
    assert_eq!(v.get("timestamp").and_then(|t| t.as_i64()), Some(-1234));
    let v = parse(&encode_announcement(&c, i64::MIN));
    assert_eq!(v.get("timestamp").and_then(|t| t.as_i64()), Some(i64::MIN));
}

#[test]
fn clock_stamped_messages_parse() {
    let c = ctx();
    let v = parse(&announcement_now(&c));
    assert_eq!(v.get("type").and_then(|t| t.as_str()), Some("server_announce"));
    assert!(v.get("timestamp").and_then(|t| t.as_i64()).is_some());

    let mut reg = ClientRegistry::new();
    let sender = "10.0.0.5".to_string();
    let reply = handle_datagram_now(&mut reg, &c, b"{\"type\":\"client_discovery\"}", &sender);
    let v = parse(&reply.unwrap());
    assert_eq!(v.get("type").and_then(|t| t.as_str()), Some("server_response"));
    assert_eq!(reg.snapshot(), vec!["10.0.0.5".to_string()]);
}
