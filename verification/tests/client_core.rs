use broker_client::codec::{decode_bytes, decode_payload, payload_round_trip};
use broker_client::config::ClientConfig;
use broker_client::consumer::{
    backoff_delay_ms, consume_step, drain, Cursor, InboundMessage, LoopAction, PartitionLog,
    PollOutcome, PollStrategy,
};
use broker_client::errors::ClientError;
use broker_client::json::{
    create_stream_body, create_topic_body, json_escape, json_quote, login_body, poll_query,
    u64_to_dec,
};
use broker_client::provision::{
    ensure_ref, ensure_resource, ensure_step, pending_action, CreateOutcome, EnsureAction,
    EnsureEvent, EnsureState, FetchOutcome, ResourceDirectory, ResourceRef,
};
use broker_client::publisher::{
    build_envelope, partition_selector_bytes, record_body, record_body_now, OutboundMessage,
    ProducerState, SendOutcome,
};
use broker_client::session::{session_from_login, LoginOutcome};

#[test]
fn record_body_shape() {
    assert_eq!(
        record_body(1, "hello from Rust producer", "2024-01-01T00:00:00+00:00"),
        "{\"id\":1,\"text\":\"hello from Rust producer\",\"ts\":\"2024-01-01T00:00:00+00:00\"}"
    );
}

#[test]
fn decimal_rendering() {
    assert_eq!(u64_to_dec(0), "0");
    assert_eq!(u64_to_dec(7), "7");
    assert_eq!(u64_to_dec(407), "407");
    assert_eq!(u64_to_dec(u64::MAX), "18446744073709551615");
}

#[test]
fn escaping_quotes_and_controls() {
    assert_eq!(json_escape("plain text"), "plain text");
    assert_eq!(json_escape("a\"b\\c"), "a\\\"b\\\\c");
    assert_eq!(json_escape("line\nbreak\ttab\rret"), "line\\nbreak\\ttab\\rret");
    assert_eq!(json_escape("\u{0001}"), "\\u0001");
    assert_eq!(json_escape("\u{001f}"), "\\u001f");
    assert_eq!(json_quote("iggy"), "\"iggy\"");
}

#[test]
fn login_body_shape() {
    assert_eq!(
        login_body("iggy", "iggy"),
        "{\"username\":\"iggy\",\"password\":\"iggy\"}"
    );
}

#[test]
fn creation_body_shapes() {
    assert_eq!(create_stream_body("demo-stream"), "{\"name\":\"demo-stream\"}");
    assert_eq!(
        create_topic_body("demo-topic", 1),
        "{\"name\":\"demo-topic\",\"partitions_count\":1,\"compression_algorithm\":\"none\",\
         \"message_expiry\":0,\"max_topic_size\":0,\"replication_factor\":1}"
    );
}

#[test]
fn poll_query_shape() {
    assert_eq!(
        poll_query(1, 0, 42, 10, true),
        "consumer=1&partition_id=0&strategy=offset&value=42&count=10&auto_commit=true"
    );
    assert_eq!(
        poll_query(1, 3, 0, 5, false),
        "consumer=1&partition_id=3&strategy=offset&value=0&count=5&auto_commit=false"
    );
}

#[test]
fn decode_accepts_valid_base64() {
    assert_eq!(decode_bytes("aGk=").unwrap(), b"hi".to_vec());
    assert_eq!(decode_payload("aGk="), "hi");
}

#[test]
fn decode_error_variant() {
    let r = decode_bytes("not base64!!");
    assert_eq!(r.unwrap_err(), ClientError::DecodeError);
}

#[test]
fn decode_falls_back_to_raw_text() {
    assert_eq!(decode_payload("not base64!!"), "not base64!!");
}

#[test]
fn decode_degrades_invalid_utf8() {
    // "/w==" is the base64 encoding of the single byte 0xff, which is not
    // valid UTF-8 on its own.
    assert_eq!(decode_bytes("/w==").unwrap(), vec![0xffu8]);
    assert_eq!(decode_payload("/w=="), "\u{fffd}");
}

#[test]
fn payload_round_trip_exact() {
    let payload: Vec<u8> = vec![0, 1, 2, 254, 255, 100, 42];
    assert_eq!(payload_round_trip(&payload), payload);
    let empty: Vec<u8> = Vec::new();
    assert_eq!(payload_round_trip(&empty), empty);
}

#[test]
fn partition_selector_little_endian() {
    assert_eq!(partition_selector_bytes(0), vec![0, 0, 0, 0]);
    assert_eq!(partition_selector_bytes(0x01020304), vec![4, 3, 2, 1]);
}

#[test]
fn envelope_shape() {
    assert_eq!(
        build_envelope(0, &b"hi".to_vec()),
        "{\"partitioning\":{\"kind\":\"partition_id\",\"value\":\"AAAAAA==\"},\
         \"messages\":[{\"payload\":\"aGk=\"}]}"
    );
}

#[test]
fn producer_sequence_ids_increase() {
    let mut p = ProducerState::new();
    let m1: OutboundMessage = p.next_message(0, b"a".to_vec());
    let m2 = p.next_message(0, b"b".to_vec());
    assert_eq!(m1.sequence_id, 1);
    assert_eq!(m2.sequence_id, 2);
    assert_eq!(m1.partition_key, 0);
    assert_eq!(m1.payload, b"a".to_vec());
}

#[test]
fn failed_send_is_dropped_not_fatal() {
    let mut p = ProducerState::new();
    assert_eq!(p.record_send(SendOutcome::Accepted), None);
    let e = p.record_send(SendOutcome::Rejected);
    assert_eq!(e, Some(ClientError::SendError));
    assert!(!e.unwrap().is_fatal());
    assert_eq!(p.acked, 1);
    assert_eq!(p.dropped, 1);
}

#[test]
fn login_outcomes_map_to_distinct_errors() {
    let s = session_from_login(LoginOutcome::TokenIssued("tok".to_string())).unwrap();
    assert_eq!(s.credential, "tok");
    assert!(s.connected);
    let bad = session_from_login(LoginOutcome::BadCredentials).unwrap_err();
    let down = session_from_login(LoginOutcome::Unreachable).unwrap_err();
    assert_eq!(bad, ClientError::AuthError);
    assert_eq!(down, ClientError::ConnectionError);
    assert_ne!(bad, down);
    assert!(bad.is_fatal());
    assert!(down.is_fatal());
}

#[test]
fn fatality_per_error_class() {
    assert!(ClientError::ConnectionError.is_fatal());
    assert!(ClientError::AuthError.is_fatal());
    assert!(ClientError::ProvisionError.is_fatal());
    assert!(!ClientError::SendError.is_fatal());
    assert!(!ClientError::PollError.is_fatal());
    assert!(!ClientError::DecodeError.is_fatal());
}

#[test]
fn timestamped_record_shape() {
    let r = record_body_now(7, "x");
    assert!(r.starts_with("{\"id\":7,\"text\":\"x\",\"ts\":\""));
    assert!(r.ends_with("\"}"));
}

#[test]
fn resource_ref_resolves_once() {
    let mut dir = ResourceDirectory::new();
    let mut stream = ResourceRef::new("demo-stream".to_string());
    assert_eq!(stream.id(), None);
    let (r1, created1) = ensure_ref(&mut dir, &mut stream);
    assert!(created1);
    let id = r1.unwrap();
    assert_eq!(stream.id(), Some(id));
    let (r2, created2) = ensure_ref(&mut dir, &mut stream);
    assert!(!created2);
    assert_eq!(r2.unwrap(), id);
    assert_eq!(stream.name(), "demo-stream");
}

#[test]
fn ensure_twice_same_id() {
    let mut dir = ResourceDirectory::new();
    let name = "demo-topic".to_string();
    let (r1, created1) = ensure_resource(&mut dir, &name);
    let (r2, created2) = ensure_resource(&mut dir, &name);
    assert!(created1);
    assert!(!created2);
    assert_eq!(r1.unwrap(), r2.unwrap());
}

#[test]
fn ensure_many_times_one_creation() {
    let mut dir = ResourceDirectory::new();
    let name = "demo-stream".to_string();
    let mut creations = 0;
    let mut ids = Vec::new();
    for _ in 0..5 {
        let (r, created) = ensure_resource(&mut dir, &name);
        if created {
            creations += 1;
        }
        ids.push(r.unwrap());
    }
    assert_eq!(creations, 1);
    assert!(ids.iter().all(|&id| id == ids[0]));
}

#[test]
fn concurrent_creator_conflict() {
    let mut dir = ResourceDirectory::new();
    let name = "demo-stream".to_string();
    assert_eq!(dir.create(&name), CreateOutcome::Created(1));
    assert_eq!(dir.create(&name), CreateOutcome::Conflict);
    assert_eq!(dir.fetch(&name), FetchOutcome::Found(1));
}

#[test]
fn ensure_machine_resolves_conflict() {
    let st = EnsureState::Fetching;
    assert_eq!(pending_action(st), EnsureAction::DoFetch);
    let st = ensure_step(st, EnsureEvent::Fetched(FetchOutcome::Absent));
    assert_eq!(st, EnsureState::Creating);
    assert_eq!(pending_action(st), EnsureAction::DoCreate);
    let st = ensure_step(st, EnsureEvent::CreateDone(CreateOutcome::Conflict));
    assert_eq!(st, EnsureState::Refetching);
    assert_eq!(pending_action(st), EnsureAction::DoFetch);
    let st = ensure_step(st, EnsureEvent::Fetched(FetchOutcome::Found(7)));
    assert_eq!(st, EnsureState::Ready(7));
    assert_eq!(pending_action(st), EnsureAction::Stop);
}

#[test]
fn ensure_machine_fatal_paths() {
    assert_eq!(
        ensure_step(EnsureState::Fetching, EnsureEvent::Fetched(FetchOutcome::Failed)),
        EnsureState::Failed
    );
    assert_eq!(
        ensure_step(EnsureState::Creating, EnsureEvent::CreateDone(CreateOutcome::Rejected)),
        EnsureState::Failed
    );
}

#[test]
fn publish_then_single_poll_in_order() {
    let mut log = PartitionLog::new();
    let ts = "2024-01-01T00:00:00+00:00";
    let mut expected = Vec::new();
    for id in 1..=5u64 {
        let text = record_body(id, "hello from Rust producer", ts);
        log.append(text.clone().into_bytes());
        expected.push(text);
    }
    let mut cursor = Cursor::new(1, PollStrategy::ExplicitOffset);
    let batch = log.poll(cursor.next_offset, 10);
    assert_eq!(batch.len(), 5);
    let r = consume_step(&mut cursor, PollOutcome::Batch(batch));
    assert_eq!(r.action, LoopAction::Continue);
    assert_eq!(r.delivered.len(), 5);
    for (i, m) in r.delivered.iter().enumerate() {
        assert_eq!(m.offset, i as u64);
        assert_eq!(String::from_utf8(m.payload.clone()).unwrap(), expected[i]);
    }
    assert_eq!(cursor.next_offset, 5);
}

#[test]
fn empty_topic_sleeps_not_errors() {
    let log = PartitionLog::new();
    let mut cursor = Cursor::new(0, PollStrategy::ExplicitOffset);
    let batch = log.poll(cursor.next_offset, 10);
    assert!(batch.is_empty());
    let r = consume_step(&mut cursor, PollOutcome::Batch(batch));
    assert_eq!(r.action, LoopAction::Backoff);
    assert_eq!(r.error, None);
    assert_eq!(cursor.next_offset, 0);
    assert_eq!(backoff_delay_ms(r.action, 500), Some(500));
    assert_eq!(backoff_delay_ms(LoopAction::Continue, 500), None);
}

#[test]
fn drain_delivers_each_offset_once_any_batch_size() {
    for batch_size in [1u32, 2, 3, 10] {
        let mut log = PartitionLog::new();
        for i in 0..7u8 {
            log.append(vec![i]);
        }
        let mut cursor = Cursor::new(0, PollStrategy::ExplicitOffset);
        let delivered = drain(&log, &mut cursor, batch_size);
        assert_eq!(delivered.len(), 7);
        for (i, m) in delivered.iter().enumerate() {
            assert_eq!(m.offset, i as u64);
            assert_eq!(m.payload, vec![i as u8]);
        }
        assert_eq!(cursor.next_offset, 7);
        assert!(log.poll(cursor.next_offset, batch_size).is_empty());
    }
}

#[test]
fn cursor_never_decreases() {
    let mut log = PartitionLog::new();
    for i in 0..4u8 {
        log.append(vec![i]);
    }
    let mut cursor = Cursor::new(0, PollStrategy::ExplicitOffset);
    let mut seen = vec![cursor.next_offset];
    let batch = log.poll(cursor.next_offset, 2);
    consume_step(&mut cursor, PollOutcome::Batch(batch));
    seen.push(cursor.next_offset);
    consume_step(&mut cursor, PollOutcome::Failed);
    seen.push(cursor.next_offset);
    consume_step(&mut cursor, PollOutcome::Empty);
    seen.push(cursor.next_offset);
    let batch = log.poll(cursor.next_offset, 10);
    consume_step(&mut cursor, PollOutcome::Batch(batch));
    seen.push(cursor.next_offset);
    for w in seen.windows(2) {
        assert!(w[0] <= w[1]);
    }
    assert_eq!(seen, vec![0, 2, 2, 2, 4]);
}

#[test]
fn restart_redelivers_no_skip() {
    let mut log = PartitionLog::new();
    for i in 0..5u8 {
        log.append(vec![i]);
    }
    let mut cursor = Cursor::new(0, PollStrategy::ExplicitOffset);
    let batch = log.poll(cursor.next_offset, 2);
    let r = consume_step(&mut cursor, PollOutcome::Batch(batch));
    assert_eq!(r.delivered.len(), 2);
    assert_eq!(cursor.next_offset, 2);
    // A crash loses the in-memory cursor; the restarted consumer begins at 0
    // and must see every offset it never delivered (2, 3, 4).
    let mut restarted = Cursor::new(0, PollStrategy::ExplicitOffset);
    let redelivered = drain(&log, &mut restarted, 2);
    let offsets: Vec<u64> = redelivered.iter().map(|m| m.offset).collect();
    assert_eq!(offsets, vec![0, 1, 2, 3, 4]);
}

#[test]
fn malformed_batch_is_poll_error() {
    let mut cursor = Cursor::new(0, PollStrategy::ExplicitOffset);
    let batch = vec![
        InboundMessage { offset: 3, payload: vec![1] },
        InboundMessage { offset: 2, payload: vec![2] },
    ];
    let r = consume_step(&mut cursor, PollOutcome::Batch(batch));
    assert_eq!(r.action, LoopAction::Backoff);
    assert_eq!(r.error, Some(ClientError::PollError));
    assert_eq!(cursor.next_offset, 0);
    assert!(r.delivered.is_empty());
}

#[test]
fn next_unread_strategy_leaves_cursor_to_broker() {
    let mut log = PartitionLog::new();
    log.append(vec![1]);
    log.append(vec![2]);
    let mut cursor = Cursor::new(0, PollStrategy::NextUnread);
    let batch = log.poll(0, 10);
    let r = consume_step(&mut cursor, PollOutcome::Batch(batch));
    assert_eq!(r.delivered.len(), 2);
    assert_eq!(cursor.next_offset, 0);
}

#[test]
fn poll_window_is_bounded_and_positioned() {
    let mut log = PartitionLog::new();
    for i in 0..10u8 {
        log.append(vec![i]);
    }
    let batch = log.poll(3, 2);
    assert_eq!(batch.len(), 2);
    assert_eq!(batch[0].offset, 3);
    assert_eq!(batch[1].offset, 4);
    assert!(log.poll(10, 2).is_empty());
    assert!(log.poll(u64::MAX, 2).is_empty());
}

#[test]
fn demo_configuration_defaults() {
    let cfg = ClientConfig::demo_defaults();
    assert_eq!(cfg.server_address, "http://localhost:3000");
    assert_eq!(cfg.stream_name, "demo-stream");
    assert_eq!(cfg.topic_name, "demo-topic");
    assert_eq!(cfg.partition_id, 0);
    assert_eq!(cfg.poll_interval_ms, 500);
    assert_eq!(cfg.batch_size, 10);
    assert_eq!(cfg.send_interval_secs, 1);
}
