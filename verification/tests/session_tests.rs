use opcua_session::address::{Identifier, NodeAddress};
use opcua_session::dispatch::{dispatch_notifications, NotificationItem};
use opcua_session::queue::QueueAttempt;
use opcua_session::service::{OpcError, OpcuaService, ProcessStep};
use opcua_session::value::{DataValue, Value, WriteRequest};

fn connected_service() -> OpcuaService {
    let mut svc = OpcuaService::new(String::from("opc.tcp://localhost:4840"));
    svc.connect_begin();
    svc.connect_complete(true).expect("mock connect succeeds");
    svc
}

#[test]
fn write_node_good_roundtrip() {
    let svc = connected_service();
    let cmd = svc
        .write_node_begin("ns=4;i=3", Value::Int16(7))
        .expect("write on a connected session is prepared");
    assert_eq!(cmd.node_id, "ns=4;i=3");
    assert_eq!(cmd.data.value, Some(Value::Int16(7)));
    assert_eq!(cmd.data.status, Some(0));
    assert!(cmd.data.timestamp.is_some());
    let statuses = vec![0u32];
    let done = OpcuaService::write_node_complete("ns=4;i=3", Value::Int16(7), &statuses);
    assert!(done.is_ok());
}

#[test]
fn write_node_reports_bad_status_with_diagnostics() {
    let statuses = vec![0x8000_0000u32];
    let err = OpcuaService::write_node_complete("ns=4;i=3", Value::Byte(9), &statuses)
        .expect_err("bad status fails");
    match err {
        OpcError::ProtocolStatusBad { node_id, value, status } => {
            assert_eq!(node_id, "ns=4;i=3");
            assert_eq!(value, Some(Value::Byte(9)));
            assert_eq!(status, 0x8000_0000);
        }
        other => panic!("unexpected error {:?}", other),
    }
}

#[test]
fn write_node_empty_response_fails() {
    let statuses: Vec<u32> = vec![];
    let err = OpcuaService::write_node_complete("ns=4;i=3", Value::Empty, &statuses)
        .expect_err("empty response fails");
    assert!(matches!(err, OpcError::EmptyResponse { .. }));
}

#[test]
fn disconnected_operations_fail_fast() {
    let svc = OpcuaService::new(String::from("opc.tcp://localhost:4840"));
    assert!(!svc.is_connected());
    assert_eq!(
        svc.write_node_begin("ns=4;i=3", Value::Boolean(true)),
        Err(OpcError::NotConnected)
    );
    assert_eq!(svc.read_node_begin("ns=4;i=3").err(), Some(OpcError::NotConnected));
    let ids = vec![String::from("ns=4;i=3")];
    assert!(matches!(
        svc.subscribe_to_nodes("g", &ids),
        Err(OpcError::NotConnected)
    ));
}

#[test]
fn parse_error_reports_input() {
    let svc = connected_service();
    match svc.write_node_begin("not an id", Value::Empty) {
        Err(OpcError::ParseError { input }) => assert_eq!(input, "not an id"),
        other => panic!("unexpected {:?}", other),
    }
}

#[test]
fn queued_writes_drain_in_submission_order() {
    let mut svc = connected_service();
    for name in ["ns=4;i=1", "ns=4;i=2", "ns=4;i=3"] {
        let r = svc.queue_write(String::from(name), Value::Byte(1));
        assert_eq!(r, Ok(QueueAttempt::Enqueued));
    }
    let mut seen: Vec<String> = Vec::new();
    for _ in 0..3 {
        match svc.process_writes_step() {
            ProcessStep::Dispatch(cmd) => seen.push(cmd.node_id),
            other => panic!("expected a dispatch, got {:?}", other),
        }
    }
    assert_eq!(seen, vec!["ns=4;i=1", "ns=4;i=2", "ns=4;i=3"]);
    assert!(matches!(svc.process_writes_step(), ProcessStep::Idle));
}

#[test]
fn full_queue_blocks_then_frees() {
    let mut svc = connected_service();
    for i in 0..50u32 {
        let r = svc.queue_write(format!("ns=4;i={}", i), Value::Byte(0));
        assert_eq!(r, Ok(QueueAttempt::Enqueued));
    }
    // Capacity reached: a further submission is told to wait; nothing is
    // dropped and nothing grows.
    assert_eq!(
        svc.queue_write(String::from("ns=4;i=50"), Value::Byte(0)),
        Ok(QueueAttempt::MustWait)
    );
    // The drainer frees one slot; the oldest request comes out.
    match svc.process_writes_step() {
        ProcessStep::Dispatch(cmd) => assert_eq!(cmd.node_id, "ns=4;i=0"),
        other => panic!("expected a dispatch, got {:?}", other),
    }
    assert_eq!(
        svc.queue_write(String::from("ns=4;i=50"), Value::Byte(0)),
        Ok(QueueAttempt::Enqueued)
    );
}

#[test]
fn dequeued_write_discarded_while_disconnected() {
    let mut svc = OpcuaService::new(String::from("opc.tcp://localhost:4840"));
    let r = svc.queue_write(String::from("ns=4;i=9"), Value::Boolean(true));
    assert_eq!(r, Ok(QueueAttempt::Enqueued));
    match svc.process_writes_step() {
        ProcessStep::DiscardedDisconnected(req) => {
            assert_eq!(req.node_id, "ns=4;i=9");
            assert_eq!(req.value, Value::Boolean(true));
        }
        other => panic!("expected a discard, got {:?}", other),
    }
    // Not re-queued: the queue is empty again.
    assert!(matches!(svc.process_writes_step(), ProcessStep::Idle));
}

#[test]
fn queue_refuses_work_after_shutdown() {
    let mut svc = connected_service();
    svc.shutdown();
    assert_eq!(
        svc.queue_write(String::from("ns=4;i=1"), Value::Byte(1)),
        Err(OpcError::QueueClosed)
    );
    assert!(matches!(svc.process_writes_step(), ProcessStep::Stopped));
}

#[test]
fn subscription_skips_malformed_ids() {
    let svc = connected_service();
    let ids = vec![
        String::from("ns=4;i=1"),
        String::from("bogus"),
        String::from("ns=4;s=|var|WAGO TEST.Application.DB_OPC.VectorBool"),
        String::from("ns=4;i=2"),
    ];
    let plan = svc.subscribe_to_nodes("vector_group", &ids).expect("three ids parse");
    assert_eq!(plan.name, "vector_group");
    assert_eq!(plan.items.len(), 3);
    assert_eq!(plan.publishing_interval_ms, 500);
    assert_eq!(plan.lifetime_count, 10);
    assert_eq!(plan.max_keep_alive_count, 30);
    assert!(plan.publishing_enabled);
}

#[test]
fn subscription_with_no_valid_id_fails() {
    let svc = connected_service();
    let ids = vec![String::from("bogus"), String::from("")];
    match svc.subscribe_to_nodes("vector_group", &ids) {
        Err(OpcError::ParseError { input }) => assert_eq!(input, "vector_group"),
        other => panic!("unexpected {:?}", other),
    }
}

#[test]
fn notification_batch_invokes_once_per_changed_item() {
    let items = vec![
        NotificationItem {
            node_id: String::from("ns=4;i=1"),
            data: DataValue {
                value: Some(Value::Boolean(true)),
                status: Some(0),
                timestamp: Some(111),
            },
        },
        NotificationItem {
            node_id: String::from("ns=4;i=2"),
            data: DataValue {
                value: Some(Value::UInt16(5)),
                status: None,
                timestamp: Some(222),
            },
        },
        NotificationItem {
            node_id: String::from("ns=4;i=3"),
            data: DataValue { value: None, status: Some(0), timestamp: None },
        },
    ];
    let readings = dispatch_notifications(items);
    assert_eq!(readings.len(), 2);
    assert_eq!(readings[0].node_id, "ns=4;i=1");
    assert_eq!(readings[0].value, Value::Boolean(true));
    assert_eq!(readings[0].timestamp, 111);
    assert_eq!(readings[0].quality, 0);
    assert_eq!(readings[1].node_id, "ns=4;i=2");
    assert_eq!(readings[1].value, Value::UInt16(5));
    assert_eq!(readings[1].timestamp, 222);
    // An absent status reads as good.
    assert_eq!(readings[1].quality, 0);
}

#[test]
fn supervisor_retries_until_connected() {
    let mut svc = OpcuaService::new(String::from("opc.tcp://localhost:4840"));
    assert!(svc.keep_alive_tick());
    svc.connect_begin();
    assert_eq!(svc.connect_complete(false), Err(OpcError::ConnectFailed));
    assert!(!svc.is_connected());
    // A further interval triggers another attempt; a success ends the loop.
    assert!(svc.keep_alive_tick());
    svc.connect_begin();
    assert!(svc.connect_complete(true).is_ok());
    assert!(svc.is_connected());
    assert!(!svc.keep_alive_tick());
}

#[test]
fn reconnect_keeps_queued_work() {
    let mut svc = OpcuaService::new(String::from("opc.tcp://localhost:4840"));
    let r = svc.queue_write(String::from("ns=4;i=7"), Value::Byte(3));
    assert_eq!(r, Ok(QueueAttempt::Enqueued));
    svc.connect_begin();
    svc.connect_complete(true).expect("mock connect succeeds");
    match svc.process_writes_step() {
        ProcessStep::Dispatch(cmd) => assert_eq!(cmd.node_id, "ns=4;i=7"),
        other => panic!("expected a dispatch, got {:?}", other),
    }
}

#[test]
fn disconnect_clears_session() {
    let mut svc = connected_service();
    assert!(svc.is_connected());
    let had = svc.disconnect();
    assert!(had.is_some());
    assert!(!svc.is_connected());
    assert!(svc.disconnect().is_none());
}

#[test]
fn value_round_trip_through_write_and_reading() {
    fn sample() -> Value {
        Value::Array(vec![Value::Boolean(true), Value::Byte(3), Value::Text(String::from("x"))])
    }
    let req = WriteRequest { node_id: String::from("ns=4;i=1"), value: sample() };
    // The mock server reports back exactly what the write carried.
    let items = vec![NotificationItem {
        node_id: req.node_id.clone(),
        data: DataValue { value: Some(req.value), status: Some(0), timestamp: Some(1) },
    }];
    let readings = dispatch_notifications(items);
    assert_eq!(readings.len(), 1);
    assert_eq!(readings[0].value, sample());
}

#[test]
fn read_complete_takes_response_verbatim() {
    let results = vec![DataValue {
        value: Some(Value::Text(String::from("hi"))),
        status: Some(0x4000_0000),
        timestamp: Some(99),
    }];
    let nd = OpcuaService::read_node_complete("ns=4;i=8", results).expect("uncertain is not bad");
    assert_eq!(nd.node_id, "ns=4;i=8");
    assert_eq!(nd.value, Value::Text(String::from("hi")));
    assert_eq!(nd.timestamp, 99);
    assert_eq!(nd.quality, 0x4000_0000);
}

#[test]
fn read_complete_defaults_and_errors() {
    let empty: Vec<DataValue> = vec![];
    assert!(matches!(
        OpcuaService::read_node_complete("ns=4;i=8", empty),
        Err(OpcError::EmptyResponse { .. })
    ));
    let bad = vec![DataValue { value: None, status: Some(0x8000_0000), timestamp: None }];
    match OpcuaService::read_node_complete("ns=4;i=8", bad) {
        Err(OpcError::ProtocolStatusBad { node_id, value, status }) => {
            assert_eq!(node_id, "ns=4;i=8");
            assert_eq!(value, None);
            assert_eq!(status, 0x8000_0000);
        }
        other => panic!("unexpected {:?}", other),
    }
    let absent = vec![DataValue { value: None, status: None, timestamp: Some(5) }];
    let nd = OpcuaService::read_node_complete("ns=4;i=8", absent).expect("absent parts default");
    assert_eq!(nd.value, Value::Empty);
    assert_eq!(nd.quality, 0);
    assert_eq!(nd.timestamp, 5);
}

#[test]
fn data_type_read_requires_an_answer() {
    let dt = NodeAddress { namespace: 0, identifier: Identifier::Numeric(1) };
    let ok = OpcuaService::read_node_data_type_complete("ns=4;i=8", Some(dt));
    assert!(ok.is_ok());
    assert!(matches!(
        OpcuaService::read_node_data_type_complete("ns=4;i=8", None),
        Err(OpcError::EmptyResponse { .. })
    ));
}

#[test]
fn timestamp_falls_back_only_when_absent() {
    assert_eq!(opcua_session::time::timestamp_or_now(Some(42)), 42);
    // The fallback reads the real clock: all that holds of every outcome is
    // that the call returns.
    let _ = opcua_session::time::timestamp_or_now(None);
}
