use allelo_mcp::{
    Broker, BrokerPipe, McpRequest, PromptResponse, SendError, SessionError, SessionPoll,
    CHANNEL_SIZE, TIMEOUT_MILLIS,
};

#[test]
fn test_broker_modify_last_message_on_send() {
    let mut broker = Broker::default();
    let id = broker.create(0).unwrap();
    let start = broker.get_prompt(id).unwrap().last_message();

    for i in 0..CHANNEL_SIZE {
        let sent = broker.send_prompt(id, String::new(), 1 + i as u64);
        assert!(sent.is_ok());
    }

    assert_ne!(broker.get_prompt(id).unwrap().last_message(), start);
}

#[test]
fn test_broker_modify_last_message_on_recv() {
    let mut broker = Broker::default();
    let id = broker.create(0).unwrap();
    let start = broker.get_prompt(id).unwrap().last_message();

    let mut pipe: BrokerPipe<String> = BrokerPipe::new(0);
    for _ in 0..CHANNEL_SIZE {
        assert!(pipe.send_message("hello, world!".to_string(), 0).is_ok());
    }
    assert_eq!(pipe.last_message(), 0);
    for i in 0..CHANNEL_SIZE {
        match pipe.next_message(5 + i as u64) {
            Some(x) => assert_eq!(x, "hello, world!", "input and output didn't match"),
            None => panic!("message was not returned"),
        }
    }
    assert_ne!(pipe.last_message(), 0);

    for _ in 0..CHANNEL_SIZE {
        assert!(broker.send_prompt(id, "hello, world!".to_string(), 0).is_ok());
    }
    for i in 0..CHANNEL_SIZE {
        match broker.poll_session(id, 10 + i as u64) {
            SessionPoll::Event(PromptResponse::PromptResponse(x)) => {
                assert_eq!(x, "hello, world!", "input and output didn't match")
            }
            _ => panic!("message was not returned"),
        }
    }
    assert_ne!(broker.get_prompt(id).unwrap().last_message(), start);
}

#[test]
fn mailbox_is_fifo() {
    let mut pipe: BrokerPipe<u32> = BrokerPipe::new(0);
    for i in 0..10u32 {
        assert!(pipe.send_message(i, 1).is_ok());
    }
    assert_eq!(pipe.next_message(2), Some(0));
    assert!(pipe.send_message(10, 3).is_ok());
    for i in 1..11u32 {
        assert_eq!(pipe.next_message(4), Some(i));
    }
    assert_eq!(pipe.next_message(5), None);
    assert_eq!(pipe.last_message(), 4);
}

#[test]
fn full_mailbox_hands_the_message_back() {
    let mut pipe: BrokerPipe<usize> = BrokerPipe::new(0);
    for i in 0..CHANNEL_SIZE {
        assert!(pipe.send_message(i, 1).is_ok());
    }
    assert_eq!(pipe.len(), CHANNEL_SIZE);
    match pipe.send_message(CHANNEL_SIZE, 2) {
        Err(SendError::Full(m)) => assert_eq!(m, CHANNEL_SIZE),
        _ => panic!("a full mailbox accepted a message"),
    }
    assert_eq!(pipe.last_message(), 1);
    assert_eq!(pipe.next_message(3), Some(0));
    assert!(pipe.send_message(CHANNEL_SIZE, 4).is_ok());
    for i in 1..=CHANNEL_SIZE {
        assert_eq!(pipe.next_message(5), Some(i));
    }
}

#[test]
fn closed_mailbox_refuses_but_drains() {
    let mut pipe: BrokerPipe<u8> = BrokerPipe::new(0);
    assert!(pipe.send_message(7, 1).is_ok());
    pipe.close();
    assert!(pipe.is_closed());
    match pipe.send_message(8, 2) {
        Err(SendError::Closed(m)) => assert_eq!(m, 8),
        _ => panic!("a closed mailbox accepted a message"),
    }
    assert_eq!(pipe.next_message(3), Some(7));
    assert_eq!(pipe.next_message(4), None);
}

#[test]
fn expiry_is_strictly_after_the_window() {
    let pipe: BrokerPipe<u8> = BrokerPipe::new(100);
    assert!(!pipe.check_timeout(100 + TIMEOUT_MILLIS));
    assert!(pipe.check_timeout(101 + TIMEOUT_MILLIS));
    assert!(!pipe.check_timeout(0));
    assert!(pipe.is_expired(111, 10));
    assert!(!pipe.is_expired(110, 10));
}

#[test]
fn registry_create_get_expire() {
    let mut broker = Broker::new();
    assert_eq!(broker.len(), 0);
    let a = broker.create(0).unwrap();
    let b = broker.create(0).unwrap();
    assert_ne!(a, b);
    assert_eq!(broker.len(), 2);
    assert!(broker.get_prompt(a).is_some());
    assert!(broker.get_mcp(a).is_some());
    assert_eq!(broker.insert_session(a, 0), Err(SessionError::IdInUse));
    broker.expire(a);
    assert!(broker.get_prompt(a).is_none());
    assert!(broker.get_mcp(a).is_none());
    assert!(broker.contains(b));
    match broker.send_prompt(a, "late".to_string(), 1) {
        Err(SendError::Closed(m)) => assert_eq!(m, "late"),
        _ => panic!("a removed session accepted a message"),
    }
}

#[test]
fn session_ids_are_version_four_uuids() {
    let mut broker = Broker::new();
    let id = broker.create(0).unwrap();
    assert_eq!((id >> 76) & 0xf, 4);
    assert_eq!((id >> 62) & 0x3, 2);
}

#[test]
fn create_on_an_empty_registry_succeeds() {
    for _ in 0..100 {
        let mut broker = Broker::default();
        let id = broker.create(3).unwrap();
        assert!(broker.contains(id));
        assert_eq!(broker.len(), 1);
        assert_eq!(broker.get_prompt(id).unwrap().len(), 0);
        assert_eq!(broker.get_mcp(id).unwrap().len(), 0);
        assert_eq!(broker.get_prompt(id).unwrap().last_message(), 3);
    }
}

#[test]
fn poll_drains_events_before_responses() {
    let mut broker = Broker::new();
    let id = broker.insert_session(42, 0).unwrap();
    assert_eq!(id, 42);
    assert!(broker.send_prompt(id, "text".to_string(), 1).is_ok());
    let req = McpRequest { command: "run".to_string(), ..Default::default() };
    assert!(broker.send_mcp(id, req.clone(), 2).is_ok());
    match broker.poll_session(id, 3) {
        SessionPoll::Event(PromptResponse::McpRequest(r)) => assert_eq!(r, req),
        other => panic!("unexpected {:?}", other),
    }
    match broker.poll_session(id, 4) {
        SessionPoll::Event(PromptResponse::PromptResponse(t)) => assert_eq!(t, "text"),
        other => panic!("unexpected {:?}", other),
    }
    assert!(matches!(broker.poll_session(id, 5), SessionPoll::Idle));
    assert!(matches!(broker.poll_session(7, 5), SessionPoll::Missing));
}

#[test]
fn poll_removes_an_idle_session() {
    let mut broker = Broker::new();
    let id = broker.insert_session(9, 0).unwrap();
    assert!(matches!(broker.poll_session(id, TIMEOUT_MILLIS + 1), SessionPoll::Expired));
    assert!(!broker.contains(id));
}
