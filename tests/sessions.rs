use allelo_mcp::{
    deliver, prompt, Auth, Broker, Delivery, HandlerError, MuxAction, MuxState, Prompt,
    PromptRepeaterClient, PromptResponse, ProducerKind, SessionError, CHANNEL_SIZE,
    TIMEOUT_MILLIS,
};

fn new_session(broker: &mut Broker, message: Option<&str>, now: u64) -> allelo_mcp::PromptPlan {
    let req = Prompt { connection_id: None, prompt: message.map(|m| m.to_string()) };
    prompt(&Auth(true), broker, req, None, false, now).unwrap()
}

#[test]
fn echo_of_a_thousand_messages_arrives_in_order() {
    let mut broker = Broker::new();
    let plan = new_session(&mut broker, Some("hello, world!"), 0);
    let (kind, msg) = plan.producer.clone().unwrap();
    assert_eq!(kind, ProducerKind::Repeat);
    let id = plan.multiplexer.id;
    let mut mux = plan.multiplexer;

    let echo = PromptRepeaterClient;
    for t in 0..1000u64 {
        assert!(matches!(echo.prompt(&mut broker, id, &msg, t), Delivery::Delivered));
    }

    match mux.poll(&mut broker, 1000, false) {
        MuxAction::Emit(PromptResponse::Connection(c)) => assert_eq!(c, id),
        other => panic!("first event was {:?}", other),
    }
    let mut count = 0;
    loop {
        match mux.poll(&mut broker, 1001, false) {
            MuxAction::Emit(PromptResponse::PromptResponse(text)) => {
                assert_eq!(text, "hello, world!");
                count += 1;
            }
            MuxAction::Wait => break,
            other => panic!("unexpected {:?}", other),
        }
    }
    assert_eq!(count, 1000);
}

#[test]
fn resume_after_expiry_fails() {
    let mut broker = Broker::new();
    let plan = new_session(&mut broker, None, 0);
    assert!(plan.producer.is_none());
    let id = plan.multiplexer.id;
    let mut mux = plan.multiplexer;

    assert!(matches!(mux.poll(&mut broker, 0, false), MuxAction::Emit(PromptResponse::Connection(_))));
    assert!(matches!(mux.poll(&mut broker, TIMEOUT_MILLIS + 1, false), MuxAction::Close));
    assert_eq!(mux.state, MuxState::Closing);
    assert!(!broker.contains(id));

    let req = Prompt { connection_id: Some(id), prompt: None };
    let err = prompt(&Auth(true), &mut broker, req, None, false, TIMEOUT_MILLIS + 2).unwrap_err();
    assert_eq!(err, HandlerError::Session(SessionError::StreamClosed));
    assert_eq!(err.message(), "stream closed");
}

#[test]
fn resume_after_disconnect_delivers_the_backlog() {
    let mut broker = Broker::new();
    let plan = new_session(&mut broker, Some("tick"), 0);
    let id = plan.multiplexer.id;
    let msg = plan.producer.unwrap().1;
    let mut mux = plan.multiplexer;
    let echo = PromptRepeaterClient;

    assert!(matches!(mux.poll(&mut broker, 0, false), MuxAction::Emit(PromptResponse::Connection(_))));
    for t in 1..4u64 {
        assert!(matches!(echo.prompt(&mut broker, id, &msg, t), Delivery::Delivered));
        assert!(matches!(
            mux.poll(&mut broker, t, false),
            MuxAction::Emit(PromptResponse::PromptResponse(_))
        ));
    }
    // The consumer goes away: the stream closes, the session stays.
    assert!(matches!(mux.poll(&mut broker, 5, true), MuxAction::Close));
    assert!(broker.contains(id));

    // The producer keeps going while nobody listens.
    for t in 6..11u64 {
        assert!(matches!(echo.prompt(&mut broker, id, &msg, t), Delivery::Delivered));
    }

    let req = Prompt { connection_id: Some(id), prompt: None };
    let plan = prompt(&Auth(true), &mut broker, req, None, false, 20).unwrap();
    assert!(plan.producer.is_none());
    let mut mux = plan.multiplexer;
    match mux.poll(&mut broker, 20, false) {
        MuxAction::Emit(PromptResponse::Connection(c)) => assert_eq!(c, id),
        other => panic!("first event was {:?}", other),
    }
    for _ in 0..5 {
        match mux.poll(&mut broker, 21, false) {
            MuxAction::Emit(PromptResponse::PromptResponse(text)) => assert_eq!(text, "tick"),
            other => panic!("unexpected {:?}", other),
        }
    }
    assert!(matches!(mux.poll(&mut broker, 22, false), MuxAction::Wait));
}

#[test]
fn resumed_stream_announces_the_supplied_id() {
    let mut broker = Broker::new();
    let id = broker.insert_session(77, 0).unwrap();
    let req = Prompt { connection_id: Some(id), prompt: Some("again".to_string()) };
    let plan = prompt(&Auth(true), &mut broker, req, None, true, 1).unwrap();
    assert_eq!(plan.producer, Some((ProducerKind::Relay, "again".to_string())));
    let mut mux = plan.multiplexer;
    match mux.poll(&mut broker, 1, true) {
        MuxAction::Emit(PromptResponse::Connection(c)) => assert_eq!(c, 77),
        other => panic!("first event was {:?}", other),
    }
    assert!(matches!(mux.poll(&mut broker, 2, true), MuxAction::Close));
    assert!(matches!(mux.poll(&mut broker, 3, false), MuxAction::Close));
    assert!(broker.contains(77));
}

#[test]
fn producer_waits_on_a_full_mailbox_and_loses_nothing() {
    let mut broker = Broker::new();
    let id = broker.insert_session(5, 0).unwrap();
    for i in 0..CHANNEL_SIZE {
        assert!(matches!(deliver(&mut broker, id, i.to_string(), 1), Delivery::Delivered));
    }
    let back = match deliver(&mut broker, id, "last".to_string(), 2) {
        Delivery::Retry(m) => m,
        other => panic!("unexpected {:?}", other),
    };
    assert_eq!(back, "last");
    assert_eq!(broker.get_prompt(id).unwrap().len(), CHANNEL_SIZE);

    let mut mux = allelo_mcp::Multiplexer::new(id);
    assert!(matches!(mux.poll(&mut broker, 3, false), MuxAction::Emit(PromptResponse::Connection(_))));
    match mux.poll(&mut broker, 3, false) {
        MuxAction::Emit(PromptResponse::PromptResponse(t)) => assert_eq!(t, "0"),
        other => panic!("unexpected {:?}", other),
    }
    assert!(matches!(deliver(&mut broker, id, back, 4), Delivery::Delivered));
    for i in 1..CHANNEL_SIZE {
        match mux.poll(&mut broker, 5, false) {
            MuxAction::Emit(PromptResponse::PromptResponse(t)) => assert_eq!(t, i.to_string()),
            other => panic!("unexpected {:?}", other),
        }
    }
    match mux.poll(&mut broker, 5, false) {
        MuxAction::Emit(PromptResponse::PromptResponse(t)) => assert_eq!(t, "last"),
        other => panic!("unexpected {:?}", other),
    }
}

#[test]
fn producer_stops_when_the_session_is_gone() {
    let mut broker = Broker::new();
    assert!(matches!(deliver(&mut broker, 3, "x".to_string(), 0), Delivery::Stop));
}

#[test]
fn unauthenticated_prompt_is_refused() {
    let mut broker = Broker::new();
    let req = Prompt { connection_id: None, prompt: None };
    let err = prompt(&Auth(false), &mut broker, req, None, false, 0).unwrap_err();
    assert_eq!(err, HandlerError::Unauthenticated);
    assert_eq!(err.message(), "unauthenticated");
    assert_eq!(broker.len(), 0);
}
