use bingo_gen::bridge::card::BingoSyncCard;
use bingo_gen::bridge::outcome::{RecvOutcome, SendOutcome};
use bingo_gen::bridge::handle::{create_pair, OverflowPolicy, CHANNEL_CAPACITY};
use bingo_gen::bridge::message::{MessageToBackend, MessageToFrontend, NotificationType};

fn request(tag: &str) -> MessageToBackend {
    MessageToBackend::CreateBingoSyncFile { data: vec![BingoSyncCard { name: tag.to_string() }] }
}

fn tag_of(message: &MessageToBackend) -> String {
    match message {
        MessageToBackend::CreateBingoSyncFile { data } => data[0].name.clone(),
        MessageToBackend::CreateLockoutLiveFile { data } => data.game.clone(),
    }
}

fn note(text: &str) -> MessageToFrontend {
    MessageToFrontend::AddNotification {
        notification_type: NotificationType::Info,
        message: text.to_string(),
    }
}

fn text_of(message: &MessageToFrontend) -> (NotificationType, String) {
    match message {
        MessageToFrontend::AddNotification { notification_type, message } => {
            (*notification_type, message.clone())
        }
    }
}

#[test]
fn capacity_is_64() {
    assert_eq!(CHANNEL_CAPACITY, 64);
}

#[test]
fn messages_arrive_in_the_order_sent() {
    for policy in [OverflowPolicy::Abort, OverflowPolicy::Grow] {
        let (mut backend_recv, backend, mut frontend_recv, frontend) = create_pair(policy);
        for i in 0..10 {
            assert!(backend.send(request(&format!("r{}", i))).is_queued());
            assert!(frontend.send(note(&format!("n{}", i))).is_queued());
        }
        for i in 0..10 {
            match backend_recv.poll() {
                RecvOutcome::Message(m) => assert_eq!(tag_of(&m), format!("r{}", i)),
                other => panic!("unexpected: {:?}", other),
            }
            let got = frontend_recv.try_recv().unwrap();
            assert_eq!(text_of(&got).1, format!("n{}", i));
        }
        assert!(matches!(backend_recv.poll(), RecvOutcome::Empty));
        assert!(frontend_recv.try_recv().is_none());
    }
}

#[test]
fn the_two_directions_are_apart() {
    let (mut backend_recv, backend, mut frontend_recv, frontend) =
        create_pair(OverflowPolicy::Abort);
    assert!(backend.send(request("only")).is_queued());
    assert!(frontend_recv.try_recv().is_none());
    assert!(matches!(backend_recv.poll(), RecvOutcome::Message(_)));
    assert!(frontend.send(note("back")).is_queued());
    assert!(matches!(backend_recv.poll(), RecvOutcome::Empty));
    assert!(frontend_recv.try_recv().is_some());
}

#[test]
fn bounded_queue_overflows_at_the_65th_message() {
    let (_backend_recv, backend, _frontend_recv, frontend) = create_pair(OverflowPolicy::Abort);
    for i in 0..64 {
        let outcome = backend.send(request(&format!("r{}", i)));
        assert!(outcome.is_queued());
        assert!(!backend.is_fatal(&outcome));
        assert!(frontend.send(note("n")).is_queued());
    }
    let outcome = backend.send(request("one too many"));
    assert!(backend.is_fatal(&outcome));
    match outcome {
        SendOutcome::Full(m) => assert_eq!(tag_of(&m), "one too many"),
        other => panic!("unexpected: {:?}", other),
    }
    let outcome = frontend.send(note("one too many"));
    assert!(frontend.is_fatal(&outcome));
    match outcome.into_returned() {
        Some(m) => assert_eq!(text_of(&m).1, "one too many"),
        None => panic!("nothing came back"),
    }
}

#[test]
fn receiving_makes_room_again() {
    let (mut backend_recv, backend, _frontend_recv, _frontend) =
        create_pair(OverflowPolicy::Abort);
    for i in 0..64 {
        assert!(backend.send(request(&format!("r{}", i))).is_queued());
    }
    assert!(matches!(backend.send(request("x")), SendOutcome::Full(_)));
    assert!(matches!(backend_recv.poll(), RecvOutcome::Message(_)));
    assert!(backend.send(request("y")).is_queued());
}

#[test]
fn growing_queue_never_overflows() {
    let (mut backend_recv, backend, mut frontend_recv, frontend) =
        create_pair(OverflowPolicy::Grow);
    for i in 0..1000 {
        let outcome = backend.send(request(&format!("r{}", i)));
        assert!(outcome.is_queued());
        assert!(!backend.is_fatal(&outcome));
        assert!(frontend.send(note(&format!("n{}", i))).is_queued());
    }
    for i in 0..1000 {
        match backend_recv.poll().into_message() {
            Some(m) => assert_eq!(tag_of(&m), format!("r{}", i)),
            None => panic!("message {} is missing", i),
        }
        assert_eq!(text_of(&frontend_recv.try_recv().unwrap()).1, format!("n{}", i));
    }
}

#[test]
fn closed_signal_after_all_senders_are_gone() {
    for policy in [OverflowPolicy::Abort, OverflowPolicy::Grow] {
        let (mut backend_recv, backend, mut frontend_recv, frontend) = create_pair(policy);
        let second = backend.clone();
        assert!(backend.send(request("a")).is_queued());
        drop(backend);
        assert!(second.send(request("b")).is_queued());
        drop(second);
        assert!(matches!(backend_recv.poll(), RecvOutcome::Message(_)));
        assert!(matches!(backend_recv.poll(), RecvOutcome::Message(_)));
        let end = backend_recv.poll();
        assert!(end.is_closed());
        assert!(end.into_message().is_none());
        assert!(backend_recv.poll().is_closed());

        assert!(!frontend_recv.poll().is_closed());
        drop(frontend);
        assert!(frontend_recv.poll().is_closed());
        assert!(frontend_recv.try_recv().is_none());
    }
}

#[test]
fn clone_feeds_the_same_queue() {
    let (mut backend_recv, backend, mut frontend_recv, frontend) =
        create_pair(OverflowPolicy::Abort);
    let other_backend = backend.clone();
    let other_frontend = frontend.clone();
    assert!(backend.send(request("first")).is_queued());
    assert!(other_backend.send(request("second")).is_queued());
    assert!(other_frontend.send(note("first")).is_queued());
    assert!(frontend.send(note("second")).is_queued());
    assert_eq!(tag_of(&backend_recv.poll().into_message().unwrap()), "first");
    assert_eq!(tag_of(&backend_recv.poll().into_message().unwrap()), "second");
    assert_eq!(text_of(&frontend_recv.try_recv().unwrap()).1, "first");
    assert_eq!(text_of(&frontend_recv.try_recv().unwrap()).1, "second");
}

#[test]
fn send_to_a_dropped_receiver_hands_the_message_back() {
    for policy in [OverflowPolicy::Abort, OverflowPolicy::Grow] {
        let (backend_recv, backend, frontend_recv, frontend) = create_pair(policy);
        drop(backend_recv);
        drop(frontend_recv);
        let outcome = backend.send(request("lost"));
        assert_eq!(backend.is_fatal(&outcome), policy == OverflowPolicy::Abort);
        match outcome {
            SendOutcome::Closed(m) => assert_eq!(tag_of(&m), "lost"),
            other => panic!("unexpected: {:?}", other),
        }
        let outcome = frontend.send(note("lost"));
        assert!(!frontend.is_fatal(&outcome));
        assert!(!outcome.is_queued());
        match outcome {
            SendOutcome::Closed(m) => assert_eq!(text_of(&m).1, "lost"),
            other => panic!("unexpected: {:?}", other),
        }
    }
}

#[test]
fn notification_senders_set_the_kind() {
    let (_backend_recv, _backend, mut frontend_recv, frontend) = create_pair(OverflowPolicy::Grow);
    assert!(frontend.send_info(String::from("i")).is_queued());
    assert!(frontend.send_success(String::from("s")).is_queued());
    assert!(frontend.send_warning(String::from("w")).is_queued());
    assert!(frontend.send_error(String::from("e")).is_queued());
    assert!(frontend.notify(NotificationType::Warning, String::from("n")).is_queued());
    let expected = [
        (NotificationType::Info, "i"),
        (NotificationType::Success, "s"),
        (NotificationType::Warning, "w"),
        (NotificationType::Error, "e"),
        (NotificationType::Warning, "n"),
    ];
    for (kind, text) in expected {
        let got = text_of(&frontend_recv.try_recv().unwrap());
        assert_eq!(got, (kind, text.to_string()));
    }
    assert!(frontend_recv.try_recv().is_none());
}

#[test]
fn outcome_queries() {
    let queued: SendOutcome<u8> = SendOutcome::Queued;
    assert!(queued.is_queued());
    assert_eq!(queued.into_returned(), None);
    let full: SendOutcome<u8> = SendOutcome::Full(3);
    assert!(!full.is_queued());
    assert_eq!(full.into_returned(), Some(3));
    let closed: SendOutcome<u8> = SendOutcome::Closed(4);
    assert!(!closed.is_queued());
    assert_eq!(closed.into_returned(), Some(4));

    assert_eq!(RecvOutcome::Message(5u8).into_message(), Some(5));
    assert_eq!(RecvOutcome::<u8>::Empty.into_message(), None);
    assert_eq!(RecvOutcome::<u8>::Disconnected.into_message(), None);
    assert!(!RecvOutcome::Message(5u8).is_closed());
    assert!(!RecvOutcome::<u8>::Empty.is_closed());
    assert!(RecvOutcome::<u8>::Disconnected.is_closed());
}

#[test]
fn notification_message_keeps_kind_and_text() {
    for kind in [
        NotificationType::Success,
        NotificationType::Info,
        NotificationType::Error,
        NotificationType::Warning,
    ] {
        let message = MessageToFrontend::notification(kind, String::from("text"));
        assert_eq!(text_of(&message), (kind, String::from("text")));
    }
}
