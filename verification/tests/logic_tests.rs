use dib_client::logic::Client;
use dib_client::logic::ClientCommand;
use dib_client::messages::ChatResponse;
use dib_client::messages::ErrorType;
use dib_client::messages::MediaRequest;
use dib_client::messages::MediaResponse;
use dib_client::messages::Message;
use dib_client::messages::MessageType;
use dib_client::messages::RequestType;
use dib_client::messages::ResponseType;
use dib_client::messages::ServerType;
use dib_client::messages::TextRequest;
use dib_client::messages::TextResponse;

fn reactive_client(node_id: u8) -> Client {
    Client::new(node_id, Vec::new(), 0)
}

#[test]
fn unsupported_request_draws_one_error_reply() {
    let client = reactive_client(9);
    let inbound = Message {
        source: 7,
        destination: 9,
        session_id: 42,
        content: MessageType::Request(RequestType::TextRequest(TextRequest::TextList)),
    };
    let dispatch = client.process_message(&inbound);
    assert_eq!(dispatch.outbound.len(), 1);
    assert!(dispatch.media.is_empty());
    let reply = &dispatch.outbound[0];
    assert_eq!(reply.source, 9);
    assert_eq!(reply.destination, 7);
    assert_eq!(reply.session_id, 42);
    assert!(matches!(
        reply.content,
        MessageType::Error(ErrorType::Unsupported(RequestType::TextRequest(
            TextRequest::TextList
        )))
    ));
}

#[test]
fn not_found_response_draws_nothing() {
    let client = reactive_client(3);
    let inbound = Message {
        source: 5,
        destination: 3,
        session_id: 1,
        content: MessageType::Response(ResponseType::TextResponse(TextResponse::NotFound(
            "gone.txt".to_string(),
        ))),
    };
    let dispatch = client.process_message(&inbound);
    assert!(dispatch.outbound.is_empty());
    assert!(dispatch.media.is_empty());
}

#[test]
fn inbound_error_draws_nothing() {
    let client = reactive_client(3);
    let inbound = Message {
        source: 5,
        destination: 3,
        session_id: 1,
        content: MessageType::Error(ErrorType::Unsupported(RequestType::TextRequest(
            TextRequest::TextList,
        ))),
    };
    let dispatch = client.process_message(&inbound);
    assert!(dispatch.outbound.is_empty());
    assert!(dispatch.media.is_empty());
}

#[test]
fn media_chaining_follows_the_citations() {
    let mut client = Client::new(
        1,
        vec![(5, RequestType::TextRequest(TextRequest::Text("doc".to_string())))],
        0,
    );
    let scripted = client.next_scripted_request().expect("one scripted request");
    assert_eq!(scripted.source, 1);
    assert_eq!(scripted.destination, 5);
    match &scripted.content {
        MessageType::Request(RequestType::TextRequest(TextRequest::Text(name))) => {
            assert_eq!(name, "doc");
        }
        other => panic!("unexpected scripted content: {other:?}"),
    }

    let inbound = Message {
        source: 5,
        destination: 1,
        session_id: scripted.session_id,
        content: MessageType::Response(ResponseType::TextResponse(TextResponse::Text(
            "hello {{ a.png }} world {{b.jpeg}} end".to_string(),
        ))),
    };
    let dispatch = client.process_message(&inbound);
    assert!(dispatch.media.is_empty());
    assert_eq!(dispatch.outbound.len(), 2);
    let expected = ["a.png", "b.jpeg"];
    for (request, want) in dispatch.outbound.iter().zip(expected) {
        assert_eq!(request.source, 1);
        assert_eq!(request.destination, 5);
        match &request.content {
            MessageType::Request(RequestType::MediaRequest(MediaRequest::Media(name))) => {
                assert_eq!(name, want);
            }
            other => panic!("unexpected follow-up content: {other:?}"),
        }
    }
}

#[test]
fn citation_free_text_draws_no_media_requests() {
    let client = reactive_client(1);
    let inbound = Message {
        source: 5,
        destination: 1,
        session_id: 8,
        content: MessageType::Response(ResponseType::TextResponse(TextResponse::Text(
            "no citations in this body".to_string(),
        ))),
    };
    let dispatch = client.process_message(&inbound);
    assert!(dispatch.outbound.is_empty());
    assert!(dispatch.media.is_empty());
}

#[test]
fn text_list_is_informational() {
    let client = reactive_client(1);
    let inbound = Message {
        source: 5,
        destination: 1,
        session_id: 8,
        content: MessageType::Response(ResponseType::TextResponse(TextResponse::TextList(vec![
            "a.txt".to_string(),
            "b.txt".to_string(),
        ]))),
    };
    let dispatch = client.process_message(&inbound);
    assert!(dispatch.outbound.is_empty());
    assert!(dispatch.media.is_empty());
}

#[test]
fn media_payload_goes_to_the_sink() {
    let client = reactive_client(2);
    let payload = vec![1u8, 2, 3, 4];
    let inbound = Message {
        source: 6,
        destination: 2,
        session_id: 11,
        content: MessageType::Response(ResponseType::MediaResponse(MediaResponse::Media(
            payload.clone(),
        ))),
    };
    let dispatch = client.process_message(&inbound);
    assert!(dispatch.outbound.is_empty());
    assert_eq!(dispatch.media, vec![payload]);
}

#[test]
fn media_list_and_miss_draw_nothing() {
    let client = reactive_client(2);
    for response in [
        MediaResponse::MediaList(vec!["m.png".to_string()]),
        MediaResponse::NotFound("m.png".to_string()),
    ] {
        let inbound = Message {
            source: 6,
            destination: 2,
            session_id: 11,
            content: MessageType::Response(ResponseType::MediaResponse(response)),
        };
        let dispatch = client.process_message(&inbound);
        assert!(dispatch.outbound.is_empty());
        assert!(dispatch.media.is_empty());
    }
}

#[test]
fn chat_and_discovery_are_informational() {
    let client = reactive_client(2);
    let responses = [
        ResponseType::ChatResponse(ChatResponse::ClientList(vec![1, 2])),
        ResponseType::ChatResponse(ChatResponse::MessageFrom {
            from: 4,
            message: "hi".to_string(),
        }),
        ResponseType::ChatResponse(ChatResponse::MessageSent),
        ResponseType::DiscoveryResponse(ServerType::TextServer),
    ];
    for response in responses {
        let inbound = Message {
            source: 6,
            destination: 2,
            session_id: 11,
            content: MessageType::Response(response),
        };
        let dispatch = client.process_message(&inbound);
        assert!(dispatch.outbound.is_empty());
        assert!(dispatch.media.is_empty());
    }
}

#[test]
fn script_replays_in_input_order() {
    let script = vec![
        (4, RequestType::TextRequest(TextRequest::TextList)),
        (6, RequestType::MediaRequest(MediaRequest::Media("m.png".to_string()))),
        (8, RequestType::TextRequest(TextRequest::Text("doc".to_string()))),
    ];
    let mut client = Client::new(2, script, 0);
    assert!(client.is_scripting());

    let first = client.next_scripted_request().expect("first scripted request");
    assert_eq!((first.source, first.destination), (2, 4));
    assert!(matches!(
        first.content,
        MessageType::Request(RequestType::TextRequest(TextRequest::TextList))
    ));

    let second = client.next_scripted_request().expect("second scripted request");
    assert_eq!((second.source, second.destination), (2, 6));
    match &second.content {
        MessageType::Request(RequestType::MediaRequest(MediaRequest::Media(name))) => {
            assert_eq!(name, "m.png");
        }
        other => panic!("unexpected scripted content: {other:?}"),
    }

    let third = client.next_scripted_request().expect("third scripted request");
    assert_eq!((third.source, third.destination), (2, 8));

    assert!(client.next_scripted_request().is_none());
    assert!(!client.is_scripting());
    assert!(!client.is_terminated());
}

#[test]
fn empty_script_goes_straight_to_the_reactive_phase() {
    let mut client = Client::new(2, Vec::new(), 10);
    assert!(client.is_scripting());
    assert!(client.next_scripted_request().is_none());
    assert!(!client.is_scripting());
    client.handle_command(ClientCommand::Quit);
    assert!(client.is_terminated());
}

#[test]
fn quit_mid_script_stops_the_replay() {
    let script: Vec<(u8, RequestType)> = (0..10)
        .map(|k| (k, RequestType::TextRequest(TextRequest::TextList)))
        .collect();
    let mut client = Client::new(1, script, 50);
    let mut sent = Vec::new();
    for _ in 0..3 {
        sent.push(client.next_scripted_request().expect("scripted request"));
    }
    client.handle_command(ClientCommand::Quit);
    assert!(client.is_terminated());
    assert_eq!(sent.len(), 3);
    for (k, message) in sent.iter().enumerate() {
        assert_eq!(message.destination, k as u8);
    }
}

#[test]
fn quit_terminates_from_any_phase() {
    let mut scripting = Client::new(2, vec![(4, RequestType::TextRequest(TextRequest::TextList))], 10);
    scripting.handle_command(ClientCommand::Quit);
    assert!(scripting.is_terminated());

    let mut idle = Client::new(2, Vec::new(), 10);
    assert!(idle.next_scripted_request().is_none());
    idle.handle_command(ClientCommand::Quit);
    assert!(idle.is_terminated());
}

#[test]
fn create_message_stamps_this_node_as_source() {
    let client = reactive_client(7);
    assert_eq!(client.get_node_id(), 7);
    assert_eq!(client.get_sleep_ms(), 0);
    let message = client.create_message(
        99,
        3,
        MessageType::Request(RequestType::TextRequest(TextRequest::TextList)),
    );
    assert_eq!(message.source, 7);
    assert_eq!(message.destination, 3);
    assert_eq!(message.session_id, 99);
}
