use remotebridge::signaling::{
    SignalMessage, SignalingAction, SignalingClient, SignalingError, SignalingReply,
    SignalingStage,
};

type Action = SignalingAction<&'static str>;
type Reply = SignalingReply<&'static str>;

fn connected() -> SignalingClient {
    let (mut client, action): (SignalingClient, Action) = SignalingClient::connect("ws://server");
    match action {
        SignalingAction::Open(url) => assert_eq!(url, "ws://server"),
        _ => unreachable!(),
    }
    assert!(matches!(client.react(Reply::Done), SignalingAction::Connected));
    client
}

fn answer(sdp: &str) -> SignalMessage {
    SignalMessage::Answer {
        sdp: sdp.to_string(),
    }
}

#[test]
fn connect_opens_the_address() {
    let client = connected();
    assert_eq!(client.stage, SignalingStage::Idle);
}

#[test]
fn failed_connect_leaves_no_client() {
    let (mut client, _): (SignalingClient, Action) = SignalingClient::connect("ws://server");
    match client.react(Reply::Failed("refused")) {
        SignalingAction::Failed(error) => {
            assert!(matches!(error, SignalingError::Socket("refused")));
            assert_eq!(error.text(), None);
        }
        _ => unreachable!(),
    }
    assert_eq!(client.stage, SignalingStage::Unconnected);
    assert!(!client.awaits(&Reply::Done));
}

#[test]
fn send_hands_the_message_on() {
    let mut client = connected();
    let action: Action = client.send(SignalMessage::Offer {
        sdp: "v=0".to_string(),
    });
    match action {
        SignalingAction::Send(SignalMessage::Offer { sdp }) => assert_eq!(sdp, "v=0"),
        _ => unreachable!(),
    }
    assert!(matches!(client.react(Reply::Done), SignalingAction::Sent));
    assert_eq!(client.stage, SignalingStage::Idle);
}

#[test]
fn failed_send_leaves_the_client_usable() {
    let mut client = connected();
    let _: Action = client.send(answer("v=0"));
    assert!(matches!(
        client.react(Reply::Failed("reset")),
        SignalingAction::Failed(SignalingError::Socket("reset"))
    ));
    assert_eq!(client.stage, SignalingStage::Idle);
}

#[test]
fn recv_skips_everything_that_is_no_message() {
    let mut client = connected();
    let action: Action = client.recv();
    assert!(matches!(action, SignalingAction::ReadFrame));
    for reply in [
        Reply::OtherFrame,
        Reply::Text(None),
        Reply::Text(None),
        Reply::OtherFrame,
    ] {
        assert!(client.awaits(&reply));
        assert!(matches!(client.react(reply), SignalingAction::ReadFrame));
    }
    match client.react(Reply::Text(Some(answer("v=1")))) {
        SignalingAction::Received(SignalMessage::Answer { sdp }) => assert_eq!(sdp, "v=1"),
        _ => unreachable!(),
    }
    assert_eq!(client.stage, SignalingStage::Idle);
}

#[test]
fn recv_fails_at_the_end_of_the_stream() {
    let mut client = connected();
    let _: Action = client.recv();
    match client.react(Reply::Ended) {
        SignalingAction::Failed(error) => {
            assert!(matches!(error, SignalingError::ConnectionClosed));
            assert_eq!(
                error.text(),
                Some("signaling connection closed before a message arrived")
            );
        }
        _ => unreachable!(),
    }
}

#[test]
fn recv_passes_a_socket_error_on() {
    let mut client = connected();
    let _: Action = client.recv();
    assert!(matches!(
        client.react(Reply::Failed("reset")),
        SignalingAction::Failed(SignalingError::Socket("reset"))
    ));
}

#[test]
fn replies_to_other_calls_are_told() {
    let mut client = connected();
    assert!(!client.awaits(&Reply::Done));
    let _: Action = client.recv();
    assert!(!client.awaits(&Reply::Done));
    let mut client = connected();
    let _: Action = client.send(answer(""));
    assert!(!client.awaits(&Reply::OtherFrame));
    assert!(!client.awaits(&Reply::Ended));
}
