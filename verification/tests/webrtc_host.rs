use remotebridge::signaling::SignalMessage;
use remotebridge::webrtc_host::{
    accept_answer, connect_host, HandshakeError, HostAction, HostHandshake, HostReply,
};
use webrtc::api::media_engine::MIME_TYPE_H264;
use webrtc::peer_connection::sdp::sdp_type::RTCSdpType;
use webrtc::peer_connection::sdp::session_description::RTCSessionDescription;

type Action = HostAction<&'static str>;
type Reply = HostReply<&'static str>;

const OFFER: &str = "v=0\r\no=- 1 1 IN IP4 127.0.0.1\r\ns=-\r\nt=0 0\r\n";
const ANSWER: &str = "v=0\r\no=- 2 2 IN IP4 127.0.0.1\r\ns=-\r\nt=0 0\r\na=ice-lite\r\n";

fn answer(sdp: &str) -> Reply {
    HostReply::Message(SignalMessage::Answer {
        sdp: sdp.to_string(),
    })
}

fn step(state: HostHandshake, reply: Reply) -> (HostHandshake, Action) {
    assert!(state.awaits(&reply));
    state.react(reply)
}

/// A handshake that has just sent its offer and waits for the viewer.
fn waiting_for_answer() -> HostHandshake {
    let (state, action): (HostHandshake, Action) = connect_host();
    assert!(matches!(action, HostAction::RegisterCodecs));
    let (state, action) = step(state, Reply::Done);
    assert!(matches!(action, HostAction::RegisterInterceptors));
    let (state, action) = step(state, Reply::Done);
    match action {
        HostAction::CreatePeerConnection { ice_servers } => assert!(ice_servers.is_empty()),
        _ => unreachable!(),
    }
    let (state, action) = step(state, Reply::Done);
    match action {
        HostAction::AddTrack(track) => {
            assert_eq!(track.mime_type, MIME_TYPE_H264);
            assert_eq!((track.id, track.stream_id), ("video", "remotebridge"));
        }
        _ => unreachable!(),
    }
    let (state, action) = step(state, Reply::Done);
    assert!(matches!(action, HostAction::CreateOffer));
    let offer = RTCSessionDescription::offer(OFFER.to_string()).unwrap();
    let (state, action) = step(state, Reply::Offer(offer));
    assert!(matches!(action, HostAction::WatchGathering));
    let (state, action) = step(state, Reply::Done);
    match action {
        HostAction::SetLocalDescription(offer) => assert_eq!(offer.sdp, OFFER),
        _ => unreachable!(),
    }
    let (state, action) = step(state, Reply::Done);
    assert!(matches!(action, HostAction::AwaitGathering));
    let (state, action) = step(state, Reply::Done);
    assert!(matches!(action, HostAction::ReadLocalDescription));
    let (state, action) = step(state, Reply::LocalDescription(Some("gathered".to_string())));
    match action {
        HostAction::SendOffer(SignalMessage::Offer { sdp }) => assert_eq!(sdp, "gathered"),
        _ => unreachable!(),
    }
    let (state, action) = step(state, Reply::Done);
    assert!(matches!(
        action,
        HostAction::Announce("offer sent, waiting for viewer's answer...")
    ));
    let (state, action) = step(state, Reply::Done);
    assert!(matches!(action, HostAction::AwaitAnswer));
    state
}

#[test]
fn handshake_connects_on_an_answer() {
    let (state, action) = step(waiting_for_answer(), answer(ANSWER));
    match action {
        HostAction::SetRemoteDescription(description) => {
            assert_eq!(description.sdp, ANSWER);
            assert_eq!(description.sdp_type, RTCSdpType::Answer);
            assert_eq!(description.unmarshal().unwrap().attributes.len(), 1);
        }
        _ => unreachable!(),
    }
    let (state, action) = step(state, Reply::Done);
    assert!(matches!(action, HostAction::Connected));
    assert!(matches!(state, HostHandshake::Connected));
    assert!(!state.awaits(&Reply::Done));
}

#[test]
fn another_offer_is_refused() {
    let message = SignalMessage::Offer {
        sdp: OFFER.to_string(),
    };
    let (state, action) = step(waiting_for_answer(), Reply::Message(message));
    match action {
        HostAction::Failed(error) => {
            assert!(matches!(error, HandshakeError::UnexpectedOffer));
            assert_eq!(error.text(), Some("expected an answer but got another offer"));
        }
        _ => unreachable!(),
    }
    assert!(matches!(state, HostHandshake::Failed));
}

#[test]
fn unparseable_answers_are_refused() {
    for sdp in ["", "not sdp", "v=1\r\n"] {
        let (state, action) = step(waiting_for_answer(), answer(sdp));
        match action {
            HostAction::Failed(error) => {
                assert!(matches!(error, HandshakeError::InvalidAnswer(_)));
                assert_eq!(error.text(), None);
            }
            _ => unreachable!(),
        }
        assert!(matches!(state, HostHandshake::Failed));
    }
}

#[test]
fn parsed_answers_become_the_remote_description() {
    let description = RTCSessionDescription::answer(ANSWER.to_string()).unwrap();
    let (state, action): (HostHandshake, Action) = accept_answer(Ok(description));
    assert!(matches!(state, HostHandshake::SettingRemoteDescription));
    assert!(matches!(action, HostAction::SetRemoteDescription(d) if d.sdp == ANSWER));
    let (state, action): (HostHandshake, Action) =
        accept_answer(Err(webrtc::Error::ErrConnectionClosed));
    assert!(matches!(state, HostHandshake::Failed));
    assert!(matches!(
        action,
        HostAction::Failed(HandshakeError::InvalidAnswer(
            webrtc::Error::ErrConnectionClosed
        ))
    ));
}

#[test]
fn missing_local_description_ends_the_handshake() {
    let (state, action) = step(
        HostHandshake::ReadingLocalDescription,
        Reply::LocalDescription(None),
    );
    match action {
        HostAction::Failed(error) => {
            assert!(matches!(error, HandshakeError::NoLocalDescription));
            assert_eq!(
                error.text(),
                Some("no local description after ICE gathering completed")
            );
        }
        _ => unreachable!(),
    }
    assert!(matches!(state, HostHandshake::Failed));
}

#[test]
fn failed_steps_end_the_handshake() {
    for state in [
        HostHandshake::RegisteringCodecs,
        HostHandshake::RegisteringInterceptors,
        HostHandshake::CreatingPeerConnection,
        HostHandshake::AddingTrack,
        HostHandshake::CreatingOffer,
        HostHandshake::SettingLocalDescription,
        HostHandshake::SendingOffer,
        HostHandshake::AwaitingAnswer,
        HostHandshake::SettingRemoteDescription,
    ] {
        let (state, action) = step(state, Reply::Failed("lost"));
        assert!(matches!(action, HostAction::Failed(HandshakeError::Step("lost"))));
        assert!(matches!(state, HostHandshake::Failed));
        assert!(!state.awaits(&Reply::Failed("again")));
    }
}

#[test]
fn replies_to_other_steps_are_told() {
    assert!(!HostHandshake::AwaitingGathering.awaits(&Reply::Failed("x")));
    assert!(!HostHandshake::Announcing.awaits(&Reply::Failed("x")));
    assert!(!HostHandshake::CreatingOffer.awaits(&Reply::Done));
    assert!(!HostHandshake::ReadingLocalDescription.awaits(&Reply::Done));
    assert!(!HostHandshake::AwaitingAnswer.awaits(&Reply::Done));
    assert!(!HostHandshake::AddingTrack.awaits(&answer(ANSWER)));
}
