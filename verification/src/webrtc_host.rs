//! Host side of the WebRTC handshake: build a peer connection with one outbound
//! H.264 video track, then drive offer and answer through the signaling server.
//! ICE gathering finishes before the offer is sent, so the candidates travel
//! inside it and the protocol needs no third kind of message.
//!
//! The handshake decides and the caller performs: [`connect_host`] returns the
//! first thing to do, and [`HostHandshake::react`] takes what came of it.

use crate::signaling::SignalMessage;
use vstd::prelude::*;
use webrtc::peer_connection::sdp::session_description::RTCSessionDescription;

verus! {

/// `webrtc`'s session description: SDP text together with what it was parsed
/// to. It is only carried, from the call that made it to the call that takes it.
#[verifier::external_type_specification]
#[verifier::external_body]
pub struct ExRTCSessionDescription(RTCSessionDescription);

/// `webrtc`'s error, here the reason why an SDP text cannot be parsed.
#[verifier::external_type_specification]
#[verifier::external_body]
pub struct ExWebrtcError(webrtc::Error);

/// What `RTCSessionDescription::answer` makes of an SDP text: a description of
/// kind "answer" that holds this text and its parsed form, or the reason why
/// the text is not SDP.
pub uninterp spec fn parsed_answer(sdp: Seq<char>) -> Result<RTCSessionDescription, webrtc::Error>;

/// Calls `RTCSessionDescription::answer`, which parses the text and looks at
/// nothing else, so that the same text always has the same outcome.
#[verifier::external_body]
fn answer_description(sdp: String) -> (parsed: Result<RTCSessionDescription, webrtc::Error>)
    ensures
        parsed == parsed_answer(sdp@),
{
    RTCSessionDescription::answer(sdp)
}

/// The video track that the host sends.
#[derive(Clone, Copy, Debug)]
pub struct TrackSettings {
    pub mime_type: &'static str,
    pub id: &'static str,
    pub stream_id: &'static str,
}

impl TrackSettings {
    /// An H.264 video track of this application.
    pub open spec fn is_host_track(self) -> bool {
        &&& self.mime_type@ == "video/H264"@
        &&& self.id@ == "video"@
        &&& self.stream_id@ == "remotebridge"@
    }
}

/// Why a handshake failed.
#[derive(Debug)]
pub enum HandshakeError<E> {
    /// A step with the peer connection or the signaling server failed.
    Step(E),
    /// Gathering is over, and there is still nothing to offer.
    NoLocalDescription,
    /// The viewer sent an offer of its own.
    UnexpectedOffer,
    /// The viewer's answer cannot be parsed.
    InvalidAnswer(webrtc::Error),
}

/// What the caller is to do next.
#[derive(Debug)]
pub enum HostAction<E> {
    /// Register the default codecs.
    RegisterCodecs,
    /// Register the default interceptors.
    RegisterInterceptors,
    /// Create a peer connection that uses the ICE servers at these addresses.
    CreatePeerConnection { ice_servers: Vec<String> },
    /// Add this track to the peer connection.
    AddTrack(TrackSettings),
    /// Have the peer connection create an offer.
    CreateOffer,
    /// Ask to be told when ICE gathering is complete.
    WatchGathering,
    /// Make this offer the local description, which starts gathering.
    SetLocalDescription(RTCSessionDescription),
    /// Wait until gathering is complete.
    AwaitGathering,
    /// Read the local description back.
    ReadLocalDescription,
    /// Send this message to the viewer.
    SendOffer(SignalMessage),
    /// Say this.
    Announce(&'static str),
    /// Wait for a message from the viewer.
    AwaitAnswer,
    /// Make this answer the remote description.
    SetRemoteDescription(RTCSessionDescription),
    /// The handshake is complete.
    Connected,
    /// The handshake is over without success.
    Failed(HandshakeError<E>),
}

/// What came of an action.
#[derive(Debug)]
pub enum HostReply<E> {
    Done,
    /// The offer that was created.
    Offer(RTCSessionDescription),
    /// The SDP of the local description, if there is one.
    LocalDescription(Option<String>),
    /// The message that arrived.
    Message(SignalMessage),
    Failed(E),
}

/// A handshake, by the step that it is waiting for.
#[derive(Debug)]
pub enum HostHandshake {
    RegisteringCodecs,
    RegisteringInterceptors,
    CreatingPeerConnection,
    AddingTrack,
    CreatingOffer,
    WatchingGathering { offer: RTCSessionDescription },
    SettingLocalDescription,
    AwaitingGathering,
    ReadingLocalDescription,
    SendingOffer,
    Announcing,
    AwaitingAnswer,
    SettingRemoteDescription,
    Connected,
    Failed,
}

/// Whether `reply` can be what came of the action that a handshake waits for.
pub open spec fn reply_fits<E>(state: HostHandshake, reply: HostReply<E>) -> bool {
    match state {
        HostHandshake::WatchingGathering { .. }
        | HostHandshake::AwaitingGathering
        | HostHandshake::Announcing => reply is Done,
        HostHandshake::CreatingOffer => reply is Offer || reply is Failed,
        HostHandshake::ReadingLocalDescription => reply is LocalDescription,
        HostHandshake::AwaitingAnswer => reply is Message || reply is Failed,
        HostHandshake::Connected | HostHandshake::Failed => false,
        _ => reply is Done || reply is Failed,
    }
}

/// The state that follows a reply.
pub open spec fn next_state<E>(state: HostHandshake, reply: HostReply<E>) -> HostHandshake {
    match reply {
        HostReply::Failed(_) => HostHandshake::Failed,
        HostReply::Offer(offer) => HostHandshake::WatchingGathering { offer },
        HostReply::LocalDescription(Some(_)) => HostHandshake::SendingOffer,
        HostReply::LocalDescription(None) => HostHandshake::Failed,
        HostReply::Message(SignalMessage::Offer { .. }) => HostHandshake::Failed,
        HostReply::Message(SignalMessage::Answer { sdp }) => match parsed_answer(sdp@) {
            Ok(_) => HostHandshake::SettingRemoteDescription,
            Err(_) => HostHandshake::Failed,
        },
        HostReply::Done => match state {
            HostHandshake::RegisteringCodecs => HostHandshake::RegisteringInterceptors,
            HostHandshake::RegisteringInterceptors => HostHandshake::CreatingPeerConnection,
            HostHandshake::CreatingPeerConnection => HostHandshake::AddingTrack,
            HostHandshake::AddingTrack => HostHandshake::CreatingOffer,
            HostHandshake::WatchingGathering { .. } => HostHandshake::SettingLocalDescription,
            HostHandshake::SettingLocalDescription => HostHandshake::AwaitingGathering,
            HostHandshake::AwaitingGathering => HostHandshake::ReadingLocalDescription,
            HostHandshake::SendingOffer => HostHandshake::Announcing,
            HostHandshake::Announcing => HostHandshake::AwaitingAnswer,
            _ => HostHandshake::Connected,
        },
    }
}

/// Whether `action` is what a handshake in `state` asks for on `reply`.
pub open spec fn action_follows<E>(
    state: HostHandshake,
    reply: HostReply<E>,
    action: HostAction<E>,
) -> bool {
    match reply {
        HostReply::Failed(error) => action == HostAction::Failed(HandshakeError::Step(error)),
        HostReply::Offer(_) => action is WatchGathering,
        HostReply::LocalDescription(Some(sdp)) => action == HostAction::<E>::SendOffer(
            SignalMessage::Offer { sdp },
        ),
        HostReply::LocalDescription(None) => action == HostAction::<E>::Failed(
            HandshakeError::NoLocalDescription,
        ),
        HostReply::Message(SignalMessage::Offer { .. }) => action == HostAction::<E>::Failed(
            HandshakeError::UnexpectedOffer,
        ),
        HostReply::Message(SignalMessage::Answer { sdp }) => action == action_on_answer::<E>(
            parsed_answer(sdp@),
        ),
        HostReply::Done => match state {
            HostHandshake::RegisteringCodecs => action is RegisterInterceptors,
            // On one network every candidate is a host candidate, so no server
            // is needed to find more.
            HostHandshake::RegisteringInterceptors => action matches
                HostAction::CreatePeerConnection { ice_servers } && ice_servers@.len() == 0,
            HostHandshake::CreatingPeerConnection => action matches HostAction::AddTrack(track)
                && track.is_host_track(),
            HostHandshake::AddingTrack => action is CreateOffer,
            HostHandshake::WatchingGathering { offer } => action
                == HostAction::<E>::SetLocalDescription(offer),
            HostHandshake::SettingLocalDescription => action is AwaitGathering,
            HostHandshake::AwaitingGathering => action is ReadLocalDescription,
            HostHandshake::SendingOffer => action matches HostAction::Announce(line) && line@
                == "offer sent, waiting for viewer's answer..."@,
            HostHandshake::Announcing => action is AwaitAnswer,
            _ => action is Connected,
        },
    }
}

/// What to do with the viewer's answer once it has been parsed, or not.
pub open spec fn action_on_answer<E>(
    parsed: Result<RTCSessionDescription, webrtc::Error>,
) -> HostAction<E> {
    match parsed {
        Ok(description) => HostAction::SetRemoteDescription(description),
        Err(error) => HostAction::Failed(HandshakeError::InvalidAnswer(error)),
    }
}

impl<E> HandshakeError<E> {
    /// The words for an error that the handshake found itself; the others have
    /// their own.
    pub fn text(&self) -> (r: Option<&'static str>)
        ensures
            match *self {
                HandshakeError::Step(_) | HandshakeError::InvalidAnswer(_) => r is None,
                HandshakeError::NoLocalDescription => r is Some && r->0@
                    == "no local description after ICE gathering completed"@,
                HandshakeError::UnexpectedOffer => r is Some && r->0@
                    == "expected an answer but got another offer"@,
            },
    {
        match self {
            HandshakeError::Step(_) | HandshakeError::InvalidAnswer(_) => None,
            HandshakeError::NoLocalDescription => Some(
                "no local description after ICE gathering completed",
            ),
            HandshakeError::UnexpectedOffer => Some("expected an answer but got another offer"),
        }
    }
}

/// Start a handshake.
pub fn connect_host<E>() -> (r: (HostHandshake, HostAction<E>))
    ensures
        r.0 is RegisteringCodecs,
        r.1 is RegisterCodecs,
{
    (HostHandshake::RegisteringCodecs, HostAction::RegisterCodecs)
}

/// Go on from the viewer's answer, parsed or not: a description becomes the
/// remote one, and an error ends the handshake.
pub fn accept_answer<E>(parsed: Result<RTCSessionDescription, webrtc::Error>) -> (r: (
    HostHandshake,
    HostAction<E>,
))
    ensures
        r.0 == (match parsed {
            Ok(_) => HostHandshake::SettingRemoteDescription,
            Err(_) => HostHandshake::Failed,
        }),
        r.1 == action_on_answer::<E>(parsed),
{
    match parsed {
        Ok(description) => (
            HostHandshake::SettingRemoteDescription,
            HostAction::SetRemoteDescription(description),
        ),
        Err(error) => (
            HostHandshake::Failed,
            HostAction::Failed(HandshakeError::InvalidAnswer(error)),
        ),
    }
}

impl HostHandshake {
    /// Whether [`HostHandshake::react`] may be called with this reply.
    pub fn awaits<E>(&self, reply: &HostReply<E>) -> (r: bool)
        ensures
            r == reply_fits(*self, *reply),
    {
        match (self, reply) {
            (HostHandshake::Connected | HostHandshake::Failed, _) => false,
            (HostHandshake::WatchingGathering { .. }, HostReply::Done) => true,
            (HostHandshake::WatchingGathering { .. }, _) => false,
            (HostHandshake::AwaitingGathering, HostReply::Done) => true,
            (HostHandshake::AwaitingGathering, _) => false,
            (HostHandshake::Announcing, HostReply::Done) => true,
            (HostHandshake::Announcing, _) => false,
            (HostHandshake::ReadingLocalDescription, HostReply::LocalDescription(_)) => true,
            (HostHandshake::ReadingLocalDescription, _) => false,
            (_, HostReply::Failed(_)) => true,
            (HostHandshake::CreatingOffer, HostReply::Offer(_)) => true,
            (HostHandshake::CreatingOffer, _) => false,
            (HostHandshake::AwaitingAnswer, HostReply::Message(_)) => true,
            (HostHandshake::AwaitingAnswer, _) => false,
            (_, HostReply::Done) => true,
            (_, _) => false,
        }
    }

    /// Take what came of the last action and say what follows.
    pub fn react<E>(self, reply: HostReply<E>) -> (r: (HostHandshake, HostAction<E>))
        requires
            reply_fits(self, reply),
        ensures
            reply matches HostReply::Failed(error) ==> r.1 == HostAction::Failed(
                HandshakeError::Step(error),
            ),
            reply matches HostReply::Message(SignalMessage::Answer { sdp }) ==> match parsed_answer(
                sdp@,
            ) {
                Ok(description) => r.0 is SettingRemoteDescription && r.1
                    == HostAction::<E>::SetRemoteDescription(description),
                Err(error) => r.0 is Failed && r.1 == HostAction::<E>::Failed(
                    HandshakeError::InvalidAnswer(error),
                ),
            },
            r.1 is Connected ==> self is SettingRemoteDescription && reply is Done,
            r.0 == next_state(self, reply),
            action_follows(self, reply, r.1),
    {
        match reply {
            HostReply::Failed(error) => (
                HostHandshake::Failed,
                HostAction::Failed(HandshakeError::Step(error)),
            ),
            HostReply::Offer(offer) => (
                HostHandshake::WatchingGathering { offer },
                HostAction::WatchGathering,
            ),
            HostReply::LocalDescription(Some(sdp)) => (
                HostHandshake::SendingOffer,
                HostAction::SendOffer(SignalMessage::Offer { sdp }),
            ),
            HostReply::LocalDescription(None) => (
                HostHandshake::Failed,
                HostAction::Failed(HandshakeError::NoLocalDescription),
            ),
            HostReply::Message(SignalMessage::Offer { .. }) => (
                HostHandshake::Failed,
                HostAction::Failed(HandshakeError::UnexpectedOffer),
            ),
            HostReply::Message(SignalMessage::Answer { sdp }) => accept_answer(
                answer_description(sdp),
            ),
            HostReply::Done => self.advance(),
        }
    }

    /// Go on after a step that only had to be done.
    fn advance<E>(self) -> (r: (HostHandshake, HostAction<E>))
        ensures
            r.0 == next_state(self, HostReply::<E>::Done),
            action_follows(self, HostReply::<E>::Done, r.1),
    {
        match self {
            HostHandshake::RegisteringCodecs => (
                HostHandshake::RegisteringInterceptors,
                HostAction::RegisterInterceptors,
            ),
            HostHandshake::RegisteringInterceptors => (
                HostHandshake::CreatingPeerConnection,
                HostAction::CreatePeerConnection { ice_servers: Vec::new() },
            ),
            HostHandshake::CreatingPeerConnection => (
                HostHandshake::AddingTrack,
                HostAction::AddTrack(
                    TrackSettings {
                        mime_type: "video/H264",
                        id: "video",
                        stream_id: "remotebridge",
                    },
                ),
            ),
            HostHandshake::AddingTrack => (HostHandshake::CreatingOffer, HostAction::CreateOffer),
            HostHandshake::WatchingGathering { offer } => (
                HostHandshake::SettingLocalDescription,
                HostAction::SetLocalDescription(offer),
            ),
            HostHandshake::SettingLocalDescription => (
                HostHandshake::AwaitingGathering,
                HostAction::AwaitGathering,
            ),
            HostHandshake::AwaitingGathering => (
                HostHandshake::ReadingLocalDescription,
                HostAction::ReadLocalDescription,
            ),
            HostHandshake::SendingOffer => (
                HostHandshake::Announcing,
                HostAction::Announce("offer sent, waiting for viewer's answer..."),
            ),
            HostHandshake::Announcing => (HostHandshake::AwaitingAnswer, HostAction::AwaitAnswer),
            _ => (HostHandshake::Connected, HostAction::Connected),
        }
    }
}

/// The state after a sequence of replies.
pub open spec fn state_after<E>(state: HostHandshake, replies: Seq<HostReply<E>>) -> HostHandshake
    decreases replies.len(),
{
    if replies.len() == 0 {
        state
    } else {
        next_state(state_after(state, replies.drop_last()), replies.last())
    }
}

/// Whether every reply of a sequence fits the state at which it comes.
pub open spec fn replies_fit<E>(state: HostHandshake, replies: Seq<HostReply<E>>) -> bool
    decreases replies.len(),
{
    replies.len() > 0 ==> {
        &&& replies_fit(state, replies.drop_last())
        &&& reply_fits(state_after(state, replies.drop_last()), replies.last())
    }
}

/// How many steps lie behind a handshake that has not failed.
pub open spec fn steps_done(state: HostHandshake) -> int {
    match state {
        HostHandshake::RegisteringCodecs => 0,
        HostHandshake::RegisteringInterceptors => 1,
        HostHandshake::CreatingPeerConnection => 2,
        HostHandshake::AddingTrack => 3,
        HostHandshake::CreatingOffer => 4,
        HostHandshake::WatchingGathering { .. } => 5,
        HostHandshake::SettingLocalDescription => 6,
        HostHandshake::AwaitingGathering => 7,
        HostHandshake::ReadingLocalDescription => 8,
        HostHandshake::SendingOffer => 9,
        HostHandshake::Announcing => 10,
        HostHandshake::AwaitingAnswer => 11,
        HostHandshake::SettingRemoteDescription => 12,
        HostHandshake::Connected => 13,
        HostHandshake::Failed => -1,
    }
}

/// A handshake only moves forward: it takes each of its steps at most once, in
/// one order, and a failed handshake takes no further step.
pub proof fn law_handshake_moves_forward<E>(replies: Seq<HostReply<E>>)
    requires
        replies_fit(HostHandshake::RegisteringCodecs, replies),
    ensures
        ({
            let state = state_after(HostHandshake::RegisteringCodecs, replies);
            state is Failed || steps_done(state) == replies.len()
        }),
        replies.len() <= 13,
    decreases replies.len(),
{
    if replies.len() > 0 {
        law_handshake_moves_forward(replies.drop_last());
    }
}

/// One peer connection is created, without any ICE server, and one track is
/// added to it: whatever the replies, these actions come at one place each.
pub proof fn law_one_connection_with_one_track<E>(
    replies: Seq<HostReply<E>>,
    action: HostAction<E>,
)
    requires
        replies.len() > 0,
        replies_fit(HostHandshake::RegisteringCodecs, replies),
        action_follows(
            state_after(HostHandshake::RegisteringCodecs, replies.drop_last()),
            replies.last(),
            action,
        ),
    ensures
        action matches HostAction::CreatePeerConnection { ice_servers } ==> replies.len() == 2
            && ice_servers@.len() == 0,
        action matches HostAction::AddTrack(track) ==> replies.len() == 3 && track.is_host_track(),
{
    law_handshake_moves_forward(replies.drop_last());
}

/// The offer waits for ICE gathering: whenever it is sent, gathering has been
/// awaited, the local description was read after that, and the message is an
/// offer of exactly this description.
pub proof fn law_offer_waits_for_gathering<E>(
    replies: Seq<HostReply<E>>,
    action: HostAction<E>,
    message: SignalMessage,
)
    requires
        replies.len() > 0,
        replies_fit(HostHandshake::RegisteringCodecs, replies),
        action_follows(
            state_after(HostHandshake::RegisteringCodecs, replies.drop_last()),
            replies.last(),
            action,
        ),
        action == HostAction::<E>::SendOffer(message),
    ensures
        replies.len() == 9,
        state_after(HostHandshake::RegisteringCodecs, replies.take(7)) is AwaitingGathering,
        replies[7] is Done,
        state_after(HostHandshake::RegisteringCodecs, replies.take(8)) is ReadingLocalDescription,
        replies[8] matches HostReply::LocalDescription(Some(sdp)) && message
            == (SignalMessage::Offer { sdp }),
{
    let before = replies.drop_last();
    assert(state_after(HostHandshake::RegisteringCodecs, before) is ReadingLocalDescription);
    law_handshake_moves_forward(before);
    lemma_replies_so_far(before);
    assert(before.len() == 8);
    assert(replies_fit(HostHandshake::RegisteringCodecs, before));
    assert(replies_fit(HostHandshake::RegisteringCodecs, before.drop_last()));
    assert(before =~= replies.take(8));
    assert(before.drop_last() =~= replies.take(7));
    law_handshake_moves_forward(before.drop_last());
    assert(before[7] == replies[7]);
}

/// A handshake that connected went through the whole exchange: an offer was
/// created, there was a local description to send after gathering, and the one
/// message that came back was an answer that parses.
pub proof fn law_connected_means_answered<E>(replies: Seq<HostReply<E>>)
    requires
        replies_fit(HostHandshake::RegisteringCodecs, replies),
        state_after(HostHandshake::RegisteringCodecs, replies) is Connected,
    ensures
        replies.len() == 13,
        replies[4] is Offer,
        replies[8] matches HostReply::LocalDescription(local) && local is Some,
        replies[11] matches HostReply::Message(SignalMessage::Answer { sdp }) && parsed_answer(
            sdp@,
        ) is Ok,
        forall|i: int|
            0 <= i < 13 && i != 4 && i != 8 && i != 11 ==> (#[trigger] replies[i]) is Done,
{
    law_handshake_moves_forward(replies);
    lemma_replies_so_far(replies);
}

/// The whole exchange connects: a handshake in which every step succeeds, there
/// is a local description to send, and the viewer's message is an answer that
/// parses, ends connected.
pub proof fn law_answered_means_connected<E>(replies: Seq<HostReply<E>>)
    requires
        replies.len() == 13,
        replies[4] is Offer,
        replies[8] matches HostReply::LocalDescription(local) && local is Some,
        replies[11] matches HostReply::Message(SignalMessage::Answer { sdp }) && parsed_answer(
            sdp@,
        ) is Ok,
        forall|i: int|
            0 <= i < 13 && i != 4 && i != 8 && i != 11 ==> (#[trigger] replies[i]) is Done,
    ensures
        replies_fit(HostHandshake::RegisteringCodecs, replies),
        state_after(HostHandshake::RegisteringCodecs, replies) is Connected,
{
    lemma_exchange_so_far(replies, 13);
    assert(replies.take(13) =~= replies);
}

proof fn lemma_exchange_so_far<E>(replies: Seq<HostReply<E>>, n: int)
    requires
        replies.len() == 13,
        0 <= n <= 13,
        replies[4] is Offer,
        replies[8] matches HostReply::LocalDescription(local) && local is Some,
        replies[11] matches HostReply::Message(SignalMessage::Answer { sdp }) && parsed_answer(
            sdp@,
        ) is Ok,
        forall|i: int|
            0 <= i < 13 && i != 4 && i != 8 && i != 11 ==> (#[trigger] replies[i]) is Done,
    ensures
        replies_fit(HostHandshake::RegisteringCodecs, replies.take(n)),
        steps_done(state_after(HostHandshake::RegisteringCodecs, replies.take(n))) == n,
    decreases n,
{
    if n > 0 {
        lemma_exchange_so_far(replies, n - 1);
        assert(replies.take(n).drop_last() =~= replies.take(n - 1));
        assert(replies.take(n).last() == replies[n - 1]);
    }
}

proof fn lemma_replies_so_far<E>(replies: Seq<HostReply<E>>)
    requires
        replies_fit(HostHandshake::RegisteringCodecs, replies),
        !(state_after(HostHandshake::RegisteringCodecs, replies) is Failed),
    ensures
        forall|i: int|
            0 <= i < replies.len() ==> match #[trigger] replies[i] {
                HostReply::Done => i != 4 && i != 8 && i != 11,
                HostReply::Offer(_) => i == 4,
                HostReply::LocalDescription(local) => i == 8 && local is Some,
                HostReply::Message(message) => i == 11 && message is Answer && parsed_answer(
                    message->Answer_sdp@,
                ) is Ok,
                HostReply::Failed(_) => false,
            },
    decreases replies.len(),
{
    if replies.len() > 0 {
        let before = replies.drop_last();
        law_handshake_moves_forward(before);
        assert(!(state_after(HostHandshake::RegisteringCodecs, before) is Failed));
        lemma_replies_so_far(before);
        assert forall|i: int| 0 <= i < replies.len() - 1 implies replies[i] == before[i] by {}
    }
}

} // verus!
