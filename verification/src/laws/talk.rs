//! Laws on the talk with the signaling server and with the viewer.

use crate::signaling;
use crate::signaling::{
    SignalMessage, SignalingAction, SignalingError, SignalingReply, SignalingStage,
};
use crate::webrtc_host;
use crate::webrtc_host::{
    law_handshake_moves_forward, next_state, parsed_answer, replies_fit, reply_fits, state_after,
    HandshakeError, HostAction, HostHandshake, HostReply,
};
use vstd::prelude::*;

verus! {

/// Each call on the client reports what came of it: that the socket is open, or
/// the message sent, exactly when that was done; a failure as it came. A client
/// whose socket never opened stays unusable; every other one is idle again.
pub proof fn law_calls_report_their_outcome<E>(stage: SignalingStage, reply: SignalingReply<E>)
    requires
        signaling::reply_fits(stage, reply),
    ensures
        signaling::reaction(stage, reply).1 is Connected <==> stage == SignalingStage::Opening
            && reply is Done,
        signaling::reaction(stage, reply).1 is Sent <==> stage == SignalingStage::Sending
            && reply is Done,
        reply matches SignalingReply::Failed(error) ==> signaling::reaction(stage, reply).1
            == SignalingAction::Failed(SignalingError::Socket(error)),
        signaling::reaction(stage, reply).1 == SignalingAction::<E>::Failed(
            SignalingError::ConnectionClosed,
        ) <==> reply is Ended,
        signaling::reaction(stage, reply).0 == SignalingStage::Unconnected <==> stage
            == SignalingStage::Opening && reply is Failed,
        signaling::reaction(stage, reply).0 == SignalingStage::Reading <==> signaling::reaction(
            stage,
            reply,
        ).1 is ReadFrame,
        signaling::reaction(stage, reply).0 == SignalingStage::Idle || signaling::reaction(
            stage,
            reply,
        ).0 == SignalingStage::Reading || signaling::reaction(stage, reply).0
            == SignalingStage::Unconnected,
{
}

/// What a text frame holds is what is received: a message of any kind and any
/// text ends the wait with exactly this message, and a frame without one is
/// skipped.
pub proof fn law_message_is_received_as_it_came<E>(message: SignalMessage)
    ensures
        signaling::reaction(
            SignalingStage::Reading,
            SignalingReply::<E>::Text(Some(message)),
        ) == (SignalingStage::Idle, SignalingAction::<E>::Received(message)),
        signaling::reaction(SignalingStage::Reading, SignalingReply::<E>::Text(None)) == (
            SignalingStage::Reading,
            SignalingAction::<E>::ReadFrame,
        ),
        signaling::reaction(SignalingStage::Reading, SignalingReply::<E>::OtherFrame) == (
            SignalingStage::Reading,
            SignalingAction::<E>::ReadFrame,
        ),
{
}

/// A message passes between two clients unaltered: if what the one is asked to
/// send is what the next text frame at the other holds, the other receives the
/// message that the first was given, whatever its kind and its text.
pub proof fn law_message_passes_between_clients<E>(
    msg: SignalMessage,
    action: SignalingAction<E>,
    frame: SignalMessage,
)
    requires
        signaling::sends(msg, action),
        action == SignalingAction::<E>::Send(frame),
    ensures
        signaling::reaction(SignalingStage::Reading, SignalingReply::<E>::Text(Some(frame))) == (
            SignalingStage::Idle,
            SignalingAction::<E>::Received(msg),
        ),
{
}

/// The socket that is opened is the one at the address that was given.
pub proof fn law_socket_is_opened_at_the_address<E>(url: Seq<char>, action: SignalingAction<E>)
    requires
        signaling::opens(url, action),
    ensures
        action matches SignalingAction::Open(address) && address@ == url,
{
}

/// The client awaits every outcome of its steps, and none when no call is under
/// way.
pub proof fn law_client_awaits_every_outcome<E>(stage: SignalingStage, reply: SignalingReply<E>)
    ensures
        reply is Done ==> (signaling::reply_fits(stage, reply) <==> stage == SignalingStage::Opening
            || stage == SignalingStage::Sending),
        reply is Failed ==> (signaling::reply_fits(stage, reply) <==> stage
            == SignalingStage::Opening || stage == SignalingStage::Sending || stage
            == SignalingStage::Reading),
        reply is Text || reply is OtherFrame || reply is Ended ==> (signaling::reply_fits(
            stage,
            reply,
        ) <==> stage == SignalingStage::Reading),
{
}

/// Whether `actions` are what a handshake asks for, one on each of `replies`.
pub open spec fn is_handshake_trace<E>(
    replies: Seq<HostReply<E>>,
    actions: Seq<HostAction<E>>,
) -> bool
    decreases replies.len(),
{
    &&& replies.len() == actions.len()
    &&& replies.len() > 0 ==> {
        &&& is_handshake_trace(replies.drop_last(), actions.drop_last())
        &&& reply_fits(
            state_after(HostHandshake::RegisteringCodecs, replies.drop_last()),
            replies.last(),
        )
        &&& webrtc_host::action_follows(
            state_after(HostHandshake::RegisteringCodecs, replies.drop_last()),
            replies.last(),
            actions.last(),
        )
    }
}

/// An answer of any length becomes the remote description: if its text parses,
/// what is asked for is to set exactly the parsed description; if not, the
/// handshake fails with the parser's error.
pub proof fn law_answer_becomes_the_remote_description<E>(
    state: HostHandshake,
    sdp: String,
    action: HostAction<E>,
)
    requires
        reply_fits(state, HostReply::<E>::Message(SignalMessage::Answer { sdp })),
        webrtc_host::action_follows(
            state,
            HostReply::<E>::Message(SignalMessage::Answer { sdp }),
            action,
        ),
    ensures
        state is AwaitingAnswer,
        match parsed_answer(sdp@) {
            Ok(description) => action == HostAction::<E>::SetRemoteDescription(description)
                && next_state(
                state,
                HostReply::<E>::Message(SignalMessage::Answer { sdp }),
            ) is SettingRemoteDescription,
            Err(error) => action == HostAction::<E>::Failed(HandshakeError::InvalidAnswer(error))
                && next_state(
                state,
                HostReply::<E>::Message(SignalMessage::Answer { sdp }),
            ) is Failed,
        },
{
}

/// What a handshake that has not failed asks for depends only on how many
/// replies it has had, and on what they brought: the offer that was created
/// becomes the local description, the description read back after gathering is
/// the one offered, and the answer that came is the one made remote.
pub proof fn law_handshake_step<E>(replies: Seq<HostReply<E>>, action: HostAction<E>)
    requires
        replies.len() > 0,
        replies_fit(HostHandshake::RegisteringCodecs, replies),
        webrtc_host::action_follows(
            state_after(HostHandshake::RegisteringCodecs, replies.drop_last()),
            replies.last(),
            action,
        ),
        !(action is Failed),
    ensures
        ({
            let n = replies.len() as int;
            &&& n <= 13
            &&& n == 1 ==> action is RegisterInterceptors
            &&& n == 2 ==> (action matches HostAction::CreatePeerConnection { ice_servers }
                && ice_servers@.len() == 0)
            &&& n == 3 ==> (action matches HostAction::AddTrack(track) && track.mime_type@
                == "video/H264"@ && track.id@ == "video"@ && track.stream_id@ == "remotebridge"@)
            &&& n == 4 ==> action is CreateOffer
            &&& n == 5 ==> action is WatchGathering && replies[4] is Offer
            &&& n == 6 ==> (replies[4] matches HostReply::Offer(offer) && action
                == HostAction::<E>::SetLocalDescription(offer))
            &&& n == 7 ==> action is AwaitGathering
            &&& n == 8 ==> action is ReadLocalDescription
            &&& n == 9 ==> (replies[8] matches HostReply::LocalDescription(Some(local))
                && action matches HostAction::SendOffer(SignalMessage::Offer { sdp }) && sdp == local)
            &&& n == 10 ==> (action matches HostAction::Announce(line) && line@
                == "offer sent, waiting for viewer's answer..."@)
            &&& n == 11 ==> action is AwaitAnswer
            &&& n == 12 ==> (replies[11] matches HostReply::Message(SignalMessage::Answer { sdp })
                && parsed_answer(sdp@) matches Ok(description) && action
                == HostAction::<E>::SetRemoteDescription(description))
            &&& n == 13 ==> action is Connected && replies[12] is Done
        }),
{
    let before = replies.drop_last();
    let state = state_after(HostHandshake::RegisteringCodecs, before);
    law_handshake_moves_forward(before);
    if before.len() > 0 {
        lemma_offer_is_kept(before);
        if before.len() == 5 {
            assert(before[4] == replies[4]);
        }
    }
}

proof fn lemma_offer_is_kept<E>(replies: Seq<HostReply<E>>)
    requires
        replies.len() > 0,
        replies_fit(HostHandshake::RegisteringCodecs, replies),
    ensures
        state_after(HostHandshake::RegisteringCodecs, replies)
            matches HostHandshake::WatchingGathering { offer } ==> replies.last()
            == HostReply::<E>::Offer(offer),
{
}

/// A handshake is connected last: whenever that is reported, it is the thirteenth
/// thing asked for, and the twelfth was to make the answer that came the remote
/// description, which was done.
pub proof fn law_connected_after_the_remote_description<E>(
    replies: Seq<HostReply<E>>,
    actions: Seq<HostAction<E>>,
)
    requires
        is_handshake_trace(replies, actions),
        actions.len() > 0,
        actions.last() is Connected,
    ensures
        actions.len() == 13,
        replies[12] is Done,
        replies[11] matches HostReply::Message(SignalMessage::Answer { sdp }) && parsed_answer(
            sdp@,
        ) matches Ok(description) && actions[11] == HostAction::<E>::SetRemoteDescription(
            description,
        ),
{
    lemma_trace_fits(replies, actions);
    law_connected_needs_a_done_step(replies, actions.last());
    law_handshake_step(replies, actions.last());
    let before = replies.drop_last();
    lemma_trace_fits(before, actions.drop_last());
    assert(actions.drop_last().last() == actions[11]);
    assert(before.last() == replies[11]);
    assert(before[11] == replies[11]);
    lemma_not_failed(before, actions.drop_last());
    law_handshake_step(before, actions[11]);
}

/// That a handshake is connected is reported only on the reply that says that
/// the remote description was set.
pub proof fn law_connected_needs_a_done_step<E>(replies: Seq<HostReply<E>>, action: HostAction<E>)
    requires
        replies.len() > 0,
        replies_fit(HostHandshake::RegisteringCodecs, replies),
        webrtc_host::action_follows(
            state_after(HostHandshake::RegisteringCodecs, replies.drop_last()),
            replies.last(),
            action,
        ),
        action is Connected,
    ensures
        replies.len() == 13,
        replies.last() is Done,
        state_after(
            HostHandshake::RegisteringCodecs,
            replies.drop_last(),
        ) is SettingRemoteDescription,
{
    law_handshake_moves_forward(replies.drop_last());
}

proof fn lemma_trace_fits<E>(replies: Seq<HostReply<E>>, actions: Seq<HostAction<E>>)
    requires
        is_handshake_trace(replies, actions),
    ensures
        replies_fit(HostHandshake::RegisteringCodecs, replies),
    decreases replies.len(),
{
    if replies.len() > 0 {
        lemma_trace_fits(replies.drop_last(), actions.drop_last());
    }
}

proof fn lemma_not_failed<E>(replies: Seq<HostReply<E>>, actions: Seq<HostAction<E>>)
    requires
        is_handshake_trace(replies, actions),
        replies.len() > 0,
        !(state_after(HostHandshake::RegisteringCodecs, replies) is Failed),
    ensures
        !(actions.last() is Failed),
{
}

/// A handshake fails on four grounds, each with its own error, and on no other: a
/// step failed, there was no local description, the viewer sent an offer, or the
/// viewer's answer does not parse. Nothing is awaited after it.
pub proof fn law_handshake_fails_on_its_grounds<E>(
    state: HostHandshake,
    reply: HostReply<E>,
    action: HostAction<E>,
    later: HostReply<E>,
)
    requires
        reply_fits(state, reply),
        webrtc_host::action_follows(state, reply, action),
    ensures
        action is Failed <==> next_state(state, reply) is Failed,
        action is Failed ==> !reply_fits(next_state(state, reply), later),
        match reply {
            HostReply::Failed(error) => action == HostAction::Failed(HandshakeError::Step(error)),
            HostReply::LocalDescription(None) => action == HostAction::<E>::Failed(
                HandshakeError::NoLocalDescription,
            ),
            HostReply::Message(SignalMessage::Offer { .. }) => action == HostAction::<E>::Failed(
                HandshakeError::UnexpectedOffer,
            ),
            HostReply::Message(SignalMessage::Answer { sdp }) => action is Failed <==> parsed_answer(
                sdp@,
            ) is Err,
            _ => !(action is Failed),
        },
{
}

/// A handshake awaits every outcome of its steps.
pub proof fn law_handshake_awaits_every_outcome<E>(state: HostHandshake, reply: HostReply<E>)
    ensures
        reply is Offer ==> (reply_fits(state, reply) <==> state is CreatingOffer),
        reply is LocalDescription ==> (reply_fits(state, reply)
            <==> state is ReadingLocalDescription),
        reply is Message ==> (reply_fits(state, reply) <==> state is AwaitingAnswer),
        reply is Failed ==> (reply_fits(state, reply) <==> !(state is WatchingGathering) && !(
        state is AwaitingGathering) && !(state is ReadingLocalDescription) && !(
        state is Announcing) && !(state is Connected) && !(state is Failed)),
        reply is Done ==> (reply_fits(state, reply) <==> !(state is CreatingOffer) && !(
        state is ReadingLocalDescription) && !(state is AwaitingAnswer) && !(state is Connected)
            && !(state is Failed)),
{
}

} // verus!
