//! Laws on streaming.

use crate::capture::{ScalerFilter, CAPTURE_FILE_FPS, CAPTURE_HEIGHT, CAPTURE_WIDTH};
use crate::pixels::RawFrame;
use crate::streaming::{
    action_follows, next_state, replies_fit, reply_fits, state_after, StreamAction, StreamReply,
    StreamRun,
};
use crate::video::Pixel;
use vstd::prelude::*;

verus! {

/// Whether `actions` are what a stream asks for, one on each of `replies`.
pub open spec fn is_stream_trace<F, E>(
    replies: Seq<StreamReply<F, E>>,
    actions: Seq<StreamAction<F, E>>,
) -> bool
    decreases replies.len(),
{
    &&& replies.len() == actions.len()
    &&& replies.len() > 0 ==> {
        &&& is_stream_trace(replies.drop_last(), actions.drop_last())
        &&& reply_fits(state_after(replies.drop_last()), replies.last())
        &&& action_follows(
            state_after(replies.drop_last()),
            replies.last(),
            state_after(replies),
            actions.last(),
        )
    }
}

/// All bytes that came out of the encoder, in order.
pub open spec fn bytes_encoded<F, E>(replies: Seq<StreamReply<F, E>>) -> Seq<u8>
    decreases replies.len(),
{
    if replies.len() == 0 {
        Seq::empty()
    } else {
        let before = bytes_encoded(replies.drop_last());
        match replies.last() {
            StreamReply::Encoded(data) => before + data@,
            _ => before,
        }
    }
}

/// All bytes that were asked to be sent, in order.
pub open spec fn bytes_sent<F, E>(actions: Seq<StreamAction<F, E>>) -> Seq<u8>
    decreases actions.len(),
{
    if actions.len() == 0 {
        Seq::empty()
    } else {
        let before = bytes_sent(actions.drop_last());
        match actions.last() {
            StreamAction::SendSample { data, .. } => before + data@,
            _ => before,
        }
    }
}

/// The frames that were captured, in order.
pub open spec fn frames_captured<F, E>(replies: Seq<StreamReply<F, E>>) -> Seq<RawFrame>
    decreases replies.len(),
{
    if replies.len() == 0 {
        Seq::empty()
    } else {
        let before = frames_captured(replies.drop_last());
        match replies.last() {
            StreamReply::Captured(raw) => before.push(raw),
            _ => before,
        }
    }
}

/// The frames that were handed to the scaler, in order.
pub open spec fn frames_to_scale<F, E>(actions: Seq<StreamAction<F, E>>) -> Seq<RawFrame>
    decreases actions.len(),
{
    if actions.len() == 0 {
        Seq::empty()
    } else {
        let before = frames_to_scale(actions.drop_last());
        match actions.last() {
            StreamAction::Scale(raw) => before.push(raw),
            _ => before,
        }
    }
}

/// The frames that came out of the scaler, in order.
pub open spec fn frames_converted<F, E>(replies: Seq<StreamReply<F, E>>) -> Seq<F>
    decreases replies.len(),
{
    if replies.len() == 0 {
        Seq::empty()
    } else {
        let before = frames_converted(replies.drop_last());
        match replies.last() {
            StreamReply::Scaled(frame) => before.push(frame),
            _ => before,
        }
    }
}

/// The frames that were handed to the encoder, with their timestamps, in order.
pub open spec fn frames_to_encode<F, E>(actions: Seq<StreamAction<F, E>>) -> Seq<(F, i64)>
    decreases actions.len(),
{
    if actions.len() == 0 {
        Seq::empty()
    } else {
        let before = frames_to_encode(actions.drop_last());
        match actions.last() {
            StreamAction::Encode { frame, pts } => before.push((frame, pts)),
            _ => before,
        }
    }
}

/// A viewer gets what the encoder made: the bytes of all samples that are asked
/// to be sent, one after the other, are the bytes of all packets that came out of
/// the encoder, one after the other.
pub proof fn law_bytes_sent_are_the_bytes_encoded<F, E>(
    replies: Seq<StreamReply<F, E>>,
    actions: Seq<StreamAction<F, E>>,
)
    requires
        is_stream_trace(replies, actions),
    ensures
        bytes_sent(actions) == bytes_encoded(replies),
    decreases replies.len(),
{
    if replies.len() > 0 {
        law_bytes_sent_are_the_bytes_encoded(replies.drop_last(), actions.drop_last());
        assert(bytes_sent(actions) =~= bytes_encoded(replies));
    }
}

/// A packet is sent whole and on its own: on a packet of any length but zero the
/// stream asks for one sample with exactly its bytes, lasting one frame, and on
/// an empty one it waits for the next frame.
pub proof fn law_packet_is_sent_whole<F, E>(
    run: StreamRun,
    packet: Vec<u8>,
    action: StreamAction<F, E>,
)
    requires
        reply_fits(run, StreamReply::<F, E>::Encoded(packet)),
        action_follows(
            run,
            StreamReply::<F, E>::Encoded(packet),
            next_state(run, StreamReply::<F, E>::Encoded(packet)),
            action,
        ),
    ensures
        run is Encoding,
        packet@.len() == 0 ==> action is Receive,
        packet@.len() > 0 ==> (action matches StreamAction::SendSample { data, rate } && data@
            == packet@ && rate == CAPTURE_FILE_FPS),
{
}

/// On a captured frame of any size, a stream asks to scale that frame: with its
/// width, its height and its bytes.
pub proof fn law_captured_frame_is_scaled<F, E>(
    run: StreamRun,
    raw: RawFrame,
    action: StreamAction<F, E>,
)
    requires
        reply_fits(run, StreamReply::<F, E>::Captured(raw)),
        action_follows(
            run,
            StreamReply::<F, E>::Captured(raw),
            next_state(run, StreamReply::<F, E>::Captured(raw)),
            action,
        ),
    ensures
        run is Receiving,
        action matches StreamAction::Scale(handed) && handed.width == raw.width && handed.height
            == raw.height && handed.bgra@ == raw.bgra@,
{
}

/// A stream hands on what it gets: the frames handed to the scaler are, in order,
/// the frames captured, and the frames handed to the encoder are, in order, the
/// frames converted, with timestamps that count them from zero.
pub proof fn law_stream_hands_its_frames_on<F, E>(
    replies: Seq<StreamReply<F, E>>,
    actions: Seq<StreamAction<F, E>>,
)
    requires
        is_stream_trace(replies, actions),
    ensures
        frames_to_scale(actions) == frames_captured(replies),
        frames_to_encode(actions).len() == frames_converted(replies).len(),
        forall|i: int|
            #![trigger frames_to_encode(actions)[i]]
            0 <= i < frames_to_encode(actions).len() ==> frames_to_encode(actions)[i].0
                == frames_converted(replies)[i] && frames_to_encode(actions)[i].1 == i,
{
    lemma_stream_trace(replies, actions);
}

proof fn lemma_stream_trace<F, E>(
    replies: Seq<StreamReply<F, E>>,
    actions: Seq<StreamAction<F, E>>,
)
    requires
        is_stream_trace(replies, actions),
    ensures
        frames_to_scale(actions) == frames_captured(replies),
        frames_to_encode(actions).len() == frames_converted(replies).len(),
        forall|i: int|
            #![trigger frames_to_encode(actions)[i]]
            0 <= i < frames_to_encode(actions).len() ==> frames_to_encode(actions)[i].0
                == frames_converted(replies)[i] && frames_to_encode(actions)[i].1 == i,
        match state_after(replies) {
            StreamRun::Receiving { next_pts }
            | StreamRun::Scaling { next_pts }
            | StreamRun::Encoding { next_pts }
            | StreamRun::SendingSample { next_pts } => next_pts == frames_converted(replies).len(),
            StreamRun::StoppingStream | StreamRun::Finished | StreamRun::Failed => true,
            _ => frames_converted(replies).len() == 0,
        },
    decreases replies.len(),
{
    if replies.len() > 0 {
        lemma_stream_trace(replies.drop_last(), actions.drop_last());
        let before = frames_to_encode(actions.drop_last());
        assert forall|i: int|
            #![trigger frames_to_encode(actions)[i]]
            0 <= i < frames_to_encode(actions).len() implies frames_to_encode(actions)[i].0
            == frames_converted(replies)[i] && frames_to_encode(actions)[i].1 == i by {
            if i < before.len() {
                assert(frames_to_encode(actions)[i] == before[i]);
            }
        }
    }
}

/// How a stream begins depends only on how many replies it has had: the address
/// is connected, hands are shaken, the stream is started, an encoder and a scaler
/// for the captured size are opened, and the viewer's side is told; then it waits
/// for frames.
pub proof fn law_stream_begins_in_order<F, E>(
    replies: Seq<StreamReply<F, E>>,
    action: StreamAction<F, E>,
)
    requires
        replies.len() > 0,
        replies_fit(replies),
        !(replies.last() is Failed),
        action_follows(
            state_after(replies.drop_last()),
            replies.last(),
            state_after(replies),
            action,
        ),
    ensures
        ({
            let n = replies.len() as int;
            &&& n == 1 ==> action is ShakeHands
            &&& n == 2 ==> (action matches StreamAction::StartStream(config) && config.width
                == CAPTURE_WIDTH && config.height == CAPTURE_HEIGHT && config.format == Pixel::BGRA
                && config.fps == Some(CAPTURE_FILE_FPS))
            &&& n == 3 ==> (action matches StreamAction::OpenEncoder { width, height, fps } && width
                == CAPTURE_WIDTH && height == CAPTURE_HEIGHT && fps == CAPTURE_FILE_FPS)
            &&& n == 4 ==> (action matches StreamAction::OpenScaler(scaler) && scaler.from
                == Pixel::BGRA && scaler.to == Pixel::YUV420P && scaler.width == CAPTURE_WIDTH
                && scaler.height == CAPTURE_HEIGHT && scaler.filter == ScalerFilter::FastBilinear)
            &&& n == 5 ==> (action matches StreamAction::Announce(line) && line@
                == "streaming, ctrl-c to stop"@)
            &&& n == 6 ==> action is Receive
        }),
{
    lemma_beginning(replies);
}

proof fn lemma_beginning<F, E>(replies: Seq<StreamReply<F, E>>)
    requires
        replies_fit(replies),
    ensures
        match state_after(replies) {
            StreamRun::Connecting => replies.len() == 0,
            StreamRun::ShakingHands => replies.len() == 1,
            StreamRun::StartingStream => replies.len() == 2,
            StreamRun::OpeningEncoder => replies.len() == 3,
            StreamRun::OpeningScaler => replies.len() == 4,
            StreamRun::Announcing => replies.len() == 5,
            StreamRun::Receiving { .. } => replies.len() >= 6,
            StreamRun::Failed => replies.len() > 0 && replies.last() is Failed,
            _ => replies.len() > 6,
        },
    decreases replies.len(),
{
    if replies.len() > 0 {
        lemma_beginning(replies.drop_last());
    }
}

/// From the first frame on, each reply has one consequence, whatever came before:
/// a frame is converted, a converted frame encoded, an encoded one sent if there
/// is anything to send; then the next frame is awaited. When there are no more
/// frames the stream is stopped, and then it is finished.
pub proof fn law_stream_goes_round<F, E>(
    run: StreamRun,
    reply: StreamReply<F, E>,
    action: StreamAction<F, E>,
)
    requires
        reply_fits(run, reply),
        action_follows(run, reply, next_state(run, reply), action),
        run is Receiving || run is Scaling || run is Encoding || run is SendingSample
            || run is StoppingStream,
        !(reply is Failed),
    ensures
        run is Receiving && reply is Captured ==> action is Scale && next_state(
            run,
            reply,
        ) is Scaling,
        run is Receiving && reply is Ended ==> action is StopStream && next_state(
            run,
            reply,
        ) is StoppingStream,
        run is Scaling ==> action is Encode && next_state(run, reply) is Encoding,
        run is Encoding ==> (action is SendSample && next_state(run, reply) is SendingSample) || (
        action is Receive && next_state(run, reply) is Receiving),
        run is SendingSample ==> action is Receive && next_state(run, reply) is Receiving,
        run is StoppingStream ==> action is Finished && next_state(run, reply) is Finished,
{
}

/// A failure ends a stream: it is handed on as it came, and nothing is awaited
/// after it; and nothing but a failure makes a stream fail.
pub proof fn law_stream_ends_with_a_failure<F, E>(
    run: StreamRun,
    reply: StreamReply<F, E>,
    action: StreamAction<F, E>,
    later: StreamReply<F, E>,
)
    requires
        reply_fits(run, reply),
        action_follows(run, reply, next_state(run, reply), action),
    ensures
        reply matches StreamReply::Failed(error) ==> action == StreamAction::<F, E>::Failed(error),
        action is Failed <==> reply is Failed,
        next_state(run, reply) is Failed <==> reply is Failed,
        reply is Failed ==> !reply_fits(next_state(run, reply), later),
{
}

/// A stream awaits every outcome of its steps.
pub proof fn law_stream_awaits_every_outcome<F, E>(run: StreamRun, reply: StreamReply<F, E>)
    ensures
        reply is Failed ==> (reply_fits(run, reply) <==> !(run is Announcing) && !(run is Receiving)
            && !(run is Finished) && !(run is Failed)),
        reply is Captured || reply is Ended ==> (reply_fits(run, reply) <==> run is Receiving),
        reply is Scaled ==> (reply_fits(run, reply) <==> (run matches StreamRun::Scaling {
            next_pts,
        } && next_pts < i64::MAX)),
        reply is Encoded ==> (reply_fits(run, reply) <==> run is Encoding),
        reply is Done ==> (reply_fits(run, reply) <==> !(run is Receiving) && !(run is Scaling) && !(
        run is Encoding) && !(run is Finished) && !(run is Failed)),
{
}

} // verus!
