//! Streaming the screen to a viewer: the frames of a recording, sent over a
//! WebRTC video track instead of to a file, until there are no more.
//!
//! A run decides and the caller performs: [`run_webrtc`] returns the first thing
//! to do, and [`StreamRun::react`] takes what came of it. The first failure ends
//! a run.

use crate::capture::{
    CaptureConfig, ScalerSettings, CAPTURE_FILE_FPS, CAPTURE_HEIGHT, CAPTURE_WIDTH,
};
use crate::pixels::RawFrame;
use vstd::prelude::*;

verus! {

/// What the caller is to do next.
#[derive(Debug)]
pub enum StreamAction<F, E> {
    /// Connect to the signaling server at this address.
    Connect(&'static str),
    /// Go through the handshake with the viewer.
    ShakeHands,
    /// Start capturing the screen.
    StartStream(CaptureConfig),
    /// Open an encoder.
    OpenEncoder { width: u32, height: u32, fps: i32 },
    /// Open a scaler.
    OpenScaler(ScalerSettings),
    /// Say this.
    Announce(&'static str),
    /// Wait for a captured frame.
    Receive,
    /// Have the scaler convert this frame.
    Scale(RawFrame),
    /// Encode this frame, with this timestamp.
    Encode { frame: F, pts: i64 },
    /// Send these bytes as one sample that lasts one frame at this rate.
    SendSample { data: Vec<u8>, rate: u32 },
    /// Stop capturing.
    StopStream,
    /// The stream is over.
    Finished,
    /// The stream is over without success.
    Failed(E),
}

/// What came of an action.
#[derive(Debug)]
pub enum StreamReply<F, E> {
    Done,
    /// The frame that was captured.
    Captured(RawFrame),
    /// No more frames will be captured.
    Ended,
    /// The frame that was converted.
    Scaled(F),
    /// What the encoder emitted for the frame; it may be nothing.
    Encoded(Vec<u8>),
    Failed(E),
}

/// A stream, by the step that it is waiting for. From the first frame on it
/// knows the timestamp that the next frame gets.
#[derive(Clone, Copy, Debug)]
pub enum StreamRun {
    Connecting,
    ShakingHands,
    StartingStream,
    OpeningEncoder,
    OpeningScaler,
    Announcing,
    Receiving { next_pts: i64 },
    Scaling { next_pts: i64 },
    Encoding { next_pts: i64 },
    SendingSample { next_pts: i64 },
    StoppingStream,
    Finished,
    Failed,
}

/// Whether `reply` can be what came of the action that a stream waits for. A
/// frame can only be stamped while there is a next timestamp.
pub open spec fn reply_fits<F, E>(run: StreamRun, reply: StreamReply<F, E>) -> bool {
    match run {
        StreamRun::Announcing => reply is Done,
        StreamRun::Receiving { .. } => reply is Captured || reply is Ended,
        StreamRun::Scaling { next_pts } => reply is Failed || reply is Scaled && next_pts
            < i64::MAX,
        StreamRun::Encoding { .. } => reply is Encoded || reply is Failed,
        StreamRun::Finished | StreamRun::Failed => false,
        _ => reply is Done || reply is Failed,
    }
}

/// The state of a stream after a reply.
pub open spec fn next_state<F, E>(run: StreamRun, reply: StreamReply<F, E>) -> StreamRun {
    match (run, reply) {
        (_, StreamReply::Failed(_)) => StreamRun::Failed,
        (StreamRun::Connecting, _) => StreamRun::ShakingHands,
        (StreamRun::ShakingHands, _) => StreamRun::StartingStream,
        (StreamRun::StartingStream, _) => StreamRun::OpeningEncoder,
        (StreamRun::OpeningEncoder, _) => StreamRun::OpeningScaler,
        (StreamRun::OpeningScaler, _) => StreamRun::Announcing,
        (StreamRun::Announcing, _) => StreamRun::Receiving { next_pts: 0 },
        (StreamRun::Receiving { .. }, StreamReply::Ended) => StreamRun::StoppingStream,
        (StreamRun::Receiving { next_pts }, _) => StreamRun::Scaling { next_pts },
        (StreamRun::Scaling { next_pts }, _) => StreamRun::Encoding {
            next_pts: (next_pts + 1) as i64,
        },
        (StreamRun::Encoding { next_pts }, StreamReply::Encoded(data)) => if data@.len() > 0 {
            StreamRun::SendingSample { next_pts }
        } else {
            StreamRun::Receiving { next_pts }
        },
        (StreamRun::SendingSample { next_pts }, _) => StreamRun::Receiving { next_pts },
        (_, _) => StreamRun::Finished,
    }
}

/// Whether `action` is what a stream asks for when `reply` took it from `run` to
/// `next`.
pub open spec fn action_follows<F, E>(
    run: StreamRun,
    reply: StreamReply<F, E>,
    next: StreamRun,
    action: StreamAction<F, E>,
) -> bool {
    match next {
        StreamRun::Connecting => action matches StreamAction::Connect(url) && url@
            == "ws://localhost:8080/ws?role=host"@,
        StreamRun::ShakingHands => action is ShakeHands,
        StreamRun::StartingStream => action == StreamAction::<F, E>::StartStream(
            CaptureConfig::at_rate(Some(CAPTURE_FILE_FPS)),
        ),
        StreamRun::OpeningEncoder => action == (StreamAction::<F, E>::OpenEncoder {
            width: CAPTURE_WIDTH,
            height: CAPTURE_HEIGHT,
            fps: CAPTURE_FILE_FPS as i32,
        }),
        StreamRun::OpeningScaler => action == StreamAction::<F, E>::OpenScaler(
            ScalerSettings::for_capture(),
        ),
        StreamRun::Announcing => action matches StreamAction::Announce(line) && line@
            == "streaming, ctrl-c to stop"@,
        StreamRun::Receiving { .. } => action is Receive,
        StreamRun::Scaling { .. } => reply matches StreamReply::Captured(raw) && action
            == StreamAction::<F, E>::Scale(raw),
        StreamRun::Encoding { .. } => {
            &&& reply matches StreamReply::Scaled(scaled)
            &&& run matches StreamRun::Scaling { next_pts }
            &&& action == (StreamAction::<F, E>::Encode { frame: scaled, pts: next_pts })
        },
        StreamRun::SendingSample { .. } => reply matches StreamReply::Encoded(data) && action == (
        StreamAction::<F, E>::SendSample { data, rate: CAPTURE_FILE_FPS }),
        StreamRun::StoppingStream => action is StopStream,
        StreamRun::Finished => action is Finished,
        StreamRun::Failed => reply matches StreamReply::Failed(error) && action
            == StreamAction::<F, E>::Failed(error),
    }
}

/// Start streaming.
pub fn run_webrtc<F, E>() -> (r: (StreamRun, StreamAction<F, E>))
    ensures
        r.0 is Connecting,
        r.1 matches StreamAction::Connect(url) && url@ == "ws://localhost:8080/ws?role=host"@,
{
    (StreamRun::Connecting, StreamAction::Connect("ws://localhost:8080/ws?role=host"))
}

impl StreamRun {
    /// Whether [`StreamRun::react`] may be called with this reply.
    pub fn awaits<F, E>(&self, reply: &StreamReply<F, E>) -> (r: bool)
        ensures
            r == reply_fits(*self, *reply),
    {
        match (*self, reply) {
            (StreamRun::Finished | StreamRun::Failed, _) => false,
            (StreamRun::Announcing, StreamReply::Done) => true,
            (StreamRun::Announcing, _) => false,
            (StreamRun::Receiving { .. }, StreamReply::Captured(_)) => true,
            (StreamRun::Receiving { .. }, StreamReply::Ended) => true,
            (StreamRun::Receiving { .. }, _) => false,
            (_, StreamReply::Failed(_)) => true,
            (StreamRun::Scaling { next_pts }, StreamReply::Scaled(_)) => next_pts < i64::MAX,
            (StreamRun::Scaling { .. }, _) => false,
            (StreamRun::Encoding { .. }, StreamReply::Encoded(_)) => true,
            (StreamRun::Encoding { .. }, _) => false,
            (_, StreamReply::Done) => true,
            (_, _) => false,
        }
    }

    /// Take what came of the last action and say what follows.
    pub fn react<F, E>(self, reply: StreamReply<F, E>) -> (r: (StreamRun, StreamAction<F, E>))
        requires
            reply_fits(self, reply),
        ensures
            reply matches StreamReply::Failed(error) ==> r.1 == StreamAction::<F, E>::Failed(error),
            reply matches StreamReply::Captured(raw) ==> r.1 matches StreamAction::Scale(handed)
                && handed.width == raw.width && handed.height == raw.height && handed.bgra@
                == raw.bgra@,
            reply matches StreamReply::Scaled(scaled) ==> r.1 matches StreamAction::Encode {
                frame,
                pts,
            } && frame == scaled && self == (StreamRun::Scaling { next_pts: pts }),
            reply matches StreamReply::Encoded(packet) ==> if packet@.len() == 0 {
                r.1 is Receive
            } else {
                r.1 matches StreamAction::SendSample { data, rate } && data@ == packet@ && rate
                    == CAPTURE_FILE_FPS
            },
            r.0 == next_state(self, reply),
            action_follows(self, reply, r.0, r.1),
    {
        match reply {
            StreamReply::Failed(error) => (StreamRun::Failed, StreamAction::Failed(error)),
            StreamReply::Ended => (StreamRun::StoppingStream, StreamAction::StopStream),
            StreamReply::Captured(raw) => match self {
                StreamRun::Receiving { next_pts } => (
                    StreamRun::Scaling { next_pts },
                    StreamAction::Scale(raw),
                ),
                _ => vstd::pervasive::unreached(),
            },
            StreamReply::Scaled(frame) => match self {
                StreamRun::Scaling { next_pts } => (
                    StreamRun::Encoding { next_pts: next_pts + 1 },
                    StreamAction::Encode { frame, pts: next_pts },
                ),
                _ => vstd::pervasive::unreached(),
            },
            StreamReply::Encoded(data) => match self {
                StreamRun::Encoding { next_pts } => {
                    if data.is_empty() {
                        (StreamRun::Receiving { next_pts }, StreamAction::Receive)
                    } else {
                        (
                            StreamRun::SendingSample { next_pts },
                            StreamAction::SendSample { data, rate: CAPTURE_FILE_FPS },
                        )
                    }
                },
                _ => vstd::pervasive::unreached(),
            },
            StreamReply::Done => self.advance(),
        }
    }

    /// Go on after a step that only had to be done.
    fn advance<F, E>(self) -> (r: (StreamRun, StreamAction<F, E>))
        requires
            reply_fits(self, StreamReply::<F, E>::Done),
        ensures
            r.0 == next_state(self, StreamReply::<F, E>::Done),
            action_follows(self, StreamReply::<F, E>::Done, r.0, r.1),
    {
        match self {
            StreamRun::Connecting => (StreamRun::ShakingHands, StreamAction::ShakeHands),
            StreamRun::ShakingHands => (
                StreamRun::StartingStream,
                StreamAction::StartStream(CaptureConfig::new(Some(CAPTURE_FILE_FPS))),
            ),
            StreamRun::StartingStream => (
                StreamRun::OpeningEncoder,
                StreamAction::OpenEncoder {
                    width: CAPTURE_WIDTH,
                    height: CAPTURE_HEIGHT,
                    fps: CAPTURE_FILE_FPS as i32,
                },
            ),
            StreamRun::OpeningEncoder => (
                StreamRun::OpeningScaler,
                StreamAction::OpenScaler(ScalerSettings::new()),
            ),
            StreamRun::OpeningScaler => (
                StreamRun::Announcing,
                StreamAction::Announce("streaming, ctrl-c to stop"),
            ),
            StreamRun::Announcing => (StreamRun::Receiving { next_pts: 0 }, StreamAction::Receive),
            StreamRun::SendingSample { next_pts } => (
                StreamRun::Receiving { next_pts },
                StreamAction::Receive,
            ),
            _ => (StreamRun::Finished, StreamAction::Finished),
        }
    }
}

/// The state of a stream after a sequence of replies.
pub open spec fn state_after<F, E>(replies: Seq<StreamReply<F, E>>) -> StreamRun
    decreases replies.len(),
{
    if replies.len() == 0 {
        StreamRun::Connecting
    } else {
        next_state(state_after(replies.drop_last()), replies.last())
    }
}

/// Whether every reply of a sequence fits the state at which it comes.
pub open spec fn replies_fit<F, E>(replies: Seq<StreamReply<F, E>>) -> bool
    decreases replies.len(),
{
    replies.len() > 0 ==> {
        &&& replies_fit(replies.drop_last())
        &&& reply_fits(state_after(replies.drop_last()), replies.last())
    }
}

/// The packets that a stream has asked to be sent, in order.
pub open spec fn samples_sent<F, E>(replies: Seq<StreamReply<F, E>>) -> Seq<Seq<u8>>
    decreases replies.len(),
{
    if replies.len() == 0 {
        Seq::empty()
    } else {
        let before = samples_sent(replies.drop_last());
        match (state_after(replies), replies.last()) {
            (StreamRun::SendingSample { .. }, StreamReply::Encoded(data)) => before.push(data@),
            _ => before,
        }
    }
}

/// The packets that came out of the encoder with anything in them, in order.
pub open spec fn packets_encoded<F, E>(replies: Seq<StreamReply<F, E>>) -> Seq<Seq<u8>>
    decreases replies.len(),
{
    if replies.len() == 0 {
        Seq::empty()
    } else {
        let before = packets_encoded(replies.drop_last());
        match replies.last() {
            StreamReply::Encoded(data) => if data@.len() > 0 {
                before.push(data@)
            } else {
                before
            },
            _ => before,
        }
    }
}

/// How many frames were converted in a sequence of replies.
pub open spec fn frames_scaled<F, E>(replies: Seq<StreamReply<F, E>>) -> int
    decreases replies.len(),
{
    if replies.len() == 0 {
        0
    } else {
        frames_scaled(replies.drop_last()) + if replies.last() is Scaled {
            1int
        } else {
            0
        }
    }
}

/// Whatever the encoder emits is sent, once and in order; an empty packet is
/// never sent.
pub proof fn law_every_packet_is_sent<F, E>(replies: Seq<StreamReply<F, E>>)
    requires
        replies_fit(replies),
    ensures
        samples_sent(replies) == packets_encoded(replies),
        forall|i: int|
            0 <= i < samples_sent(replies).len() ==> (#[trigger] samples_sent(replies)[i]).len() > 0,
    decreases replies.len(),
{
    if replies.len() > 0 {
        law_every_packet_is_sent(replies.drop_last());
    }
}

/// The timestamp that the next frame of a stream gets is the number of frames
/// before it: timestamps count frames from zero, without a gap.
pub proof fn law_timestamps_count_frames<F, E>(replies: Seq<StreamReply<F, E>>)
    requires
        replies_fit(replies),
    ensures
        match state_after(replies) {
            StreamRun::Receiving { next_pts }
            | StreamRun::Scaling { next_pts }
            | StreamRun::Encoding { next_pts }
            | StreamRun::SendingSample { next_pts } => next_pts == frames_scaled(replies),
            StreamRun::StoppingStream | StreamRun::Finished | StreamRun::Failed => true,
            _ => frames_scaled(replies) == 0,
        },
    decreases replies.len(),
{
    if replies.len() > 0 {
        law_timestamps_count_frames(replies.drop_last());
    }
}

/// A frame is encoded under its number: what is asked for when a frame has been
/// converted is to encode that frame, with the count of the frames before it as
/// its timestamp.
pub proof fn law_frames_are_encoded_under_their_number<F, E>(
    replies: Seq<StreamReply<F, E>>,
    scaled: F,
    action: StreamAction<F, E>,
)
    requires
        replies_fit(replies.push(StreamReply::Scaled(scaled))),
        action_follows(
            state_after(replies),
            StreamReply::Scaled(scaled),
            state_after(replies.push(StreamReply::Scaled(scaled))),
            action,
        ),
    ensures
        action matches StreamAction::Encode { frame, pts } && frame == scaled && pts
            == frames_scaled(replies),
{
    assert(replies.push(StreamReply::Scaled(scaled)).drop_last() =~= replies);
    law_timestamps_count_frames(replies);
}

/// A stream ends by itself only when there are no more frames: the last reply
/// but one before it is finished says so.
pub proof fn law_stream_runs_until_frames_end<F, E>(replies: Seq<StreamReply<F, E>>)
    requires
        replies_fit(replies),
    ensures
        state_after(replies) is StoppingStream ==> replies.len() > 0 && replies.last() is Ended,
        state_after(replies) is Finished ==> replies.len() > 1 && replies.last() is Done
            && replies[replies.len() - 2] is Ended,
    decreases replies.len(),
{
    if replies.len() > 0 {
        law_stream_runs_until_frames_end(replies.drop_last());
    }
}

} // verus!
