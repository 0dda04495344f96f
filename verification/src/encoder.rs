//! H.264 encoding: the settings a stream is encoded with, and the protocol by
//! which frames go into the codec and packets come out of it.
//!
//! The encoder decides and the caller performs: every method returns the next
//! thing to do with the codec, and [`H264Encoder::react`] takes what came of
//! it. It knows nothing about screen capture or files.

use crate::video::Pixel;
use vstd::prelude::*;

verus! {

/// A fraction, as time bases and frame rates are given.
#[derive(Clone, Copy, Debug, PartialEq, Eq, Structural)]
pub struct Rational {
    pub num: i32,
    pub den: i32,
}

/// An option that the codec knows by name.
#[derive(Clone, Copy, Debug)]
pub struct CodecOption {
    pub key: &'static str,
    pub value: &'static str,
}

/// Everything that is fixed when a codec is opened.
#[derive(Debug)]
pub struct EncoderSettings {
    pub codec: &'static str,
    pub width: u32,
    pub height: u32,
    pub format: Pixel,
    /// The unit of timestamps.
    pub time_base: Rational,
    pub frame_rate: Rational,
    /// Frames from one keyframe to the next.
    pub gop: u32,
    pub max_b_frames: usize,
    pub options: Vec<CodecOption>,
}

/// Why a call on the encoder failed.
#[derive(Debug)]
pub enum EncoderError<E> {
    /// The codec, or the writer of its packets, failed.
    Codec(E),
    /// The codec is not part of this build.
    CodecNotFound,
}

/// What the caller is to do next.
#[derive(Debug)]
pub enum EncoderAction<E> {
    /// Set up the codec library.
    Init,
    /// Look the codec up by its name in the settings.
    FindCodec,
    /// Create a video encoding context for the codec.
    CreateContext,
    /// Apply the settings and open the codec.
    Open,
    /// Tell the codec that there are no more frames.
    SendEof,
    /// Ask the codec for a packet.
    ReceivePacket,
    /// Write these bytes to the output.
    Write(Vec<u8>),
    /// The encoder is ready for frames.
    Opened,
    /// The frame is encoded, as far as the codec emits it now.
    Encoded,
    /// Everything that the codec held is out.
    Finished,
    /// The call is over without success.
    Failed(EncoderError<E>),
}

/// What came of an action.
#[derive(Debug)]
pub enum EncoderReply<E> {
    Done,
    /// There is no codec of that name.
    NotFound,
    /// A packet came out; it may have no data.
    Packet(Option<Vec<u8>>),
    Failed(E),
}

/// What the encoder is waiting for.
#[derive(Clone, Copy, Debug, PartialEq, Eq, Structural)]
pub enum EncoderStage {
    Initializing,
    FindingCodec,
    CreatingContext,
    Opening,
    /// Open, with no call under way.
    Ready,
    Sending { last: bool },
    Receiving { last: bool },
    Writing { last: bool },
    /// Finished, or never opened.
    Closed,
}

/// An H.264 encoder.
#[derive(Debug)]
pub struct H264Encoder {
    pub settings: EncoderSettings,
    pub stage: EncoderStage,
}

/// What a 32-bit count holds of a signed number: the number itself, or, for a
/// negative one, the number counted down from the top.
pub open spec fn as_count(n: int) -> int {
    if n >= 0 {
        n
    } else {
        n + 0x1_0000_0000
    }
}

impl EncoderSettings {
    /// These are the settings for `width` x `height` frames at `fps`.
    pub open spec fn are_for(self, width: u32, height: u32, fps: i32) -> bool {
        &&& self.codec@ == "libx264"@
        &&& self.width == width
        &&& self.height == height
        &&& self.format == Pixel::YUV420P
        &&& self.time_base == (Rational { num: 1, den: fps })
        &&& self.frame_rate == (Rational { num: fps, den: 1 })
        &&& self.gop == as_count(fps as int)
        &&& self.max_b_frames == 0
        &&& self.options@.len() == 3
        &&& self.options@[0].key@ == "preset"@ && self.options@[0].value@ == "veryfast"@
        &&& self.options@[1].key@ == "tune"@ && self.options@[1].value@ == "zerolatency"@
        &&& self.options@[2].key@ == "crf"@ && self.options@[2].value@ == "23"@
    }
}

/// Whether `reply` can be what came of the action that `stage` waits for.
pub open spec fn reply_fits<E>(stage: EncoderStage, reply: EncoderReply<E>) -> bool {
    match stage {
        EncoderStage::Initializing
        | EncoderStage::CreatingContext
        | EncoderStage::Opening
        | EncoderStage::Sending { .. }
        | EncoderStage::Writing { .. } => reply is Done || reply is Failed,
        EncoderStage::FindingCodec => reply is Done || reply is NotFound,
        EncoderStage::Receiving { .. } => reply is Packet || reply is Failed,
        EncoderStage::Ready | EncoderStage::Closed => false,
    }
}

/// The stage of an encoder after a call that sent a frame, or the last of all.
pub open spec fn idle_stage(last: bool) -> EncoderStage {
    if last {
        EncoderStage::Closed
    } else {
        EncoderStage::Ready
    }
}

/// The stage and the action that follow a reply.
pub open spec fn reaction<E>(stage: EncoderStage, reply: EncoderReply<E>) -> (
    EncoderStage,
    EncoderAction<E>,
) {
    match (stage, reply) {
        // A refusal to give a packet means that there is none for now.
        (EncoderStage::Receiving { last }, EncoderReply::Failed(_)) => (
            idle_stage(last),
            if last {
                EncoderAction::Finished
            } else {
                EncoderAction::Encoded
            },
        ),
        (EncoderStage::Receiving { last }, EncoderReply::Packet(Some(data))) => (
            EncoderStage::Writing { last },
            EncoderAction::Write(data),
        ),
        (EncoderStage::Receiving { last }, _) => (
            EncoderStage::Receiving { last },
            EncoderAction::ReceivePacket,
        ),
        (EncoderStage::Sending { last }, EncoderReply::Failed(error)) => (
            idle_stage(last),
            EncoderAction::Failed(EncoderError::Codec(error)),
        ),
        (EncoderStage::Writing { last }, EncoderReply::Failed(error)) => (
            idle_stage(last),
            EncoderAction::Failed(EncoderError::Codec(error)),
        ),
        (EncoderStage::Sending { last }, _) => (
            EncoderStage::Receiving { last },
            EncoderAction::ReceivePacket,
        ),
        (EncoderStage::Writing { last }, _) => (
            EncoderStage::Receiving { last },
            EncoderAction::ReceivePacket,
        ),
        (_, EncoderReply::Failed(error)) => (
            EncoderStage::Closed,
            EncoderAction::Failed(EncoderError::Codec(error)),
        ),
        (_, EncoderReply::NotFound) => (
            EncoderStage::Closed,
            EncoderAction::Failed(EncoderError::CodecNotFound),
        ),
        (EncoderStage::Initializing, _) => (EncoderStage::FindingCodec, EncoderAction::FindCodec),
        (EncoderStage::FindingCodec, _) => (
            EncoderStage::CreatingContext,
            EncoderAction::CreateContext,
        ),
        (EncoderStage::CreatingContext, _) => (EncoderStage::Opening, EncoderAction::Open),
        (_, _) => (EncoderStage::Ready, EncoderAction::Opened),
    }
}

impl<E> EncoderError<E> {
    /// The words for an error that the encoder found itself; an error of the
    /// codec has its own.
    pub fn text(&self) -> (r: Option<&'static str>)
        ensures
            self is Codec ==> r is None,
            self is CodecNotFound ==> r is Some && r->0@
                == "libx264 not found in this FFmpeg build"@,
    {
        match self {
            EncoderError::Codec(_) => None,
            EncoderError::CodecNotFound => Some("libx264 not found in this FFmpeg build"),
        }
    }
}

/// The count that a frame rate makes.
fn count_of(n: i32) -> (r: u32)
    ensures
        r == as_count(n as int),
{
    assert(n >= 0 ==> n as u32 == n) by (bit_vector);
    assert(n < 0 ==> n as u32 == n + 0x1_0000_0000) by (bit_vector);
    n as u32
}

impl H264Encoder {
    /// Create an encoder for `width` x `height` frames at `fps`.
    pub fn new<E>(width: u32, height: u32, fps: i32) -> (r: (H264Encoder, EncoderAction<E>))
        ensures
            r.0.settings.width == width,
            r.0.settings.height == height,
            r.0.settings.format == Pixel::YUV420P,
            r.0.settings.time_base == (Rational { num: 1, den: fps }),
            r.0.settings.frame_rate == (Rational { num: fps, den: 1 }),
            fps >= 0 ==> r.0.settings.gop == fps,
            r.0.settings.are_for(width, height, fps),
            r.0.stage == EncoderStage::Initializing,
            r.1 == EncoderAction::<E>::Init,
    {
        let options = vec![
            CodecOption { key: "preset", value: "veryfast" },
            CodecOption { key: "tune", value: "zerolatency" },
            CodecOption { key: "crf", value: "23" },
        ];
        let settings = EncoderSettings {
            codec: "libx264",
            width,
            height,
            format: Pixel::YUV420P,
            time_base: Rational { num: 1, den: fps },
            frame_rate: Rational { num: fps, den: 1 },
            gop: count_of(fps),
            max_b_frames: 0,
            options,
        };
        (H264Encoder { settings, stage: EncoderStage::Initializing }, EncoderAction::Init)
    }

    /// Encode one frame: send it, then drain whatever is ready. The first thing
    /// to do is to hand the frame that is returned to the codec.
    pub fn encode<F>(&mut self, frame: F) -> (to_send: F)
        requires
            old(self).stage == EncoderStage::Ready,
        ensures
            final(self).stage == (EncoderStage::Sending { last: false }),
            final(self).settings == old(self).settings,
            to_send == frame,
    {
        self.stage = EncoderStage::Sending { last: false };
        frame
    }

    /// Tell the codec there are no more frames and flush what it still holds.
    /// No frame can be encoded afterwards.
    pub fn finish<E>(self) -> (r: (H264Encoder, EncoderAction<E>))
        requires
            self.stage == EncoderStage::Ready,
        ensures
            r.0.stage == (EncoderStage::Sending { last: true }),
            r.0.settings == self.settings,
            r.1 == EncoderAction::<E>::SendEof,
    {
        (
            H264Encoder { settings: self.settings, stage: EncoderStage::Sending { last: true } },
            EncoderAction::SendEof,
        )
    }

    /// Whether [`H264Encoder::react`] may be called with this reply.
    pub fn awaits<E>(&self, reply: &EncoderReply<E>) -> (r: bool)
        ensures
            r == reply_fits(self.stage, *reply),
    {
        match (self.stage, reply) {
            (EncoderStage::Ready, _) => false,
            (EncoderStage::Closed, _) => false,
            (EncoderStage::FindingCodec, EncoderReply::Done) => true,
            (EncoderStage::FindingCodec, EncoderReply::NotFound) => true,
            (EncoderStage::FindingCodec, _) => false,
            (EncoderStage::Receiving { .. }, EncoderReply::Packet(_)) => true,
            (EncoderStage::Receiving { .. }, EncoderReply::Failed(_)) => true,
            (EncoderStage::Receiving { .. }, _) => false,
            (_, EncoderReply::Done) => true,
            (_, EncoderReply::Failed(_)) => true,
            (_, _) => false,
        }
    }

    /// Take what came of the last action and say what follows.
    pub fn react<E>(&mut self, reply: EncoderReply<E>) -> (action: EncoderAction<E>)
        requires
            reply_fits(old(self).stage, reply),
        ensures
            (final(self).stage, action) == reaction(old(self).stage, reply),
            final(self).settings == old(self).settings,
    {
        match self.stage {
            EncoderStage::Receiving { last } => self.drain(last, reply),
            EncoderStage::Sending { last } | EncoderStage::Writing { last } => match reply {
                EncoderReply::Failed(error) => {
                    self.stage = if last {
                        EncoderStage::Closed
                    } else {
                        EncoderStage::Ready
                    };
                    EncoderAction::Failed(EncoderError::Codec(error))
                },
                _ => {
                    self.stage = EncoderStage::Receiving { last };
                    EncoderAction::ReceivePacket
                },
            },
            stage => match reply {
                EncoderReply::Failed(error) => {
                    self.stage = EncoderStage::Closed;
                    EncoderAction::Failed(EncoderError::Codec(error))
                },
                EncoderReply::NotFound => {
                    self.stage = EncoderStage::Closed;
                    EncoderAction::Failed(EncoderError::CodecNotFound)
                },
                _ => match stage {
                    EncoderStage::Initializing => {
                        self.stage = EncoderStage::FindingCodec;
                        EncoderAction::FindCodec
                    },
                    EncoderStage::FindingCodec => {
                        self.stage = EncoderStage::CreatingContext;
                        EncoderAction::CreateContext
                    },
                    EncoderStage::CreatingContext => {
                        self.stage = EncoderStage::Opening;
                        EncoderAction::Open
                    },
                    _ => {
                        self.stage = EncoderStage::Ready;
                        EncoderAction::Opened
                    },
                },
            },
        }
    }

    /// Pull every packet the codec currently has ready and write it out. A
    /// refusal means "stop pulling for now", and is no failure.
    fn drain<E>(&mut self, last: bool, reply: EncoderReply<E>) -> (action: EncoderAction<E>)
        requires
            old(self).stage == (EncoderStage::Receiving { last }),
        ensures
            (final(self).stage, action) == reaction(old(self).stage, reply),
            final(self).settings == old(self).settings,
    {
        match reply {
            EncoderReply::Failed(_) => {
                if last {
                    self.stage = EncoderStage::Closed;
                    EncoderAction::Finished
                } else {
                    self.stage = EncoderStage::Ready;
                    EncoderAction::Encoded
                }
            },
            EncoderReply::Packet(Some(data)) => {
                self.stage = EncoderStage::Writing { last };
                EncoderAction::Write(data)
            },
            _ => EncoderAction::ReceivePacket,
        }
    }
}

/// The stage after a sequence of replies.
pub open spec fn stage_after<E>(stage: EncoderStage, replies: Seq<EncoderReply<E>>) -> EncoderStage
    decreases replies.len(),
{
    if replies.len() == 0 {
        stage
    } else {
        reaction(stage_after(stage, replies.drop_last()), replies.last()).0
    }
}

/// Whether every reply of a sequence fits the stage at which it comes.
pub open spec fn replies_fit<E>(stage: EncoderStage, replies: Seq<EncoderReply<E>>) -> bool
    decreases replies.len(),
{
    replies.len() > 0 ==> {
        &&& replies_fit(stage, replies.drop_last())
        &&& reply_fits(stage_after(stage, replies.drop_last()), replies.last())
    }
}

/// The bytes that an action asks to be written.
pub open spec fn bytes_of_action<E>(action: EncoderAction<E>) -> Seq<u8> {
    match action {
        EncoderAction::Write(data) => data@,
        _ => Seq::empty(),
    }
}

/// The bytes that a reply brings out of the codec.
pub open spec fn bytes_of_reply<E>(reply: EncoderReply<E>) -> Seq<u8> {
    match reply {
        EncoderReply::Packet(Some(data)) => data@,
        _ => Seq::empty(),
    }
}

/// All bytes that are written in the course of a sequence of replies, in order.
pub open spec fn written<E>(stage: EncoderStage, replies: Seq<EncoderReply<E>>) -> Seq<u8>
    decreases replies.len(),
{
    if replies.len() == 0 {
        Seq::empty()
    } else {
        written(stage, replies.drop_last()) + bytes_of_action(
            reaction(stage_after(stage, replies.drop_last()), replies.last()).1,
        )
    }
}

/// The data of all packets in a sequence of replies, in order.
pub open spec fn emitted<E>(replies: Seq<EncoderReply<E>>) -> Seq<u8>
    decreases replies.len(),
{
    if replies.len() == 0 {
        Seq::empty()
    } else {
        emitted(replies.drop_last()) + bytes_of_reply(replies.last())
    }
}

/// The output is the packets: whatever the codec emits is written, once, in the
/// order in which it comes out, and nothing else is. So concatenating what is
/// written gives the stream that the codec produced.
pub proof fn law_output_is_the_packets<E>(stage: EncoderStage, replies: Seq<EncoderReply<E>>)
    requires
        replies_fit(stage, replies),
    ensures
        written(stage, replies) == emitted(replies),
    decreases replies.len(),
{
    if replies.len() > 0 {
        law_output_is_the_packets(stage, replies.drop_last());
    }
}

/// Whether an encoder has been finished, or is being finished.
pub open spec fn is_over(stage: EncoderStage) -> bool {
    match stage {
        EncoderStage::Sending { last }
        | EncoderStage::Receiving { last }
        | EncoderStage::Writing { last } => last,
        EncoderStage::Closed => true,
        _ => false,
    }
}

/// Once an encoder is being finished it takes no more frames, whatever comes of
/// the flush.
pub proof fn law_no_frame_after_finish<E>(stage: EncoderStage, replies: Seq<EncoderReply<E>>)
    requires
        is_over(stage),
        replies_fit(stage, replies),
    ensures
        is_over(stage_after(stage, replies)),
        stage_after(stage, replies) != EncoderStage::Ready,
    decreases replies.len(),
{
    if replies.len() > 0 {
        law_no_frame_after_finish(stage, replies.drop_last());
    }
}

/// Whether a call that sends a frame, or the end of all frames, is under way.
pub open spec fn is_sending_or_draining(stage: EncoderStage) -> bool {
    stage is Sending || stage is Receiving || stage is Writing
}

/// Encoding a frame ends with the encoder ready for the next one: a failed
/// write, or a frame that the codec refuses, does not close it.
pub proof fn law_encode_leaves_the_encoder_open<E>(replies: Seq<EncoderReply<E>>)
    requires
        replies_fit(EncoderStage::Sending { last: false }, replies),
    ensures
        ({
            let stage = stage_after(EncoderStage::Sending { last: false }, replies);
            !is_over(stage) && (is_sending_or_draining(stage) || stage == EncoderStage::Ready)
        }),
    decreases replies.len(),
{
    if replies.len() > 0 {
        law_encode_leaves_the_encoder_open(replies.drop_last());
    }
}

/// The replies of a drain in which these packets come out and all of their data
/// can be written.
pub open spec fn all_written<E>(packets: Seq<Option<Vec<u8>>>) -> Seq<EncoderReply<E>>
    decreases packets.len(),
{
    if packets.len() == 0 {
        Seq::empty()
    } else {
        let before = all_written(packets.drop_last()).push(EncoderReply::Packet(packets.last()));
        if packets.last() is Some {
            before.push(EncoderReply::Done)
        } else {
            before
        }
    }
}

/// Draining goes on through any number of packets, with or without data, as
/// long as they can be written, and the first refusal ends it with success.
pub proof fn law_drain_ends_with_success<E>(
    last: bool,
    packets: Seq<Option<Vec<u8>>>,
    refusal: E,
)
    ensures
        replies_fit(
            EncoderStage::Receiving { last },
            all_written::<E>(packets).push(EncoderReply::Failed(refusal)),
        ),
        stage_after(EncoderStage::Receiving { last }, all_written::<E>(packets)) == (
        EncoderStage::Receiving { last }),
        reaction(
            stage_after(EncoderStage::Receiving { last }, all_written::<E>(packets)),
            EncoderReply::Failed(refusal),
        ) == (
            idle_stage(last),
            if last {
                EncoderAction::<E>::Finished
            } else {
                EncoderAction::<E>::Encoded
            },
        ),
{
    let replies = all_written::<E>(packets);
    lemma_still_draining::<E>(last, packets);
    assert(replies.push(EncoderReply::Failed(refusal)).drop_last() =~= replies);
}

proof fn lemma_still_draining<E>(last: bool, packets: Seq<Option<Vec<u8>>>)
    ensures
        replies_fit(EncoderStage::Receiving { last }, all_written::<E>(packets)),
        stage_after(EncoderStage::Receiving { last }, all_written::<E>(packets)) == (
        EncoderStage::Receiving { last }),
    decreases packets.len(),
{
    if packets.len() > 0 {
        let stage = EncoderStage::Receiving { last };
        let before = all_written::<E>(packets.drop_last());
        let packet = before.push(EncoderReply::Packet(packets.last()));
        lemma_still_draining::<E>(last, packets.drop_last());
        assert(packet.drop_last() =~= before);
        assert(replies_fit(stage, packet));
        if packets.last() is Some {
            assert(packet.push(EncoderReply::Done).drop_last() =~= packet);
            assert(stage_after(stage, packet) == (EncoderStage::Writing { last }));
        }
    }
}

/// Timestamps count frames, and there is one keyframe per second: a frame lasts
/// one unit of the time base, `fps` units make a second, and that is the
/// distance between keyframes.
pub proof fn law_keyframe_every_second(
    settings: EncoderSettings,
    width: u32,
    height: u32,
    fps: i32,
)
    requires
        settings.are_for(width, height, fps),
        fps > 0,
    ensures
        settings.time_base.num * settings.frame_rate.num == settings.time_base.den
            * settings.frame_rate.den,
        settings.gop * settings.time_base.num == settings.time_base.den,
{
    assert(1 * fps == fps * 1) by (nonlinear_arith);
}

} // verus!
