//! Laws on what an encoder does with its codec.

use crate::encoder::{
    reaction, replies_fit, reply_fits, stage_after, EncoderAction, EncoderError, EncoderReply,
    EncoderStage,
};
use vstd::prelude::*;

verus! {

/// An encoder is opened in four steps: it is ready exactly after four replies
/// that say "done", and with each of them it asks for the next step, which is to
/// find the codec, to create a context, to open it, and nothing more.
pub proof fn law_encoder_opens_in_four_steps<E>(replies: Seq<EncoderReply<E>>)
    requires
        replies_fit(EncoderStage::Initializing, replies),
    ensures
        replies.len() <= 4,
        stage_after(EncoderStage::Initializing, replies) == EncoderStage::Ready <==> replies.len()
            == 4 && replies.last() is Done,
        replies.len() > 0 && replies.last() is Done ==> ({
            let action = reaction(
                stage_after(EncoderStage::Initializing, replies.drop_last()),
                replies.last(),
            ).1;
            &&& replies.len() == 1 ==> action is FindCodec
            &&& replies.len() == 2 ==> action is CreateContext
            &&& replies.len() == 3 ==> action is Open
            &&& replies.len() == 4 ==> action is Opened
        }),
        forall|i: int| 0 <= i < replies.len() - 1 ==> (#[trigger] replies[i]) is Done,
{
    lemma_opening(replies);
    if replies.len() > 0 {
        lemma_opening(replies.drop_last());
    }
}

proof fn lemma_opening<E>(replies: Seq<EncoderReply<E>>)
    requires
        replies_fit(EncoderStage::Initializing, replies),
    ensures
        match stage_after(EncoderStage::Initializing, replies) {
            EncoderStage::Initializing => replies.len() == 0,
            EncoderStage::FindingCodec => replies.len() == 1,
            EncoderStage::CreatingContext => replies.len() == 2,
            EncoderStage::Opening => replies.len() == 3,
            EncoderStage::Ready => replies.len() == 4,
            EncoderStage::Closed => 0 < replies.len() <= 4 && !(replies.last() is Done),
            _ => false,
        },
        !(stage_after(EncoderStage::Initializing, replies) is Closed) && replies.len() > 0
            ==> replies.last() is Done,
        forall|i: int| 0 <= i < replies.len() - 1 ==> (#[trigger] replies[i]) is Done,
    decreases replies.len(),
{
    if replies.len() > 0 {
        let before = replies.drop_last();
        lemma_opening(before);
        assert forall|i: int| 0 <= i < replies.len() - 1 implies (#[trigger] replies[i]) is Done by {
            assert(replies[i] == before[i]);
        }
    }
}

/// A frame, or the end of all frames, is followed by a drain: once it is sent the
/// codec is asked for a packet. A packet's data is written whole, a packet
/// without data is skipped, and the codec is asked for the next packet.
pub proof fn law_packets_are_pulled_and_written<E>(last: bool, data: Vec<u8>)
    ensures
        reaction(EncoderStage::Sending { last }, EncoderReply::<E>::Done) == (
            (EncoderStage::Receiving { last }),
            EncoderAction::<E>::ReceivePacket,
        ),
        reaction(
            EncoderStage::Receiving { last },
            EncoderReply::<E>::Packet(Some(data)),
        ).1 matches EncoderAction::Write(bytes) && bytes@ == data@,
        reaction(EncoderStage::Receiving { last }, EncoderReply::<E>::Packet(Some(data))).0 == (
        EncoderStage::Writing { last }),
        reaction(EncoderStage::Receiving { last }, EncoderReply::<E>::Packet(None)) == (
            (EncoderStage::Receiving { last }),
            EncoderAction::<E>::ReceivePacket,
        ),
        reaction(EncoderStage::Writing { last }, EncoderReply::<E>::Done) == (
            (EncoderStage::Receiving { last }),
            EncoderAction::<E>::ReceivePacket,
        ),
{
}

/// Each outcome is reported on one ground: a frame is encoded, or an encoder
/// finished, exactly when the codec has no more packets for it; an encoder is
/// open exactly when the codec was opened; and a call fails exactly when there is
/// no such codec, or when something failed other than to get a packet.
pub proof fn law_outcomes_have_their_grounds<E>(stage: EncoderStage, reply: EncoderReply<E>)
    requires
        reply_fits(stage, reply),
    ensures
        reaction(stage, reply).1 is Encoded <==> stage == (EncoderStage::Receiving { last: false })
            && reply is Failed,
        reaction(stage, reply).1 is Finished <==> stage == (EncoderStage::Receiving { last: true })
            && reply is Failed,
        reaction(stage, reply).1 is Opened <==> stage == EncoderStage::Opening && reply is Done,
        reaction(stage, reply).1 is Failed <==> reply is NotFound || (reply is Failed && !(
        stage is Receiving)),
{
}

/// A failure is reported as it came, and a missing codec as such.
pub proof fn law_failures_are_reported_as_they_came<E>(stage: EncoderStage, error: E)
    ensures
        reply_fits(stage, EncoderReply::Failed(error)) && !(stage is Receiving) ==> reaction(
            stage,
            EncoderReply::Failed(error),
        ).1 == EncoderAction::Failed(EncoderError::Codec(error)),
        reply_fits(stage, EncoderReply::<E>::NotFound) ==> reaction(
            stage,
            EncoderReply::<E>::NotFound,
        ) == (
            EncoderStage::Closed,
            EncoderAction::<E>::Failed(EncoderError::CodecNotFound),
        ),
{
}

/// After every call the encoder can be used as before it: a call that encodes a
/// frame, however it ends, leaves it ready for the next; one that finishes it, or
/// fails to open it, leaves it closed.
pub proof fn law_calls_leave_the_right_stage<E>(stage: EncoderStage, reply: EncoderReply<E>)
    requires
        reply_fits(stage, reply),
        reaction(stage, reply).1 is Encoded || reaction(stage, reply).1 is Finished || reaction(
            stage,
            reply,
        ).1 is Failed || reaction(stage, reply).1 is Opened,
    ensures
        reaction(stage, reply).0 == (match stage {
            EncoderStage::Sending { last }
            | EncoderStage::Receiving { last }
            | EncoderStage::Writing { last } => if last {
                EncoderStage::Closed
            } else {
                EncoderStage::Ready
            },
            _ => if reply is Done {
                EncoderStage::Ready
            } else {
                EncoderStage::Closed
            },
        }),
{
}

/// An encoder awaits every outcome of its steps, and none when no call is under
/// way.
pub proof fn law_encoder_awaits_every_outcome<E>(stage: EncoderStage, reply: EncoderReply<E>)
    ensures
        reply is Failed ==> (reply_fits(stage, reply) <==> stage != EncoderStage::Ready && stage
            != EncoderStage::Closed && stage != EncoderStage::FindingCodec),
        reply is NotFound ==> (reply_fits(stage, reply) <==> stage == EncoderStage::FindingCodec),
        reply is Packet ==> (reply_fits(stage, reply) <==> stage is Receiving),
        reply is Done ==> (reply_fits(stage, reply) <==> stage != EncoderStage::Ready && stage
            != EncoderStage::Closed && !(stage is Receiving)),
{
}

} // verus!
