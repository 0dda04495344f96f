//! The host's side of the conversation with the signaling server. It knows
//! about exactly two message shapes, offer and answer.
//!
//! The client decides and the caller performs: every method returns the next
//! thing to do with the socket, and [`SignalingClient::react`] takes what came
//! of it.

use vstd::prelude::*;

verus! {

/// A message that the two peers exchange through the server.
#[derive(Debug)]
pub enum SignalMessage {
    Offer { sdp: String },
    Answer { sdp: String },
}

/// Why a call on the client failed.
#[derive(Debug)]
pub enum SignalingError<E> {
    /// The socket, or the encoding of a message for it, failed.
    Socket(E),
    /// The stream of frames ended while a message was awaited.
    ConnectionClosed,
}

/// What the caller is to do next.
#[derive(Debug)]
pub enum SignalingAction<E> {
    /// Open a socket to this address.
    Open(String),
    /// Send this message as one text frame.
    Send(SignalMessage),
    /// Take the next frame off the socket.
    ReadFrame,
    /// The socket is open.
    Connected,
    /// The message went out.
    Sent,
    /// This message arrived.
    Received(SignalMessage),
    /// The call is over without success.
    Failed(SignalingError<E>),
}

/// What came of an action.
#[derive(Debug)]
pub enum SignalingReply<E> {
    /// The socket was opened, or the message sent.
    Done,
    /// A text frame arrived; it holds a message, or something unparseable.
    Text(Option<SignalMessage>),
    /// A frame that is not text arrived (ping, pong, close, binary).
    OtherFrame,
    /// There are no more frames.
    Ended,
    /// The action failed.
    Failed(E),
}

/// What the client is waiting for.
#[derive(Clone, Copy, Debug, PartialEq, Eq, Structural)]
pub enum SignalingStage {
    Opening,
    Idle,
    Sending,
    Reading,
    /// The socket never opened.
    Unconnected,
}

/// A connection to the signaling server.
#[derive(Debug)]
pub struct SignalingClient {
    pub stage: SignalingStage,
}

/// Whether `reply` can be what came of the action that `stage` waits for.
pub open spec fn reply_fits<E>(stage: SignalingStage, reply: SignalingReply<E>) -> bool {
    match stage {
        SignalingStage::Opening | SignalingStage::Sending => reply is Done || reply is Failed,
        SignalingStage::Reading => reply !is Done,
        SignalingStage::Idle | SignalingStage::Unconnected => false,
    }
}

/// A frame that does not end the wait for a message: one that is not text, or
/// that is not a message.
pub open spec fn is_skipped<E>(reply: SignalingReply<E>) -> bool {
    reply is OtherFrame || reply == SignalingReply::<E>::Text(None)
}

/// The stage and the action that follow a reply.
pub open spec fn reaction<E>(stage: SignalingStage, reply: SignalingReply<E>) -> (
    SignalingStage,
    SignalingAction<E>,
) {
    match reply {
        SignalingReply::Done => (
            SignalingStage::Idle,
            if stage == SignalingStage::Opening {
                SignalingAction::Connected
            } else {
                SignalingAction::Sent
            },
        ),
        SignalingReply::Text(Some(message)) => (
            SignalingStage::Idle,
            SignalingAction::Received(message),
        ),
        SignalingReply::Text(None) | SignalingReply::OtherFrame => (
            SignalingStage::Reading,
            SignalingAction::ReadFrame,
        ),
        SignalingReply::Ended => (
            SignalingStage::Idle,
            SignalingAction::Failed(SignalingError::ConnectionClosed),
        ),
        SignalingReply::Failed(error) => (
            if stage == SignalingStage::Opening {
                SignalingStage::Unconnected
            } else {
                SignalingStage::Idle
            },
            SignalingAction::Failed(SignalingError::Socket(error)),
        ),
    }
}

/// Whether `action` is to open a socket to `url`.
pub open spec fn opens<E>(url: Seq<char>, action: SignalingAction<E>) -> bool {
    action matches SignalingAction::Open(address) && address@ == url
}

/// Whether `action` is to send `msg`.
pub open spec fn sends<E>(msg: SignalMessage, action: SignalingAction<E>) -> bool {
    action == SignalingAction::<E>::Send(msg)
}

impl<E> SignalingError<E> {
    /// The words for an error that the client found itself; an error of the
    /// socket has its own.
    pub fn text(&self) -> (r: Option<&'static str>)
        ensures
            self is Socket ==> r is None,
            self is ConnectionClosed ==> r is Some && r->0@
                == "signaling connection closed before a message arrived"@,
    {
        match self {
            SignalingError::Socket(_) => None,
            SignalingError::ConnectionClosed => Some(
                "signaling connection closed before a message arrived",
            ),
        }
    }
}

impl SignalingClient {
    /// Start a client by opening a socket to `url`.
    pub fn connect<E>(url: &str) -> (r: (SignalingClient, SignalingAction<E>))
        ensures
            opens(url@, r.1),
            r.0.stage == SignalingStage::Opening,
            r.1 matches SignalingAction::Open(address) && address@ == url@,
    {
        (
            SignalingClient { stage: SignalingStage::Opening },
            SignalingAction::Open(url.to_owned()),
        )
    }

    /// Send one message.
    pub fn send<E>(&mut self, msg: SignalMessage) -> (action: SignalingAction<E>)
        requires
            old(self).stage == SignalingStage::Idle,
        ensures
            sends(msg, action),
            final(self).stage == SignalingStage::Sending,
            action == SignalingAction::<E>::Send(msg),
    {
        self.stage = SignalingStage::Sending;
        SignalingAction::Send(msg)
    }

    /// Wait for the next message. Anything that is not a text frame, or not a
    /// message, is skipped rather than treated as an error.
    pub fn recv<E>(&mut self) -> (action: SignalingAction<E>)
        requires
            old(self).stage == SignalingStage::Idle,
        ensures
            final(self).stage == SignalingStage::Reading,
            action == SignalingAction::<E>::ReadFrame,
    {
        self.stage = SignalingStage::Reading;
        SignalingAction::ReadFrame
    }

    /// Whether [`SignalingClient::react`] may be called with this reply.
    pub fn awaits<E>(&self, reply: &SignalingReply<E>) -> (r: bool)
        ensures
            r == reply_fits(self.stage, *reply),
    {
        match self.stage {
            SignalingStage::Opening | SignalingStage::Sending => match reply {
                SignalingReply::Done | SignalingReply::Failed(_) => true,
                _ => false,
            },
            SignalingStage::Reading => match reply {
                SignalingReply::Done => false,
                _ => true,
            },
            SignalingStage::Idle | SignalingStage::Unconnected => false,
        }
    }

    /// Take what came of the last action and say what follows.
    pub fn react<E>(&mut self, reply: SignalingReply<E>) -> (action: SignalingAction<E>)
        requires
            reply_fits(old(self).stage, reply),
        ensures
            (final(self).stage, action) == reaction(old(self).stage, reply),
    {
        let opening = self.stage == SignalingStage::Opening;
        match reply {
            SignalingReply::Done => {
                self.stage = SignalingStage::Idle;
                if opening {
                    SignalingAction::Connected
                } else {
                    SignalingAction::Sent
                }
            },
            SignalingReply::Text(Some(message)) => {
                self.stage = SignalingStage::Idle;
                SignalingAction::Received(message)
            },
            SignalingReply::Text(None) | SignalingReply::OtherFrame => {
                self.stage = SignalingStage::Reading;
                SignalingAction::ReadFrame
            },
            SignalingReply::Ended => {
                self.stage = SignalingStage::Idle;
                SignalingAction::Failed(SignalingError::ConnectionClosed)
            },
            SignalingReply::Failed(error) => {
                self.stage = if opening {
                    SignalingStage::Unconnected
                } else {
                    SignalingStage::Idle
                };
                SignalingAction::Failed(SignalingError::Socket(error))
            },
        }
    }
}

/// The stage after a sequence of replies.
pub open spec fn stage_after<E>(stage: SignalingStage, replies: Seq<SignalingReply<E>>) -> SignalingStage
    decreases replies.len(),
{
    if replies.len() == 0 {
        stage
    } else {
        reaction(stage_after(stage, replies.drop_last()), replies.last()).0
    }
}

/// Whether every reply of a sequence fits the stage at which it comes.
pub open spec fn replies_fit<E>(stage: SignalingStage, replies: Seq<SignalingReply<E>>) -> bool {
    forall|n: int|
        0 <= n < replies.len() ==> reply_fits(
            stage_after(stage, replies.take(n)),
            #[trigger] replies[n],
        )
}

/// Waiting for a message goes on through any number of other frames, and ends
/// with the first frame that is a message, with the first failure, or with the
/// end of the stream: the frames before it have no influence on what is
/// returned.
pub proof fn law_recv_takes_the_first_message<E>(
    skipped: Seq<SignalingReply<E>>,
    last: SignalingReply<E>,
)
    requires
        forall|i: int| 0 <= i < skipped.len() ==> is_skipped(#[trigger] skipped[i]),
        reply_fits(SignalingStage::Reading, last),
        !is_skipped(last),
    ensures
        replies_fit(SignalingStage::Reading, skipped.push(last)),
        stage_after(SignalingStage::Reading, skipped) == SignalingStage::Reading,
        stage_after(SignalingStage::Reading, skipped.push(last)) == SignalingStage::Idle,
        reaction(stage_after(SignalingStage::Reading, skipped), last).1 == (match last {
            SignalingReply::Text(Some(message)) => SignalingAction::Received(message),
            SignalingReply::Failed(error) => SignalingAction::Failed(SignalingError::Socket(error)),
            _ => SignalingAction::Failed(SignalingError::ConnectionClosed),
        }),
{
    let all = skipped.push(last);
    assert(all.drop_last() =~= skipped);
    assert forall|n: int| 0 <= n <= skipped.len() implies #[trigger] stage_after(
        SignalingStage::Reading,
        all.take(n),
    ) == SignalingStage::Reading by {
        lemma_still_reading(skipped, n);
        assert(all.take(n) =~= skipped.take(n));
    }
    assert(all.take(skipped.len() as int) =~= skipped);
    assert forall|n: int| 0 <= n < all.len() implies reply_fits(
        stage_after(SignalingStage::Reading, all.take(n)),
        #[trigger] all[n],
    ) by {
        assert(stage_after(SignalingStage::Reading, all.take(n)) == SignalingStage::Reading);
        if n < skipped.len() {
            assert(all[n] == skipped[n]);
        }
    }
}

proof fn lemma_still_reading<E>(skipped: Seq<SignalingReply<E>>, n: int)
    requires
        forall|i: int| 0 <= i < skipped.len() ==> is_skipped(#[trigger] skipped[i]),
        0 <= n <= skipped.len(),
    ensures
        stage_after(SignalingStage::Reading, skipped.take(n)) == SignalingStage::Reading,
    decreases n,
{
    if n > 0 {
        lemma_still_reading(skipped, n - 1);
        assert(skipped.take(n).drop_last() =~= skipped.take(n - 1));
        assert(is_skipped(skipped[n - 1]));
    }
}

/// A message ends a wait only if it arrived: while waiting, the client never
/// reports a message other than the one in the frame before it.
pub proof fn law_received_messages_arrived<E>(
    stage: SignalingStage,
    reply: SignalingReply<E>,
    message: SignalMessage,
)
    requires
        reply_fits(stage, reply),
        reaction(stage, reply).1 == SignalingAction::<E>::Received(message),
    ensures
        stage == SignalingStage::Reading,
        reply == SignalingReply::<E>::Text(Some(message)),
{
}

} // verus!
