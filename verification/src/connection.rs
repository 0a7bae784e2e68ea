//! One connection: the bridge between a socket and the session.
//!
//! A connection owns the bytes that have arrived and not been read as frames
//! yet. It decides what becomes of each read, of each frame once somebody
//! has tried to decode it, and of each message that the session sends out.
//! It never touches roster or game.

use vstd::prelude::*;
use crate::framing::{
    encode_frame, frame_of, frames, leftover, lemma_frames_of_frame, payloads_view, FrameBuffer,
    FrameError, MAX_PAYLOAD,
};
use crate::message::{Message, MessageView};
use crate::player::Id;
use crate::requests::{message_option_view, Recipient, Request, RequestView};

verus! {

/// A connection as mathematics: whose it is, whether it is still served, and
/// the bytes that wait for the rest of their frame.
pub struct ConnectionView {
    pub id: Id,
    pub open: bool,
    pub waiting: Seq<u8>,
}

/// What comes of one read from the socket, as mathematics.
pub enum IntakeView {
    Frames(Seq<Seq<u8>>),
    HangUp(RequestView),
    Nothing,
}

/// What comes of one read from the socket.
#[derive(Debug)]
pub enum Intake {
    /// The payloads of the frames that are now complete, in order of
    /// arrival; there may be none.
    Frames(Vec<Vec<u8>>),
    /// The other side has closed. The connection is served no longer, and
    /// the session is to be told with this request.
    HangUp(Request),
    /// The connection was closed before; the read is of no interest.
    Nothing,
}

impl View for Intake {
    type V = IntakeView;

    open spec fn view(&self) -> IntakeView {
        match self {
            Intake::Frames(payloads) => IntakeView::Frames(payloads_view(payloads@)),
            Intake::HangUp(request) => IntakeView::HangUp(request@),
            Intake::Nothing => IntakeView::Nothing,
        }
    }
}

/// What becomes of a frame, as mathematics.
pub enum FrameActionView {
    Forward(Id, MessageView),
    Discard,
}

/// What becomes of a frame once somebody has tried to decode it.
#[derive(Debug)]
pub enum FrameAction {
    /// The message goes to the session in the name of this player.
    Forward(Id, Message),
    /// The frame is dropped. The connection stays as it is.
    Discard,
}

impl View for FrameAction {
    type V = FrameActionView;

    open spec fn view(&self) -> FrameActionView {
        match self {
            FrameAction::Forward(id, message) => FrameActionView::Forward(*id, message@),
            FrameAction::Discard => FrameActionView::Discard,
        }
    }
}

/// Whether a message for `to` is meant for the player with the number `id`.
pub open spec fn addressed_to(to: Recipient, id: Id) -> bool {
    match to {
        Recipient::One(other) => other == id,
        Recipient::AllBut(other) => other != id,
        Recipient::All => true,
    }
}

impl ConnectionView {
    /// What a read of `chunk` does to a connection: a closed one ignores
    /// it; an empty read closes an open one; anything else is added to the
    /// waiting bytes, and what is left of them behind the last whole frame
    /// goes on waiting.
    pub open spec fn after_read(self, chunk: Seq<u8>) -> ConnectionView {
        if !self.open {
            self
        } else if chunk.len() == 0 {
            ConnectionView { open: false, ..self }
        } else {
            ConnectionView { waiting: leftover(self.waiting + chunk), ..self }
        }
    }

    /// What a read of `chunk` hands on: from a closed connection nothing;
    /// after an empty read the word to the session that the player has left;
    /// otherwise the payloads of all frames that are now whole.
    pub open spec fn intake(self, chunk: Seq<u8>) -> IntakeView {
        if !self.open {
            IntakeView::Nothing
        } else if chunk.len() == 0 {
            IntakeView::HangUp(RequestView::Leave(self.id))
        } else {
            IntakeView::Frames(frames(self.waiting + chunk))
        }
    }

    /// What becomes of a frame: a message that could be decoded goes to the
    /// session while the connection is open; anything else is dropped.
    pub open spec fn frame_action(self, decoded: Option<MessageView>) -> FrameActionView {
        match decoded {
            Some(message) => if self.open {
                FrameActionView::Forward(self.id, message)
            } else {
                FrameActionView::Discard
            },
            None => FrameActionView::Discard,
        }
    }

    /// Whether a message for `to` is written to this connection's socket.
    pub open spec fn accepts(self, to: Recipient) -> bool {
        self.open && addressed_to(to, self.id)
    }
}

/// The state of one connection.
#[derive(Debug)]
pub struct Connection {
    id: Id,
    open: bool,
    inbox: FrameBuffer,
}

impl View for Connection {
    type V = ConnectionView;

    closed spec fn view(&self) -> ConnectionView {
        ConnectionView { id: self.id, open: self.open, waiting: self.inbox@ }
    }
}

impl Connection {
    /// The connection of the player with the number `id`, open, with no
    /// bytes waiting.
    pub fn new(id: Id) -> (r: Connection)
        ensures
            r@ == (ConnectionView { id, open: true, waiting: Seq::empty() }),
    {
        Connection { id, open: true, inbox: FrameBuffer::new() }
    }

    /// The number of the player on the other side.
    pub fn id(&self) -> (r: Id)
        ensures
            r == self@.id,
    {
        self.id
    }

    /// Whether the connection is still served.
    pub fn is_open(&self) -> (r: bool)
        ensures
            r == self@.open,
    {
        self.open
    }

    /// Takes what one read from the socket returned; an empty chunk stands
    /// for the end of the stream.
    pub fn on_read(&mut self, chunk: &[u8]) -> (r: Intake)
        ensures
            final(self)@ == old(self)@.after_read(chunk@),
            r@ == old(self)@.intake(chunk@),
    {
        if !self.open {
            return Intake::Nothing;
        }
        if chunk.len() == 0 {
            self.open = false;
            return Intake::HangUp(Request::Leave(self.id));
        }
        self.inbox.extend(chunk);
        let payloads = self.inbox.drain();
        Intake::Frames(payloads)
    }

    /// Takes note that reading from the socket has failed. The first time
    /// the connection is closed and the word for the session is returned;
    /// after that nothing happens.
    pub fn on_failure(&mut self) -> (r: Option<Request>)
        ensures
            final(self)@ == (ConnectionView { open: false, ..old(self)@ }),
            old(self)@.open ==> r is Some && r->Some_0@ == RequestView::Leave(old(self)@.id),
            !old(self)@.open ==> r is None,
    {
        if self.open {
            self.open = false;
            Some(Request::Leave(self.id))
        } else {
            None
        }
    }

    /// Decides what becomes of a frame, given what decoding it gave: `None`
    /// stands for a payload that is no message. The connection itself is not
    /// changed by any frame, decodable or not.
    pub fn on_frame(&self, decoded: Option<Message>) -> (r: FrameAction)
        ensures
            r@ == self@.frame_action(message_option_view(decoded)),
    {
        match decoded {
            Some(message) => {
                if self.open {
                    FrameAction::Forward(self.id, message)
                } else {
                    FrameAction::Discard
                }
            },
            None => FrameAction::Discard,
        }
    }

    /// Whether a message that the session sends to `to` is written to this
    /// connection's socket.
    pub fn accepts(&self, to: Recipient) -> (r: bool)
        ensures
            r == self@.accepts(to),
    {
        self.open && match to {
            Recipient::One(other) => other == self.id,
            Recipient::AllBut(other) => other != self.id,
            Recipient::All => true,
        }
    }

    /// The bytes to write for a message that the session sends to `to`,
    /// given the message's encoding: the frame around it if the message is
    /// meant for this connection, and nothing if it is not.
    pub fn outgoing(&self, to: Recipient, payload: &[u8]) -> (r: Result<Option<Vec<u8>>, FrameError>)
        ensures
            !self@.accepts(to) ==> r == Ok::<Option<Vec<u8>>, FrameError>(None),
            self@.accepts(to) && payload@.len() <= MAX_PAYLOAD ==> r is Ok
                && r->Ok_0 is Some && r->Ok_0->Some_0@ == frame_of(payload@),
            self@.accepts(to) && payload@.len() > MAX_PAYLOAD ==> r == Err::<
                Option<Vec<u8>>,
                FrameError,
            >(FrameError::TooLong),
    {
        if !self.accepts(to) {
            return Ok(None);
        }
        match encode_frame(payload) {
            Ok(frame) => Ok(Some(frame)),
            Err(error) => Err(error),
        }
    }
}

/// A payload that is no message costs nothing but itself: the connection is
/// as it was, still open if it was open, and a message in the next frame is
/// handed to the session as if nothing had been wrong.
pub proof fn lemma_bad_frame_is_skipped(c: ConnectionView, next: MessageView)
    requires
        c.open,
    ensures
        c.frame_action(None) == FrameActionView::Discard,
        c.frame_action(Some(next)) == FrameActionView::Forward(c.id, next),
{
}

/// Two frames that arrive in one read on an open connection with nothing
/// waiting come out as their two payloads in order, whatever the payloads
/// hold, and nothing is left waiting.
pub proof fn lemma_two_frames_one_read(c: ConnectionView, first: Seq<u8>, second: Seq<u8>)
    requires
        c.open,
        c.waiting.len() == 0,
        first.len() <= MAX_PAYLOAD,
        second.len() <= MAX_PAYLOAD,
    ensures
        c.intake(frame_of(first) + frame_of(second))
            == IntakeView::Frames(seq![first, second]),
        c.after_read(frame_of(first) + frame_of(second)) == c,
{
    let a = frame_of(first);
    let b = frame_of(second);
    let none = Seq::<u8>::empty();
    assert(c.waiting =~= none);
    assert(c.waiting + (a + b) =~= a + b);
    lemma_frames_of_frame(first, b);
    assert(b + none =~= b);
    lemma_frames_of_frame(second, none);
    assert(frames(none) =~= Seq::<Seq<u8>>::empty());
    assert(frames(b) =~= seq![second]);
    assert(frames(a + b) =~= seq![first, second]);
    assert(leftover(none) == none);
}

} // verus!
