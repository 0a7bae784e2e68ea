//! Frames on a byte stream.
//!
//! A frame is a header of two bytes, the payload's length with the high byte
//! first, followed by the payload. A reader therefore knows where each
//! message ends, however the stream was cut into reads, and can step over a
//! payload that it cannot decode.

use vstd::prelude::*;

verus! {

/// The number of header bytes in front of each payload.
pub const HEADER_LEN: usize = 2;

/// The longest payload that a header can announce.
pub const MAX_PAYLOAD: usize = 65535;

/// Why a payload could not be framed.
#[derive(Debug, PartialEq, Eq, Clone, Copy, Structural)]
pub enum FrameError {
    /// The payload is longer than `MAX_PAYLOAD` bytes.
    TooLong,
}

/// The two header bytes for a payload of `len` bytes.
pub open spec fn header_of(len: nat) -> Seq<u8> {
    seq![(len / 256) as u8, (len % 256) as u8]
}

/// The bytes that carry `payload` on the wire.
pub open spec fn frame_of(payload: Seq<u8>) -> Seq<u8> {
    header_of(payload.len()) + payload
}

/// The payload length that the first two bytes announce.
pub open spec fn announced_len(bytes: Seq<u8>) -> nat {
    (bytes[0] as nat) * 256 + (bytes[1] as nat)
}

/// Whether `bytes` start with a whole frame.
pub open spec fn has_frame(bytes: Seq<u8>) -> bool {
    bytes.len() >= 2 && bytes.len() >= 2 + announced_len(bytes)
}

/// The payload of the frame that `bytes` start with.
pub open spec fn first_payload(bytes: Seq<u8>) -> Seq<u8> {
    bytes.subrange(2, 2 + announced_len(bytes) as int)
}

/// What follows the frame that `bytes` start with.
pub open spec fn after_first(bytes: Seq<u8>) -> Seq<u8> {
    bytes.subrange(2 + announced_len(bytes) as int, bytes.len() as int)
}

/// The payloads of all whole frames at the start of `bytes`, in order.
pub open spec fn frames(bytes: Seq<u8>) -> Seq<Seq<u8>>
    decreases bytes.len(),
{
    if has_frame(bytes) {
        seq![first_payload(bytes)] + frames(after_first(bytes))
    } else {
        Seq::empty()
    }
}

/// The bytes that remain once all whole frames are taken off the start of
/// `bytes`: the beginning of a frame that has not arrived in full, or nothing.
pub open spec fn leftover(bytes: Seq<u8>) -> Seq<u8>
    decreases bytes.len(),
{
    if has_frame(bytes) {
        leftover(after_first(bytes))
    } else {
        bytes
    }
}

/// The contents of a row of payloads.
pub open spec fn payloads_view(payloads: Seq<Vec<u8>>) -> Seq<Seq<u8>> {
    payloads.map_values(|p: Vec<u8>| p@)
}

/// Puts the header in front of a payload. A payload that no header can
/// announce is refused.
pub fn encode_frame(payload: &[u8]) -> (r: Result<Vec<u8>, FrameError>)
    ensures
        payload@.len() <= MAX_PAYLOAD ==> r is Ok && r->Ok_0@ == frame_of(payload@),
        payload@.len() > MAX_PAYLOAD ==> r == Err::<Vec<u8>, FrameError>(FrameError::TooLong),
{
    let len: usize = payload.len();
    if len > MAX_PAYLOAD {
        return Err(FrameError::TooLong);
    }
    let mut frame: Vec<u8> = Vec::new();
    frame.push((len / 256) as u8);
    frame.push((len % 256) as u8);
    frame.extend_from_slice(payload);
    assert(frame@ =~= frame_of(payload@));
    Ok(frame)
}

/// The bytes that have arrived on a connection and belong to no frame handed
/// out yet.
#[derive(Debug)]
pub struct FrameBuffer {
    bytes: Vec<u8>,
}

impl View for FrameBuffer {
    type V = Seq<u8>;

    closed spec fn view(&self) -> Seq<u8> {
        self.bytes@
    }
}

impl FrameBuffer {
    /// A buffer that holds nothing.
    pub fn new() -> (r: FrameBuffer)
        ensures
            r@ == Seq::<u8>::empty(),
    {
        FrameBuffer { bytes: Vec::new() }
    }

    /// How many bytes wait in the buffer.
    pub fn len(&self) -> (n: usize)
        ensures
            n == self@.len(),
    {
        self.bytes.len()
    }

    /// Appends what one read returned.
    pub fn extend(&mut self, chunk: &[u8])
        ensures
            final(self)@ == old(self)@ + chunk@,
    {
        self.bytes.extend_from_slice(chunk);
        assert(self.bytes@ =~= old(self)@ + chunk@);
    }

    /// Takes the first frame off the buffer if it has arrived in full, and
    /// returns its payload. Otherwise the buffer stays as it is.
    pub fn next_frame(&mut self) -> (r: Option<Vec<u8>>)
        ensures
            has_frame(old(self)@) ==> r is Some && r->Some_0@ == first_payload(old(self)@)
                && final(self)@ == after_first(old(self)@),
            !has_frame(old(self)@) ==> r is None && final(self)@ == old(self)@,
    {
        if self.bytes.len() < HEADER_LEN {
            return None;
        }
        let announced: usize = (self.bytes[0] as usize) * 256 + (self.bytes[1] as usize);
        if self.bytes.len() - HEADER_LEN < announced {
            return None;
        }
        let rest = self.bytes.split_off(HEADER_LEN + announced);
        let payload = self.bytes.split_off(HEADER_LEN);
        self.bytes = rest;
        assert(payload@ =~= first_payload(old(self)@));
        assert(self.bytes@ =~= after_first(old(self)@));
        Some(payload)
    }

    /// Takes every frame that has arrived in full off the buffer and returns
    /// the payloads in the order of arrival.
    pub fn drain(&mut self) -> (r: Vec<Vec<u8>>)
        ensures
            payloads_view(r@) == frames(old(self)@),
            final(self)@ == leftover(old(self)@),
    {
        let mut out: Vec<Vec<u8>> = Vec::new();
        assert(payloads_view(out@) =~= Seq::<Seq<u8>>::empty());
        loop
            invariant
                payloads_view(out@) + frames(self@) == frames(old(self)@),
                leftover(self@) == leftover(old(self)@),
            ensures
                payloads_view(out@) == frames(old(self)@),
                self@ == leftover(old(self)@),
            decreases self@.len(),
        {
            let ghost before = self@;
            let ghost taken = payloads_view(out@);
            match self.next_frame() {
                Some(payload) => {
                    out.push(payload);
                    assert(payloads_view(out@) =~= taken.push(payload@));
                    assert(taken.push(payload@) + frames(self@) =~= taken + frames(before));
                },
                None => {
                    assert(taken + frames(before) =~= taken);
                    break ;
                },
            }
        }
        out
    }
}

/// A frame followed by anything is read back as its payload, and what
/// followed it is what remains.
pub proof fn lemma_frame_round_trip(payload: Seq<u8>, rest: Seq<u8>)
    requires
        payload.len() <= MAX_PAYLOAD,
    ensures
        has_frame(frame_of(payload) + rest),
        first_payload(frame_of(payload) + rest) == payload,
        after_first(frame_of(payload) + rest) == rest,
{
    let bytes = frame_of(payload) + rest;
    let n = payload.len();
    assert(bytes[0] == (n / 256) as u8);
    assert(bytes[1] == (n % 256) as u8);
    assert(announced_len(bytes) == n);
    assert(first_payload(bytes) =~= payload);
    assert(after_first(bytes) =~= rest);
}

/// A stream that is one frame after another, with or without the start of a
/// further frame behind them, is read back as the payloads in order.
pub proof fn lemma_frames_of_frame(payload: Seq<u8>, rest: Seq<u8>)
    requires
        payload.len() <= MAX_PAYLOAD,
    ensures
        frames(frame_of(payload) + rest) == seq![payload] + frames(rest),
        leftover(frame_of(payload) + rest) == leftover(rest),
{
    lemma_frame_round_trip(payload, rest);
}

/// A frame that has not arrived in full gives no payload: every proper
/// beginning of a frame is left waiting.
pub proof fn lemma_partial_frame_waits(payload: Seq<u8>, k: int)
    requires
        payload.len() <= MAX_PAYLOAD,
        0 <= k < frame_of(payload).len(),
    ensures
        !has_frame(frame_of(payload).subrange(0, k)),
        frames(frame_of(payload).subrange(0, k)) == Seq::<Seq<u8>>::empty(),
        leftover(frame_of(payload).subrange(0, k)) == frame_of(payload).subrange(0, k),
{
    let whole = frame_of(payload);
    let part = whole.subrange(0, k);
    let n = payload.len();
    if k >= 2 {
        assert(part[0] == whole[0]);
        assert(part[1] == whole[1]);
        assert(whole[0] == (n / 256) as u8);
        assert(whole[1] == (n % 256) as u8);
        assert(announced_len(part) == n);
    }
}

/// How the stream is cut into reads does not matter: taking the frames of
/// what has arrived and then those of the rest with the next read gives the
/// frames of the whole.
pub proof fn lemma_frames_across_reads(first: Seq<u8>, second: Seq<u8>)
    ensures
        frames(first + second) == frames(first) + frames(leftover(first) + second),
        leftover(first + second) == leftover(leftover(first) + second),
    decreases first.len(),
{
    if has_frame(first) {
        let whole = first + second;
        assert(whole[0] == first[0]);
        assert(whole[1] == first[1]);
        assert(has_frame(whole));
        assert(first_payload(whole) =~= first_payload(first));
        assert(after_first(whole) =~= after_first(first) + second);
        lemma_frames_across_reads(after_first(first), second);
        assert(frames(whole) =~= frames(first) + frames(leftover(first) + second));
    } else {
        assert(frames(first + second) =~= frames(first) + frames(leftover(first) + second));
    }
}

} // verus!
