//! Framing of one message per channel: a four-byte length header, then the
//! payload, read until complete or refused as too large.
use vstd::prelude::*;

verus! {

/// What one read from a channel delivered.
pub enum Received {
    /// The peer closed the channel: the read took in nothing.
    Closed,
    /// The bytes that arrived.
    Payload(Vec<u8>),
}

/// A zeroed buffer of `max_size` bytes for one read.
pub fn receive_buffer(max_size: usize) -> (r: Vec<u8>)
    ensures
        r@.len() == max_size,
        forall|i: int| 0 <= i < max_size ==> r@[i] == 0u8,
{
    let mut r: Vec<u8> = Vec::new();
    let mut i: usize = 0;
    while i < max_size
        invariant
            i <= max_size,
            r@.len() == i,
            forall|j: int| 0 <= j < i ==> r@[j] == 0u8,
        decreases max_size - i,
    {
        r.push(0u8);
        i = i + 1;
    }
    r
}

/// Interprets a read that filled the first `n` bytes of `buffer`.
pub fn take_received(buffer: Vec<u8>, n: usize) -> (r: Received)
    requires
        n <= buffer@.len(),
    ensures
        match r {
            Received::Closed => n == 0,
            Received::Payload(p) => n > 0 && p@ == buffer@.take(n as int),
        },
{
    if n == 0 {
        return Received::Closed;
    }
    let mut b = buffer;
    b.truncate(n);
    Received::Payload(b)
}

/// Size of a frame's header: the payload's length, four bytes, most
/// significant first.
pub const HEADER_LEN: usize = 4;

/// The header bytes of a payload of `n` bytes.
#[verifier::opaque]
pub open spec fn header_of(n: u32) -> Seq<u8> {
    seq![(n >> 24u32) as u8, (n >> 16u32) as u8, (n >> 8u32) as u8, n as u8]
}

/// The length a header states.
#[verifier::opaque]
pub open spec fn length_of(b0: u8, b1: u8, b2: u8, b3: u8) -> u32 {
    ((b0 as u32) << 24u32) | ((b1 as u32) << 16u32) | ((b2 as u32) << 8u32) | (b3 as u32)
}

/// The frame that carries `payload`: its header, then the payload itself.
pub open spec fn framed(payload: Seq<u8>) -> Seq<u8> {
    header_of(payload.len() as u32) + payload
}

/// What the bytes received so far amount to.
pub enum FrameRead {
    /// The frame is not complete yet: read more.
    NeedMore,
    /// The header announces more than the reader accepts.
    TooLarge,
    /// The frame's payload, complete.
    Complete(Vec<u8>),
}

/// What a reader that accepts payloads of at most `max_size` bytes makes of
/// the bytes received so far: `None` while it needs more, `Some(None)` when
/// the header announces too much, `Some(Some(p))` once payload `p` is complete.
pub open spec fn frame_view(bytes: Seq<u8>, max_size: nat) -> Option<Option<Seq<u8>>> {
    if bytes.len() < 4 {
        None
    } else {
        let n = length_of(bytes[0], bytes[1], bytes[2], bytes[3]) as nat;
        if n > max_size {
            Some(None)
        } else if bytes.len() < 4 + n {
            None
        } else {
            Some(Some(bytes.subrange(4, 4 + n as int)))
        }
    }
}

proof fn lemma_header_round_trip(n: u32)
    ensures
        header_of(n).len() == 4,
        length_of(header_of(n)[0], header_of(n)[1], header_of(n)[2], header_of(n)[3]) == n,
{
    let b0 = (n >> 24u32) as u8;
    let b1 = (n >> 16u32) as u8;
    let b2 = (n >> 8u32) as u8;
    let b3 = n as u8;
    reveal(header_of);
    reveal(length_of);
    assert(((b0 as u32) << 24u32) | ((b1 as u32) << 16u32) | ((b2 as u32) << 8u32) | (b3 as u32)
        == n) by (bit_vector)
        requires
            b0 == (n >> 24u32) as u8,
            b1 == (n >> 16u32) as u8,
            b2 == (n >> 8u32) as u8,
            b3 == n as u8,
    ;
}

/// The frame that carries `payload`, for one write.
pub fn encode_frame(payload: &Vec<u8>) -> (r: Vec<u8>)
    requires
        payload@.len() <= u32::MAX,
    ensures
        r@ == framed(payload@),
{
    let n = payload.len() as u32;
    let mut r: Vec<u8> = Vec::new();
    r.push((n >> 24u32) as u8);
    r.push((n >> 16u32) as u8);
    r.push((n >> 8u32) as u8);
    r.push(n as u8);
    proof {
        reveal(header_of);
        assert(r@ =~= header_of(n) + payload@.take(0));
    }
    let mut i: usize = 0;
    while i < payload.len()
        invariant
            n == payload@.len(),
            i <= payload@.len(),
            r@ == header_of(n) + payload@.take(i as int),
        decreases payload@.len() - i,
    {
        r.push(payload[i]);
        assert(payload@.take(i + 1) =~= payload@.take(i as int).push(payload@[i as int]));
        assert(r@ =~= header_of(n) + payload@.take(i + 1));
        i = i + 1;
    }
    assert(payload@.take(i as int) =~= payload@);
    r
}

/// What the bytes received so far amount to, for a reader that accepts
/// payloads of at most `max_size` bytes.
pub fn read_frame(bytes: &Vec<u8>, max_size: usize) -> (r: FrameRead)
    ensures
        match r {
            FrameRead::NeedMore => frame_view(bytes@, max_size as nat) is None,
            FrameRead::TooLarge => frame_view(bytes@, max_size as nat) == Some(None::<Seq<u8>>),
            FrameRead::Complete(p) => frame_view(bytes@, max_size as nat) == Some(Some(p@)),
        },
{
    if bytes.len() < HEADER_LEN {
        return FrameRead::NeedMore;
    }
    let n: u32 = ((bytes[0] as u32) << 24u32) | ((bytes[1] as u32) << 16u32) | ((bytes[2] as u32)
        << 8u32) | (bytes[3] as u32);
    proof {
        reveal(length_of);
    }
    if n as usize > max_size {
        return FrameRead::TooLarge;
    }
    let n = n as usize;
    if bytes.len() - HEADER_LEN < n {
        return FrameRead::NeedMore;
    }
    let len = bytes.len();
    let mut p: Vec<u8> = Vec::new();
    let mut i: usize = 0;
    while i < n
        invariant
            len == bytes@.len(),
            bytes@.len() >= 4,
            n <= bytes@.len() - 4,
            i <= n,
            p@ == bytes@.subrange(4, 4 + i as int),
        decreases n - i,
    {
        p.push(bytes[HEADER_LEN + i]);
        assert(p@ =~= bytes@.subrange(4, 4 + i + 1));
        i = i + 1;
    }
    FrameRead::Complete(p)
}

/// What a reader does after one more read.
pub enum ReadOutcome {
    /// The peer closed before sending anything: nothing to answer.
    Closed,
    /// The peer closed in the middle of a frame.
    Truncated,
    /// The frame is not complete yet: read again.
    NeedMore,
    /// The header announces more than the reader accepts.
    TooLarge,
    /// The frame's payload, complete.
    Complete(Vec<u8>),
}

/// The bytes of one frame received so far, read by reads of any size.
pub struct FrameReader {
    bytes: Vec<u8>,
    max_size: usize,
}

impl FrameReader {
    /// The bytes received so far.
    pub closed spec fn received(&self) -> Seq<u8> {
        self.bytes@
    }

    /// The largest payload this reader accepts.
    pub closed spec fn limit(&self) -> nat {
        self.max_size as nat
    }

    /// A reader that has received nothing and accepts payloads of at most
    /// `max_size` bytes.
    pub fn new(max_size: usize) -> (r: FrameReader)
        ensures
            r.received() == Seq::<u8>::empty(),
            r.limit() == max_size,
    {
        FrameReader { bytes: Vec::new(), max_size }
    }

    /// Takes in the result of one read. A close is harmless before any byte
    /// and a truncation after; bytes are appended and the frame judged on all
    /// received so far.
    pub fn feed(&mut self, read: Received) -> (r: ReadOutcome)
        ensures
            final(self).limit() == old(self).limit(),
            match read {
                Received::Closed => {
                    &&& final(self).received() == old(self).received()
                    &&& (old(self).received().len() == 0 ==> r is Closed)
                    &&& (old(self).received().len() > 0 ==> r is Truncated)
                },
                Received::Payload(p) => {
                    &&& final(self).received() == old(self).received() + p@
                    &&& match r {
                        ReadOutcome::NeedMore => frame_view(final(self).received(), old(self).limit())
                            is None,
                        ReadOutcome::TooLarge => frame_view(final(self).received(), old(self).limit())
                            == Some(None::<Seq<u8>>),
                        ReadOutcome::Complete(q) => frame_view(
                            final(self).received(),
                            old(self).limit(),
                        ) == Some(Some(q@)),
                        _ => false,
                    }
                },
            },
    {
        match read {
            Received::Closed => {
                if self.bytes.len() == 0 {
                    ReadOutcome::Closed
                } else {
                    ReadOutcome::Truncated
                }
            },
            Received::Payload(p) => {
                let mut p = p;
                let ghost old_bytes = self.bytes@;
                let ghost pv = p@;
                self.bytes.append(&mut p);
                assert(self.bytes@ == old_bytes + pv);
                match read_frame(&self.bytes, self.max_size) {
                    FrameRead::NeedMore => ReadOutcome::NeedMore,
                    FrameRead::TooLarge => ReadOutcome::TooLarge,
                    FrameRead::Complete(q) => ReadOutcome::Complete(q),
                }
            },
        }
    }
}

/// A frame comes through whole: a reader that has received all of it gets
/// back exactly the payload that was sent when it fits, and refuses it as too
/// large when it does not, so an oversized message never passes for a
/// complete one. Before the whole frame of a fitting payload has arrived,
/// the reader asks for more rather than completing early.
pub proof fn lemma_frame_round_trip(payload: Seq<u8>, max_size: nat, k: nat)
    requires
        payload.len() <= u32::MAX,
    ensures
        payload.len() <= max_size ==> frame_view(framed(payload), max_size) == Some(
            Some(payload),
        ),
        payload.len() > max_size ==> frame_view(framed(payload), max_size) == Some(
            None::<Seq<u8>>,
        ),
        payload.len() <= max_size && k < framed(payload).len() ==> frame_view(
            framed(payload).take(k as int),
            max_size,
        ) is None,
{
    let f = framed(payload);
    let h = header_of(payload.len() as u32);
    lemma_header_round_trip(payload.len() as u32);
    assert(f[0] == h[0] && f[1] == h[1] && f[2] == h[2] && f[3] == h[3]);
    assert(f.subrange(4, 4 + payload.len() as int) =~= payload);
    if k >= 4 && k < f.len() {
        let t = f.take(k as int);
        assert(t[0] == h[0] && t[1] == h[1] && t[2] == h[2] && t[3] == h[3]);
    }
}

} // verus!
