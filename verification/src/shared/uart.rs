//! Messages between the stations and the host over UART, and their framing.
//!
//! A message travels as its encoding followed by `"\n\r"`. The receiver
//! collects bytes until what it holds contains a carriage return, then hands
//! everything it holds over as one frame and starts afresh.
use vstd::prelude::*;
use crate::shared::data::MeteoData;

verus! {

/// Capacity of the receive buffer.
pub const BUF_SIZE: usize = 1024;

/// Capacity of the pipe between the reader and the writer.
pub const PIPE_SIZE: usize = 256;

/// Receive FIFO threshold of the UART.
pub const UART_SIZE: usize = 256;

/// End-of-transmission character: carriage return.
pub const AT_CMD: u8 = 0x0D;

/// Line feed, sent before the carriage return that ends a frame.
pub const LINE_FEED: u8 = 0x0A;

/// A message on the UART link.
#[derive(Debug, Clone, Copy, PartialEq, Eq, Structural)]
pub enum UartMessage {
    /// Request for the current weather record.
    AskData,
    /// A weather record.
    Data(MeteoData),
}

/// The bytes sent for one message whose encoding is `payload`.
pub open spec fn spec_frame(payload: Seq<u8>) -> Seq<u8> {
    payload + seq![LINE_FEED, AT_CMD]
}

/// Appends the end-of-frame marker to a message's encoding.
pub fn frame_message(payload: &[u8]) -> (frame: Vec<u8>)
    ensures
        frame@ == spec_frame(payload@),
        frame@.len() == payload@.len() + 2,
        frame@.subrange(0, payload@.len() as int) == payload@,
        frame@[payload@.len() as int] == 0x0Au8,
        frame@[payload@.len() as int + 1] == 0x0Du8,
{
    let mut frame: Vec<u8> = Vec::new();
    let n = payload.len();
    for i in 0..n
        invariant
            n == payload@.len(),
            frame@ == payload@.subrange(0, i as int),
    {
        frame.push(payload[i]);
    }
    frame.push(LINE_FEED);
    frame.push(AT_CMD);
    proof {
        law_frame_is_payload_then_lf_cr(payload@);
    }
    frame
}

/// Whatever its length, a message's encoding is sent whole: the frame is
/// the encoding followed by a line feed and a carriage return.
pub proof fn law_frame_is_payload_then_lf_cr(payload: Seq<u8>)
    ensures
        spec_frame(payload).len() == payload.len() + 2,
        spec_frame(payload).subrange(0, payload.len() as int) == payload,
        spec_frame(payload)[payload.len() as int] == 0x0Au8,
        spec_frame(payload)[payload.len() as int + 1] == 0x0Du8,
{
    assert(spec_frame(payload).subrange(0, payload.len() as int) == payload);
}

/// One receive step: `held` is what the receiver holds, `chunk` what
/// arrived. When the two together contain a carriage return they form a
/// frame and the receiver is left empty; otherwise it keeps them.
pub open spec fn spec_receive(held: Seq<u8>, chunk: Seq<u8>) -> (Seq<u8>, Option<Seq<u8>>) {
    let all = held + chunk;
    if all.contains(AT_CMD) {
        (Seq::empty(), Some(all))
    } else {
        (all, None)
    }
}

/// Whether `bytes` holds `b`.
pub fn contains_byte(bytes: &Vec<u8>, b: u8) -> (r: bool)
    ensures
        r == bytes@.contains(b),
{
    let n = bytes.len();
    for i in 0..n
        invariant
            n == bytes@.len(),
            forall|j: int| 0 <= j < i ==> bytes@[j] != b,
    {
        if bytes[i] == b {
            assert(bytes@[i as int] == b);
            return true;
        }
    }
    false
}

/// Receive side of the UART link: collects bytes into whole frames.
pub struct FrameAssembler {
    held: Vec<u8>,
}

impl View for FrameAssembler {
    type V = Seq<u8>;

    closed spec fn view(&self) -> Seq<u8> {
        self.held@
    }
}

impl FrameAssembler {
    #[verifier::type_invariant]
    closed spec fn fits(self) -> bool {
        self.held@.len() <= BUF_SIZE
    }

    /// An assembler that holds nothing.
    pub fn new() -> (r: FrameAssembler)
        ensures
            r@ == Seq::<u8>::empty(),
    {
        FrameAssembler { held: Vec::new() }
    }

    /// How many more bytes the assembler can take.
    pub fn room(&self) -> (n: usize)
        ensures
            self@.len() <= BUF_SIZE,
            n == BUF_SIZE - self@.len(),
    {
        proof {
            use_type_invariant(self);
        }
        BUF_SIZE - self.held.len()
    }

    /// Takes the bytes of one read; returns the frame they complete, if any.
    pub fn push(&mut self, chunk: &[u8]) -> (frame: Option<Vec<u8>>)
        requires
            old(self)@.len() + chunk@.len() <= BUF_SIZE,
        ensures
            (final(self)@, match frame {
                Some(f) => Some(f@),
                None => None,
            }) == spec_receive(old(self)@, chunk@),
            frame matches Some(f) ==> f@ == old(self)@ + chunk@ && f@.contains(0x0Du8) && final(self)@.len() == 0,
            frame is None ==> final(self)@ == old(self)@ + chunk@ && !final(self)@.contains(0x0Du8),
    {
        let mut all: Vec<u8> = Vec::new();
        std::mem::swap(&mut all, &mut self.held);
        let ghost start = all@;
        let n = chunk.len();
        for i in 0..n
            invariant
                n == chunk@.len(),
                all@ == start + chunk@.subrange(0, i as int),
        {
            all.push(chunk[i]);
        }
        assert(chunk@.subrange(0, n as int) == chunk@);
        if contains_byte(&all, AT_CMD) {
            Some(all)
        } else {
            self.held = all;
            None
        }
    }
}

/// Runs the receiver over a sequence of reads: what it holds at the end and
/// the frames it handed over, in order.
pub open spec fn spec_receive_all(held: Seq<u8>, chunks: Seq<Seq<u8>>) -> (Seq<u8>, Seq<Seq<u8>>)
    decreases chunks.len(),
{
    if chunks.len() == 0 {
        (held, Seq::empty())
    } else {
        let (next, out) = spec_receive(held, chunks[0]);
        let (last, frames) = spec_receive_all(next, chunks.drop_first());
        match out {
            Some(f) => (last, seq![f] + frames),
            None => (last, frames),
        }
    }
}

proof fn lemma_empty_reads(chunks: Seq<Seq<u8>>)
    requires
        chunks.flatten().len() == 0,
    ensures
        spec_receive_all(Seq::empty(), chunks) == (Seq::<u8>::empty(), Seq::<Seq<u8>>::empty()),
    decreases chunks.len(),
{
    if chunks.len() > 0 {
        assert(chunks.flatten() == chunks[0] + chunks.drop_first().flatten());
        assert(Seq::<u8>::empty() + chunks[0] == Seq::<u8>::empty());
        assert(!Seq::<u8>::empty().contains(AT_CMD));
        lemma_empty_reads(chunks.drop_first());
    }
}

proof fn lemma_frame_arrives_from(held: Seq<u8>, chunks: Seq<Seq<u8>>, payload: Seq<u8>)
    requires
        !payload.contains(AT_CMD),
        !held.contains(AT_CMD),
        held + chunks.flatten() == spec_frame(payload),
    ensures
        spec_receive_all(held, chunks) == (Seq::<u8>::empty(), seq![spec_frame(payload)]),
    decreases chunks.len(),
{
    let frame = spec_frame(payload);
    assert(frame[frame.len() - 1] == AT_CMD);
    if chunks.len() == 0 {
        assert(held == frame);
        assert(held.contains(AT_CMD));
    } else {
        let c = chunks[0];
        let rest = chunks.drop_first();
        assert(chunks.flatten() == c + rest.flatten());
        let all = held + c;
        assert(held + chunks.flatten() == all + rest.flatten());
        assert(frame.subrange(0, all.len() as int) == all);
        if all.contains(AT_CMD) {
            let k = choose|k: int| 0 <= k < all.len() && all[k] == AT_CMD;
            assert(frame[k] == AT_CMD);
            if k < payload.len() {
                assert(payload[k] == AT_CMD);
            }
            assert(all.len() == frame.len());
            assert(rest.flatten().len() == 0);
            lemma_empty_reads(rest);
            assert(all == frame);
            assert(spec_receive(held, c) == (Seq::<u8>::empty(), Some(all)));
            assert(seq![all] + Seq::<Seq<u8>>::empty() == seq![all]);
        } else {
            lemma_frame_arrives_from(all, rest, payload);
        }
    }
}

/// A frame arrives whole, however the link splits it: when the receiver
/// starts empty and the reads (empty reads included) together carry exactly
/// the frame of a message whose encoding holds no carriage return, the
/// receiver hands over that frame, once, and ends empty.
pub proof fn law_frame_arrives_whole(chunks: Seq<Seq<u8>>, payload: Seq<u8>)
    requires
        !payload.contains(AT_CMD),
        chunks.flatten() == spec_frame(payload),
    ensures
        spec_receive_all(Seq::empty(), chunks) == (Seq::<u8>::empty(), seq![spec_frame(payload)]),
{
    assert(Seq::<u8>::empty() + chunks.flatten() == chunks.flatten());
    lemma_frame_arrives_from(Seq::empty(), chunks, payload);
}

} // verus!
