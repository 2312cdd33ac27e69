//! Encoding datagrams into the TCP stream and decoding them out of it.
//!
//! The forwarding loops themselves (reading and writing the sockets) run outside the
//! library; they hand the bytes they read to the functions here and send what these
//! return.

use vstd::prelude::*;
use vstd::slice::{slice_subrange, slice_to_vec};
use crate::framing::{
    first_datagram, first_frame_len, has_complete_frame, header_bytes, parse_frames, unparsed_rest,
    declared_len, decode_step, lemma_stream_is_frames_then_rest, HEADER_LEN, MAX_DATAGRAM_LEN,
};

verus! {

/// A UDP datagram header has a 16 bit field containing an unsigned integer
/// describing the length of the datagram (including the header itself).
/// The max value is 2^16 = 65536 bytes. But since that includes the
/// UDP header, this constant is 8 bytes more than any UDP socket
/// read operation would ever return. We are going to use that extra space
/// to store our 2 byte udp-over-tcp header.
pub const MAX_DATAGRAM_SIZE: usize = MAX_DATAGRAM_LEN;

/// Creates and returns a buffer on the heap with enough space to contain any possible
/// UDP datagram.
pub fn datagram_buffer() -> (buffer: Box<[u8; MAX_DATAGRAM_SIZE]>)
    ensures
        buffer@.len() == MAX_DATAGRAM_SIZE,
        forall|i: int| 0 <= i < MAX_DATAGRAM_SIZE ==> buffer@[i] == 0u8,
{
    Box::new([0u8; MAX_DATAGRAM_SIZE])
}

/// The header to put in front of a datagram of `datagram_len` bytes: the length as a
/// big endian `u16`. `None` when the length does not fit in 16 bits.
pub fn datagram_header(datagram_len: usize) -> (header: Option<[u8; HEADER_LEN]>)
    ensures
        header is Some <==> datagram_len <= MAX_DATAGRAM_LEN,
        header matches Some(h) ==> h@ == header_bytes(datagram_len as nat),
{
    if datagram_len <= MAX_DATAGRAM_LEN {
        let high: u8 = (datagram_len / 256) as u8;
        let low: u8 = (datagram_len % 256) as u8;
        let header: [u8; HEADER_LEN] = [high, low];
        assert(header@ =~= header_bytes(datagram_len as nat));
        Some(header)
    } else {
        None
    }
}

/// Parses the header at the beginning of the `buffer` and if it contains a full
/// `udp-to-tcp` datagram it splits the buffer and returns the datagram data and
/// buffer tail as two separate slices: `(datagram_data, tail)`
pub fn split_first_datagram(buffer: &[u8]) -> (split: Option<(&[u8], &[u8])>)
    ensures
        split is Some <==> has_complete_frame(buffer@),
        split matches Some((datagram, tail)) ==> {
            &&& datagram@ == first_datagram(buffer@)
            &&& tail@ == buffer@.skip(first_frame_len(buffer@) as int)
        },
{
    if buffer.len() < HEADER_LEN {
        return None;
    }
    let (header, tail) = buffer.split_at(HEADER_LEN);
    let datagram_len: usize = (header[0] as usize) * 256 + (header[1] as usize);
    assert(datagram_len == declared_len(buffer@));
    if datagram_len <= tail.len() {
        let (datagram, rest) = tail.split_at(datagram_len);
        assert(datagram@ =~= first_datagram(buffer@));
        assert(rest@ =~= buffer@.skip(first_frame_len(buffer@) as int));
        Some((datagram, rest))
    } else {
        None
    }
}

/// All complete datagrams at the start of `buffer`, in order, and the number of bytes
/// that their frames take. The bytes after that are an incomplete frame.
pub fn datagrams_in_buffer(buffer: &[u8]) -> (result: (Vec<Vec<u8>>, usize))
    ensures
        result.0.deep_view() == parse_frames(buffer@),
        result.1 == buffer@.len() - unparsed_rest(buffer@).len(),
        buffer@.skip(result.1 as int) == unparsed_rest(buffer@),
{
    let mut datagrams: Vec<Vec<u8>> = Vec::new();
    let mut unprocessed: &[u8] = buffer;
    let mut processed: usize = 0;
    let total: usize = buffer.len();
    loop
        invariant
            total == buffer@.len(),
            processed + unprocessed@.len() == total,
            unprocessed@ == buffer@.skip(processed as int),
            datagrams.deep_view() + parse_frames(unprocessed@) == parse_frames(buffer@),
            unparsed_rest(unprocessed@) == unparsed_rest(buffer@),
        decreases unprocessed@.len(),
    {
        match split_first_datagram(unprocessed) {
            None => {
                assert(datagrams.deep_view() =~= parse_frames(buffer@));
                return (datagrams, processed);
            },
            Some((datagram, tail)) => {
                let ghost before = unprocessed@;
                let ghost old_out = datagrams.deep_view();
                let copy = slice_to_vec(datagram);
                assert(copy.deep_view() =~= first_datagram(before));
                datagrams.push(copy);
                assert(datagrams.deep_view() =~= old_out + seq![first_datagram(before)]);
                assert(tail@.len() == before.len() - first_frame_len(before));
                assert(parse_frames(before) =~= seq![first_datagram(before)] + parse_frames(
                    tail@,
                ));
                let consumed: usize = unprocessed.len() - tail.len();
                processed = processed + consumed;
                unprocessed = tail;
                assert(unprocessed@ =~= buffer@.skip(processed as int));
                assert(datagrams.deep_view() + parse_frames(unprocessed@) =~= parse_frames(
                    buffer@,
                ));
            },
        }
    }
}

/// What to do before the next read from the TCP stream.
#[derive(Debug, Clone, Copy, PartialEq, Eq)]
pub enum NextRead {
    /// Read at most this many bytes.
    Read(usize),
    /// The buffer is full; no read can make progress.
    Stalled,
}

/// The receiving half of the TCP to UDP direction: bytes read from the TCP stream go
/// in, complete datagrams come out. Bytes of an incomplete datagram are kept until the
/// rest of it arrives.
///
/// The buffer holds `MAX_DATAGRAM_SIZE` bytes, header included, so a datagram longer
/// than `MAX_DATAGRAM_SIZE - HEADER_LEN` bytes never completes: the buffer fills up and
/// no more bytes fit (`free_space` is zero).
pub struct TcpStreamDecoder {
    buffer: Vec<u8>,
    /// `buffer` holds received but not yet decoded bytes up until this index.
    unprocessed: usize,
}

impl TcpStreamDecoder {
    /// The decoder's internal invariant.
    pub closed spec fn wf(&self) -> bool {
        &&& self.buffer@.len() == MAX_DATAGRAM_SIZE
        &&& self.unprocessed <= MAX_DATAGRAM_SIZE
    }

    /// The bytes received and not yet handed out as datagrams, in stream order.
    pub closed spec fn pending(&self) -> Seq<u8> {
        self.buffer@.take(self.unprocessed as int)
    }

    /// A decoder that has received nothing yet.
    pub fn new() -> (decoder: Self)
        ensures
            decoder.wf(),
            decoder.pending() == Seq::<u8>::empty(),
    {
        let decoder = TcpStreamDecoder { buffer: vec![0u8; MAX_DATAGRAM_SIZE], unprocessed: 0 };
        assert(decoder.pending() =~= Seq::<u8>::empty());
        decoder
    }

    /// How many more bytes the decoder can take in.
    pub fn free_space(&self) -> (n: usize)
        requires
            self.wf(),
        ensures
            n == MAX_DATAGRAM_SIZE - self.pending().len(),
    {
        MAX_DATAGRAM_SIZE - self.unprocessed
    }

    /// What to do before the next read from the TCP stream: read up to the given number
    /// of bytes (at least one), or give up because the buffer is full. Right after
    /// `decode` a full buffer means that the pending bytes start a datagram that declares
    /// more bytes than the buffer can hold, so it can never complete.
    pub fn next_read(&self) -> (next: NextRead)
        requires
            self.wf(),
        ensures
            next == (if self.pending().len() == MAX_DATAGRAM_SIZE {
                NextRead::Stalled
            } else {
                NextRead::Read((MAX_DATAGRAM_SIZE - self.pending().len()) as usize)
            }),
    {
        if self.unprocessed == MAX_DATAGRAM_SIZE {
            NextRead::Stalled
        } else {
            NextRead::Read(MAX_DATAGRAM_SIZE - self.unprocessed)
        }
    }

    /// Handles the outcome of a read from the TCP stream: an empty read means the stream
    /// is closed (`None`, nothing changes); otherwise the bytes are decoded as by `decode`.
    pub fn on_read(&mut self, chunk: &[u8]) -> (datagrams: Option<Vec<Vec<u8>>>)
        requires
            old(self).wf(),
            chunk@.len() <= MAX_DATAGRAM_SIZE - old(self).pending().len(),
        ensures
            final(self).wf(),
            chunk@.len() == 0 ==> datagrams is None && final(self).pending() == old(self).pending(),
            chunk@.len() > 0 ==> (datagrams matches Some(d) && (d.deep_view(), final(self).pending())
                == decode_step(old(self).pending(), chunk@)),
    {
        if chunk.len() == 0 {
            None
        } else {
            Some(self.decode(chunk))
        }
    }

    /// Appends bytes read from the TCP stream.
    pub fn receive(&mut self, data: &[u8])
        requires
            old(self).wf(),
            data@.len() <= MAX_DATAGRAM_SIZE - old(self).pending().len(),
        ensures
            final(self).wf(),
            final(self).pending() == old(self).pending() + data@,
    {
        let start = self.unprocessed;
        let len = data.len();
        let mut i: usize = 0;
        while i < len
            invariant
                self.wf(),
                self.unprocessed == start,
                start + len <= MAX_DATAGRAM_SIZE,
                len == data@.len(),
                0 <= i <= len,
                self.buffer@.take(start as int) == old(self).pending(),
                self.buffer@.subrange(start as int, start + i) == data@.take(i as int),
            decreases len - i,
        {
            let ghost before = self.buffer@;
            self.buffer.set(start + i, data[i]);
            assert(self.buffer@.take(start as int) =~= before.take(start as int));
            assert(self.buffer@.subrange(start as int, start + i + 1) =~= data@.take(i + 1));
            i = i + 1;
        }
        self.unprocessed = start + len;
        assert(self.pending() =~= self.buffer@.take(start as int) + self.buffer@.subrange(
            start as int,
            start + len,
        ));
        assert(data@.take(len as int) =~= data@);
    }

    /// Hands out every complete datagram received so far, in order, and keeps the bytes
    /// of the incomplete one that follows them.
    pub fn take_datagrams(&mut self) -> (datagrams: Vec<Vec<u8>>)
        requires
            old(self).wf(),
        ensures
            final(self).wf(),
            datagrams.deep_view() == parse_frames(old(self).pending()),
            final(self).pending() == unparsed_rest(old(self).pending()),
            final(self).pending().len() < MAX_DATAGRAM_SIZE || declared_len(final(self).pending())
                > MAX_DATAGRAM_SIZE - HEADER_LEN,
    {
        let ghost pending = self.pending();
        let unprocessed = self.unprocessed;
        let (datagrams, processed) = datagrams_in_buffer(
            slice_subrange(self.buffer.as_slice(), 0, unprocessed),
        );
        // Move the bytes that were not handed out to the start of the buffer.
        let remaining = unprocessed - processed;
        let mut i: usize = 0;
        while i < remaining
            invariant
                self.buffer@.len() == MAX_DATAGRAM_SIZE,
                self.unprocessed == unprocessed,
                unprocessed <= MAX_DATAGRAM_SIZE,
                processed + remaining == unprocessed,
                pending == old(self).buffer@.take(unprocessed as int),
                old(self).buffer@.len() == MAX_DATAGRAM_SIZE,
                0 <= i <= remaining,
                self.buffer@.take(i as int) == pending.subrange(processed as int, processed + i),
                forall|j: int|
                    i <= j < MAX_DATAGRAM_SIZE ==> #[trigger] self.buffer@[j] == old(
                        self,
                    ).buffer@[j],
            decreases remaining - i,
        {
            let byte = self.buffer[processed + i];
            assert(byte == pending[processed + i]);
            self.buffer.set(i, byte);
            assert(self.buffer@.take(i + 1) =~= pending.subrange(processed as int, processed + i + 1));
            i = i + 1;
        }
        self.unprocessed = remaining;
        proof {
            assert(self.pending() =~= pending.skip(processed as int));
            lemma_stream_is_frames_then_rest(pending);
            if self.pending().len() >= MAX_DATAGRAM_SIZE {
                assert(!has_complete_frame(self.pending()));
            }
        }
        datagrams
    }

    /// Takes in a chunk read from the TCP stream and hands out every datagram that is
    /// now complete, in order: one step of `decode_step`.
    pub fn decode(&mut self, chunk: &[u8]) -> (datagrams: Vec<Vec<u8>>)
        requires
            old(self).wf(),
            chunk@.len() <= MAX_DATAGRAM_SIZE - old(self).pending().len(),
        ensures
            final(self).wf(),
            (datagrams.deep_view(), final(self).pending()) == decode_step(
                old(self).pending(),
                chunk@,
            ),
            final(self).pending().len() < MAX_DATAGRAM_SIZE || declared_len(final(self).pending())
                > MAX_DATAGRAM_SIZE - HEADER_LEN,
    {
        self.receive(chunk);
        self.take_datagrams()
    }
}

} // verus!
