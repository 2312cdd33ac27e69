//! The format of the TCP stream: each datagram is preceded by a 16 bit unsigned
//! integer in big endian byte order that gives the length of the datagram.
//!
//! This module holds the mathematical model of that format and the laws that the
//! format obeys; `forward_traffic` holds the code that encodes and decodes it.

use vstd::prelude::*;

verus! {

/// Length of the header in front of every datagram in the TCP stream.
pub const HEADER_LEN: usize = 2;

/// The largest datagram length that the 16 bit header can express.
pub const MAX_DATAGRAM_LEN: usize = 65535;

/// The two header bytes for a datagram of `len` bytes: `len` as a big endian `u16`.
pub open spec fn header_bytes(len: nat) -> Seq<u8> {
    seq![(len / 256) as u8, (len % 256) as u8]
}

/// One datagram as it travels in the TCP stream: its header, then its bytes.
pub open spec fn frame(datagram: Seq<u8>) -> Seq<u8> {
    header_bytes(datagram.len()) + datagram
}

/// A sequence of datagrams as they travel in the TCP stream, one frame after the other.
pub open spec fn frames(datagrams: Seq<Seq<u8>>) -> Seq<u8>
    decreases datagrams.len(),
{
    if datagrams.len() == 0 {
        Seq::empty()
    } else {
        frame(datagrams[0]) + frames(datagrams.drop_first())
    }
}

/// Every datagram in the sequence fits in the 16 bit length header.
pub open spec fn all_fit_header(datagrams: Seq<Seq<u8>>) -> bool {
    forall|i: int| 0 <= i < datagrams.len() ==> #[trigger] datagrams[i].len() <= MAX_DATAGRAM_LEN
}

/// The length that the header at the start of `stream` declares (its first two bytes,
/// big endian).
pub open spec fn declared_len(stream: Seq<u8>) -> nat {
    (stream[0] as nat) * 256 + (stream[1] as nat)
}

/// `stream` starts with a header and the whole datagram that the header announces.
pub open spec fn has_complete_frame(stream: Seq<u8>) -> bool {
    stream.len() >= HEADER_LEN && stream.len() >= HEADER_LEN + declared_len(stream)
}

/// The number of bytes that the first frame of `stream` takes, header included.
pub open spec fn first_frame_len(stream: Seq<u8>) -> nat {
    HEADER_LEN as nat + declared_len(stream)
}

/// The datagram carried by the first frame of `stream`.
pub open spec fn first_datagram(stream: Seq<u8>) -> Seq<u8> {
    stream.subrange(HEADER_LEN as int, first_frame_len(stream) as int)
}

/// The complete datagrams at the start of `stream`, in order.
pub open spec fn parse_frames(stream: Seq<u8>) -> Seq<Seq<u8>>
    decreases stream.len(),
{
    if has_complete_frame(stream) {
        seq![first_datagram(stream)] + parse_frames(stream.skip(first_frame_len(stream) as int))
    } else {
        Seq::empty()
    }
}

/// What remains of `stream` after its complete frames: an incomplete frame, possibly empty.
pub open spec fn unparsed_rest(stream: Seq<u8>) -> Seq<u8>
    decreases stream.len(),
{
    if has_complete_frame(stream) {
        unparsed_rest(stream.skip(first_frame_len(stream) as int))
    } else {
        stream
    }
}

/// The header of a length that fits in 16 bits announces that length.
pub proof fn lemma_header_declares_len(len: nat, rest: Seq<u8>)
    requires
        len <= MAX_DATAGRAM_LEN,
    ensures
        (header_bytes(len) + rest).len() == rest.len() + HEADER_LEN,
        declared_len(header_bytes(len) + rest) == len,
        (header_bytes(len) + rest).skip(HEADER_LEN as int) == rest,
{
    let s = header_bytes(len) + rest;
    assert(s[0] == (len / 256) as u8);
    assert(s[1] == (len % 256) as u8);
    assert(s.skip(2) =~= rest);
}

/// The first two bytes of a stream are the header of the length they declare.
pub proof fn lemma_declared_len_header(stream: Seq<u8>)
    requires
        stream.len() >= HEADER_LEN,
    ensures
        declared_len(stream) <= MAX_DATAGRAM_LEN,
        header_bytes(declared_len(stream)) == stream.take(HEADER_LEN as int),
{
    let hi = stream[0];
    let lo = stream[1];
    let n = declared_len(stream);
    assert(n / 256 == hi as nat && n % 256 == lo as nat) by (nonlinear_arith)
        requires
            n == (hi as nat) * 256 + (lo as nat),
            (hi as nat) < 256,
            (lo as nat) < 256,
    ;
    assert(header_bytes(n) =~= stream.take(2));
}

/// Framing a sequence of datagrams and then parsing the stream gives the datagrams
/// back, and whatever followed the frames is parsed as if it stood alone.
pub proof fn lemma_parse_frames_of_frames(datagrams: Seq<Seq<u8>>, rest: Seq<u8>)
    requires
        all_fit_header(datagrams),
    ensures
        parse_frames(frames(datagrams) + rest) == datagrams + parse_frames(rest),
        unparsed_rest(frames(datagrams) + rest) == unparsed_rest(rest),
    decreases datagrams.len(),
{
    if datagrams.len() == 0 {
        assert(frames(datagrams) + rest =~= rest);
        assert(datagrams + parse_frames(rest) =~= parse_frames(rest));
    } else {
        let d = datagrams[0];
        let tail = datagrams.drop_first();
        assert(all_fit_header(tail)) by {
            assert forall|i: int| 0 <= i < tail.len() implies #[trigger] tail[i].len()
                <= MAX_DATAGRAM_LEN by {
                assert(tail[i] == datagrams[i + 1]);
            }
        }
        let after = frames(tail) + rest;
        let s = frames(datagrams) + rest;
        assert(s =~= header_bytes(d.len()) + (d + after));
        lemma_header_declares_len(d.len(), d + after);
        assert(has_complete_frame(s));
        assert(first_datagram(s) =~= d);
        assert(s.skip(first_frame_len(s) as int) =~= after);
        lemma_parse_frames_of_frames(tail, rest);
        assert(datagrams =~= seq![d] + tail);
        assert(parse_frames(s) =~= datagrams + parse_frames(rest));
    }
}

/// A stream of frames parses to the datagrams that were framed, with nothing left over.
pub proof fn lemma_frames_round_trip(datagrams: Seq<Seq<u8>>)
    requires
        all_fit_header(datagrams),
    ensures
        parse_frames(frames(datagrams)) == datagrams,
        unparsed_rest(frames(datagrams)) == Seq::<u8>::empty(),
{
    lemma_parse_frames_of_frames(datagrams, Seq::empty());
    assert(frames(datagrams) + Seq::<u8>::empty() =~= frames(datagrams));
    assert(datagrams + Seq::<Seq<u8>>::empty() =~= datagrams);
}

/// Parsing loses and invents nothing: a stream is exactly the frames of the datagrams
/// parsed from it, followed by the unparsed rest; every parsed datagram fits the header,
/// and the rest holds no complete frame.
pub proof fn lemma_stream_is_frames_then_rest(stream: Seq<u8>)
    ensures
        stream == frames(parse_frames(stream)) + unparsed_rest(stream),
        all_fit_header(parse_frames(stream)),
        !has_complete_frame(unparsed_rest(stream)),
    decreases stream.len(),
{
    if has_complete_frame(stream) {
        let n = first_frame_len(stream);
        let tail = stream.skip(n as int);
        lemma_stream_is_frames_then_rest(tail);
        lemma_declared_len_header(stream);
        let d = first_datagram(stream);
        let ds = parse_frames(stream);
        assert(ds =~= seq![d] + parse_frames(tail));
        assert(ds[0] == d);
        assert(ds.drop_first() =~= parse_frames(tail));
        assert(frame(d) =~= stream.take(n as int));
        assert(stream =~= stream.take(n as int) + tail);
        assert(frames(ds) == frame(d) + frames(parse_frames(tail)));
        assert(stream =~= frames(ds) + unparsed_rest(stream));
        assert forall|i: int| 0 <= i < ds.len() implies #[trigger] ds[i].len()
            <= MAX_DATAGRAM_LEN by {
            if i > 0 {
                assert(ds[i] == parse_frames(tail)[i - 1]);
            }
        }
    } else {
        assert(parse_frames(stream) =~= Seq::<Seq<u8>>::empty());
        assert(frames(parse_frames(stream)) =~= Seq::<u8>::empty());
        assert(stream =~= frames(parse_frames(stream)) + unparsed_rest(stream));
    }
}

/// Decoding a stream in pieces gives the same datagrams as decoding it whole: parsing
/// `a`, then parsing what `a` left over followed by `b`, yields the datagrams of `a + b`
/// and leaves the same rest.
pub proof fn lemma_parse_incremental(a: Seq<u8>, b: Seq<u8>)
    ensures
        parse_frames(a) + parse_frames(unparsed_rest(a) + b) == parse_frames(a + b),
        unparsed_rest(unparsed_rest(a) + b) == unparsed_rest(a + b),
    decreases a.len(),
{
    if has_complete_frame(a) {
        let n = first_frame_len(a);
        let ab = a + b;
        assert(ab[0] == a[0] && ab[1] == a[1]);
        assert(has_complete_frame(ab));
        assert(first_frame_len(ab) == n);
        assert(first_datagram(ab) =~= first_datagram(a));
        assert(ab.skip(n as int) =~= a.skip(n as int) + b);
        lemma_parse_incremental(a.skip(n as int), b);
        assert(parse_frames(a) + parse_frames(unparsed_rest(a) + b) =~= parse_frames(a + b));
    } else {
        assert(parse_frames(a) =~= Seq::<Seq<u8>>::empty());
        assert(parse_frames(a) + parse_frames(unparsed_rest(a) + b) =~= parse_frames(a + b));
    }
}

/// What a decoder that holds `pending` does with a newly received `chunk`: the datagrams
/// it hands out, and the bytes it keeps.
pub open spec fn decode_step(pending: Seq<u8>, chunk: Seq<u8>) -> (Seq<Seq<u8>>, Seq<u8>) {
    (parse_frames(pending + chunk), unparsed_rest(pending + chunk))
}

/// What a decoder that holds `pending` does with the chunks received one after the
/// other: all datagrams it hands out, in order, and the bytes it keeps at the end.
pub open spec fn decode_chunks(pending: Seq<u8>, chunks: Seq<Seq<u8>>) -> (Seq<Seq<u8>>, Seq<u8>)
    decreases chunks.len(),
{
    if chunks.len() == 0 {
        (Seq::empty(), pending)
    } else {
        let step = decode_step(pending, chunks[0]);
        let later = decode_chunks(step.1, chunks.drop_first());
        (step.0 + later.0, later.1)
    }
}

/// However a stream is cut into chunks, decoding the chunks one by one hands out the
/// same datagrams, in the same order, as decoding the whole stream, and keeps the same
/// bytes at the end. (`prefix` is what was decoded before the chunks.)
pub proof fn lemma_decode_chunks_is_decode_whole(prefix: Seq<u8>, chunks: Seq<Seq<u8>>)
    ensures
        parse_frames(prefix) + decode_chunks(unparsed_rest(prefix), chunks).0 == parse_frames(
            prefix + chunks.flatten(),
        ),
        decode_chunks(unparsed_rest(prefix), chunks).1 == unparsed_rest(prefix + chunks.flatten()),
    decreases chunks.len(),
{
    if chunks.len() == 0 {
        assert(prefix + chunks.flatten() =~= prefix);
        assert(parse_frames(prefix) + Seq::<Seq<u8>>::empty() =~= parse_frames(prefix));
    } else {
        let c = chunks[0];
        let cs = chunks.drop_first();
        lemma_parse_incremental(prefix, c);
        lemma_decode_chunks_is_decode_whole(prefix + c, cs);
        assert(prefix + chunks.flatten() =~= (prefix + c) + cs.flatten());
        let step = decode_step(unparsed_rest(prefix), c);
        assert(step.1 == unparsed_rest(prefix + c));
        assert(parse_frames(prefix) + decode_chunks(unparsed_rest(prefix), chunks).0 =~= (
        parse_frames(prefix) + step.0) + decode_chunks(step.1, cs).0);
    }
}

/// The protocol's promise: datagrams framed into the TCP stream come out of a decoder
/// that starts empty exactly as they went in, in order, however the stream is cut into
/// chunks, and the decoder is left holding nothing.
pub proof fn lemma_datagrams_survive_any_chunking(
    datagrams: Seq<Seq<u8>>,
    chunks: Seq<Seq<u8>>,
)
    requires
        all_fit_header(datagrams),
        chunks.flatten() == frames(datagrams),
    ensures
        decode_chunks(Seq::empty(), chunks).0 == datagrams,
        decode_chunks(Seq::empty(), chunks).1 == Seq::<u8>::empty(),
{
    let empty = Seq::<u8>::empty();
    assert(!has_complete_frame(empty));
    assert(unparsed_rest(empty) == empty);
    assert(parse_frames(empty) =~= Seq::<Seq<u8>>::empty());
    lemma_decode_chunks_is_decode_whole(empty, chunks);
    assert(empty + chunks.flatten() =~= frames(datagrams));
    lemma_frames_round_trip(datagrams);
    assert(Seq::<Seq<u8>>::empty() + decode_chunks(empty, chunks).0 =~= decode_chunks(
        empty,
        chunks,
    ).0);
}

} // verus!
