use udp_over_tcp::forward_traffic::{
    datagram_buffer, datagram_header, datagrams_in_buffer, split_first_datagram,
    NextRead, TcpStreamDecoder, MAX_DATAGRAM_SIZE,
};

fn frame(datagram: &[u8]) -> Vec<u8> {
    let header = datagram_header(datagram.len()).expect("datagram fits the header");
    let mut framed = header.to_vec();
    framed.extend_from_slice(datagram);
    framed
}

/// A datagram goes into the TCP stream with a big endian length header, and an encoded
/// datagram coming down the TCP stream comes out as a single datagram.
#[test]
fn frame_and_decode_one_datagram_each_way() {
    let framed = frame(&[1, 2, 3]);
    assert_eq!(framed.len(), 5);
    // Big endian header
    assert_eq!(&framed[0..2], &[0, 3]);
    // Datagram body
    assert_eq!(&framed[2..5], &[1, 2, 3]);

    let mut decoder = TcpStreamDecoder::new();
    // Header and body arrive in two writes.
    assert!(decoder.decode(&[0u8, 2]).is_empty());
    let datagrams = decoder.decode(&[9, 8]);
    assert_eq!(datagrams, vec![vec![9, 8]]);
}

/// Same exchange, with header and body arriving in one chunk.
#[test]
fn decode_header_and_body_in_one_chunk() {
    assert_eq!(frame(&[1, 2, 3]), vec![0, 3, 1, 2, 3]);
    let mut decoder = TcpStreamDecoder::new();
    assert_eq!(decoder.decode(&[0, 2, 9, 8]), vec![vec![9, 8]]);
    assert_eq!(decoder.free_space(), MAX_DATAGRAM_SIZE);
}

/// Two encoded datagrams arrive in chunks that split the second one.
#[test]
fn decode_second_datagram_split_across_chunks() {
    let mut decoder = TcpStreamDecoder::new();
    // First datagram and part of the second.
    let first = decoder.decode(&[0, 2, 1, 2, 0, 5, 9, 8]);
    assert_eq!(first, vec![vec![1, 2]]);
    assert_eq!(decoder.free_space(), MAX_DATAGRAM_SIZE - 4);
    // Remaining datagram body.
    let second = decoder.decode(&[7, 6, 5]);
    assert_eq!(second, vec![vec![9, 8, 7, 6, 5]]);
    assert_eq!(decoder.free_space(), MAX_DATAGRAM_SIZE);
}

#[test]
fn header_is_big_endian_length() {
    assert_eq!(datagram_header(0), Some([0, 0]));
    assert_eq!(datagram_header(3), Some([0, 3]));
    assert_eq!(datagram_header(256), Some([1, 0]));
    assert_eq!(datagram_header(0x1234), Some([0x12, 0x34]));
    assert_eq!(datagram_header(65535), Some([255, 255]));
    assert_eq!(datagram_header(65536), None);
}

#[test]
fn split_first_datagram_needs_whole_frame() {
    assert_eq!(split_first_datagram(&[]), None);
    assert_eq!(split_first_datagram(&[0]), None);
    assert_eq!(split_first_datagram(&[0, 3, 1, 2]), None);
    let empty: &[u8] = &[];
    assert_eq!(split_first_datagram(&[0, 0]), Some((empty, empty)));
    assert_eq!(split_first_datagram(&[0, 2, 1, 2]), Some((&[1u8, 2][..], empty)));
    assert_eq!(split_first_datagram(&[0, 1, 7, 0, 4, 9]), Some((&[7u8][..], &[0u8, 4, 9][..])));
}

#[test]
fn datagrams_in_buffer_counts_processed_bytes() {
    let (datagrams, processed) = datagrams_in_buffer(&[0, 1, 7, 0, 0, 0, 2, 5, 6, 0, 3, 1]);
    assert_eq!(datagrams, vec![vec![7], vec![], vec![5, 6]]);
    assert_eq!(processed, 9);
    let (datagrams, processed) = datagrams_in_buffer(&[0]);
    assert!(datagrams.is_empty());
    assert_eq!(processed, 0);
}

/// Datagrams framed one after the other come back in order whatever the chunking.
#[test]
fn datagrams_survive_byte_by_byte_chunking() {
    let sent: Vec<Vec<u8>> = vec![vec![1, 2, 3], vec![], vec![42; 300], vec![9]];
    let mut stream = Vec::new();
    for d in &sent {
        stream.extend(frame(d));
    }
    let mut decoder = TcpStreamDecoder::new();
    let mut received = Vec::new();
    for byte in &stream {
        received.extend(decoder.decode(std::slice::from_ref(byte)));
    }
    assert_eq!(received, sent);
    assert_eq!(decoder.free_space(), MAX_DATAGRAM_SIZE);
}

/// The largest datagram that fits the buffer together with its header.
#[test]
fn largest_datagram_that_fits_the_buffer() {
    let datagram = vec![0xabu8; MAX_DATAGRAM_SIZE - 2];
    let mut decoder = TcpStreamDecoder::new();
    let out = decoder.decode(&frame(&datagram));
    assert_eq!(out, vec![datagram]);
    assert_eq!(decoder.next_read(), NextRead::Read(MAX_DATAGRAM_SIZE));
}

/// A header announcing more than the buffer can hold fills the buffer and never completes.
#[test]
fn oversized_datagram_fills_the_buffer() {
    let mut decoder = TcpStreamDecoder::new();
    let mut chunk = vec![0xffu8, 0xff];
    chunk.extend(vec![1u8; MAX_DATAGRAM_SIZE - 2]);
    assert!(decoder.decode(&chunk).is_empty());
    assert_eq!(decoder.free_space(), 0);
    assert_eq!(decoder.next_read(), NextRead::Stalled);
}

#[test]
fn datagram_buffer_is_zeroed() {
    let buffer = datagram_buffer();
    assert_eq!(buffer.len(), MAX_DATAGRAM_SIZE);
    assert!(buffer.iter().all(|b| *b == 0));
}

#[test]
fn empty_read_means_stream_closed() {
    let mut decoder = TcpStreamDecoder::new();
    assert_eq!(decoder.on_read(&[0, 3, 1]), Some(vec![]));
    assert_eq!(decoder.next_read(), NextRead::Read(MAX_DATAGRAM_SIZE - 3));
    assert_eq!(decoder.on_read(&[]), None);
    assert_eq!(decoder.on_read(&[2, 3]), Some(vec![vec![1, 2, 3]]));
}
