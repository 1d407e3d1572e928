use bytes::BytesMut;
use framecodec::{
    CodecError, Frame, FrameDecoder, FrameEncoder, NonceGenerator, Version, HEADER_LEN, NONCE_LEN,
};

fn frame_bytes(version: Version, opcode: u8, id: u32, nonce: u64, body: &[u8]) -> Vec<u8> {
    FrameEncoder::encode_with_nonce(version, opcode, id, nonce, &body.to_vec()).unwrap()
}

/// A hand-built 12-byte header: magic, id, version byte, opcode, length.
fn raw_header(magic: [u8; 4], id: u32, version: u8, opcode: u8, length: u16) -> Vec<u8> {
    let mut v = Vec::new();
    v.extend_from_slice(&magic);
    v.extend_from_slice(&id.to_be_bytes());
    v.push(version);
    v.push(opcode);
    v.extend_from_slice(&length.to_be_bytes());
    v
}

const GOOD_MAGIC: [u8; 4] = [0xC0, 0xDE, 0xC0, 0xDE];

#[test]
fn empty_buffer_needs_more_data() {
    let mut decoder = FrameDecoder::new();
    let mut buf = BytesMut::new();
    assert!(matches!(
        decoder.decode(&mut buf),
        Err(CodecError::MissingData)
    ));
    assert_eq!(buf.len(), 0);
}

#[test]
fn one_byte_at_a_time_matches_one_shot() {
    let bytes = frame_bytes(Version::Request, 0x11, 42, 0x1111_2222_3333_4444, b"abc");

    // All at once.
    let mut d1 = FrameDecoder::new();
    let mut whole = BytesMut::from(&bytes[..]);
    let f1 = d1.decode(&mut whole).unwrap().unwrap();

    // One byte per call: MissingData each time until the last byte arrives,
    // and the buffer keeps exactly the bytes fed so far.
    let mut d2 = FrameDecoder::new();
    let mut buf = BytesMut::new();
    for (i, b) in bytes.iter().enumerate() {
        buf.extend_from_slice(&[*b]);
        if i + 1 < bytes.len() {
            assert!(matches!(
                d2.decode(&mut buf),
                Err(CodecError::MissingData)
            ));
            assert_eq!(&buf[..], &bytes[..i + 1]);
        }
    }
    let f2 = d2.decode(&mut buf).unwrap().unwrap();
    assert_eq!(buf.len(), 0);

    let same = |a: &Frame, b: &Frame| {
        a.header == b.header
            && a.message.nonce == b.message.nonce
            && a.message.body[..] == b.message.body[..]
    };
    assert!(same(&f1, &f2));
}

#[test]
fn missing_data_consumes_nothing() {
    let bytes = frame_bytes(Version::Request, 0x01, 1, 77, b"payload");
    let mut decoder = FrameDecoder::new();

    // Five bytes of a valid frame: not even a whole header.
    let mut buf = BytesMut::from(&bytes[..5]);
    assert!(matches!(
        decoder.decode(&mut buf),
        Err(CodecError::MissingData)
    ));
    assert_eq!(&buf[..], &bytes[..5]);

    // A whole header but a short body: still nothing consumed.
    let mut buf = BytesMut::from(&bytes[..HEADER_LEN + 3]);
    assert!(matches!(
        decoder.decode(&mut buf),
        Err(CodecError::MissingData)
    ));
    assert_eq!(&buf[..], &bytes[..HEADER_LEN + 3]);

    // The same content plus the rest then succeeds.
    buf.extend_from_slice(&bytes[HEADER_LEN + 3..]);
    let frame = decoder.decode(&mut buf).unwrap().unwrap();
    assert_eq!(&frame.message.body[..], b"payload");
}

#[test]
fn wrong_magic_is_fatal() {
    let header = raw_header([0xC0, 0xDE, 0xC0, 0xDF], 1, 0x01, 0, 8);
    let mut decoder = FrameDecoder::new();
    let mut buf = BytesMut::from(&header[..]);
    assert!(matches!(
        decoder.decode(&mut buf),
        Err(CodecError::InvalidMagic)
    ));
}

#[test]
fn wrong_magic_short_buffer_never_yields_frame() {
    // Only four wrong bytes buffered: no verdict yet, but certainly no frame.
    let mut decoder = FrameDecoder::new();
    let mut buf = BytesMut::from(&[0xFF, 0xFF, 0xFF, 0xFF][..]);
    assert!(matches!(
        decoder.decode(&mut buf),
        Err(CodecError::MissingData)
    ));
    assert_eq!(buf.len(), 4);
}

#[test]
fn oversized_length_rejected_without_waiting() {
    // length 0xFFF5 = 65525 > MAX_FRAME_LEN - HEADER_LEN = 65524; only the
    // 12 header bytes are buffered, yet the verdict is immediate.
    let header = raw_header(GOOD_MAGIC, 9, 0x01, 0x07, 0xFFF5);
    let mut decoder = FrameDecoder::new();
    let mut buf = BytesMut::from(&header[..]);
    assert!(matches!(
        decoder.decode(&mut buf),
        Err(CodecError::FrameTooLarge)
    ));
}

#[test]
fn largest_declared_length_is_accepted() {
    // length 0xFFF4 = 65524 passes validation; the decoder then just waits
    // for the body.
    let header = raw_header(GOOD_MAGIC, 9, 0x01, 0x07, 0xFFF4);
    let mut decoder = FrameDecoder::new();
    let mut buf = BytesMut::from(&header[..]);
    assert!(matches!(
        decoder.decode(&mut buf),
        Err(CodecError::MissingData)
    ));
    assert_eq!(buf.len(), HEADER_LEN);
}

#[test]
fn length_below_nonce_size_rejected() {
    let header = raw_header(GOOD_MAGIC, 2, 0x01, 0, 7);
    let mut decoder = FrameDecoder::new();
    let mut buf = BytesMut::from(&header[..]);
    assert!(matches!(
        decoder.decode(&mut buf),
        Err(CodecError::InvalidLength)
    ));
}

#[test]
fn version_bytes_decode_to_their_variant() {
    for (byte, want) in [(0x01u8, Version::Request), (0x81u8, Version::Response)] {
        let mut bytes = raw_header(GOOD_MAGIC, 3, byte, 0x09, 8);
        bytes.extend_from_slice(&[0u8; 8]); // nonce, empty body
        let mut decoder = FrameDecoder::new();
        let mut buf = BytesMut::from(&bytes[..]);
        let frame = decoder.decode(&mut buf).unwrap().unwrap();
        assert_eq!(frame.header.version, want);
        assert_eq!(frame.message.body.len(), 0);
    }
}

#[test]
fn other_version_bytes_are_fatal() {
    for byte in [0x00u8, 0x02, 0x80, 0xFF] {
        let header = raw_header(GOOD_MAGIC, 3, byte, 0x09, 8);
        let mut decoder = FrameDecoder::new();
        let mut buf = BytesMut::from(&header[..]);
        assert!(matches!(
            decoder.decode(&mut buf),
            Err(CodecError::InvalidVersion)
        ));
    }
}

#[test]
fn version_try_from_two_accepted_values() {
    assert_eq!(Version::try_from(0x01), Ok(Version::Request));
    assert_eq!(Version::try_from(0x81), Ok(Version::Response));
    assert_eq!(Version::try_from(0x00), Err(CodecError::InvalidVersion));
    assert_eq!(Version::try_from(0xFF), Err(CodecError::InvalidVersion));
}

#[test]
fn two_frames_in_one_buffer() {
    let first = frame_bytes(Version::Request, 0x01, 1, 111, b"first");
    let second = frame_bytes(Version::Response, 0x02, 2, 222, b"second!");
    let mut all = first.clone();
    all.extend_from_slice(&second);

    let mut decoder = FrameDecoder::new();
    let mut buf = BytesMut::from(&all[..]);

    let f1 = decoder.decode(&mut buf).unwrap().unwrap();
    assert_eq!(f1.header.opcode, 0x01);
    assert_eq!(f1.message.nonce, 111);
    assert_eq!(&f1.message.body[..], b"first");
    assert_eq!(buf.len(), second.len());

    let f2 = decoder.decode(&mut buf).unwrap().unwrap();
    assert_eq!(f2.header.opcode, 0x02);
    assert_eq!(f2.message.nonce, 222);
    assert_eq!(&f2.message.body[..], b"second!");
    assert_eq!(buf.len(), 0);
}

#[test]
fn parse_header_validates_without_consuming() {
    let bytes = frame_bytes(Version::Request, 0x05, 6, 5, b"xy");
    let buf = BytesMut::from(&bytes[..]);
    let header = Frame::parse_header(&buf).unwrap();
    assert_eq!(header.opcode, 0x05);
    assert_eq!(header.id, 6);
    assert_eq!(header.length as usize, NONCE_LEN + 2);
    assert_eq!(buf.len(), bytes.len());

    let short = BytesMut::from(&bytes[..HEADER_LEN - 1]);
    assert!(matches!(
        Frame::parse_header(&short),
        Err(CodecError::MissingData)
    ));
}
