use bytes::BytesMut;
use framecodec::{
    CodecError, FrameDecoder, FrameEncoder, Header, HeaderCodec, NonceGenerator, Version,
    HEADER_LEN, MAGIC, MAX_FRAME_LEN, NONCE_LEN,
};

#[test]
fn concrete_empty_body_scenario() {
    // Encoding (Request, opcode 0x05, empty body) with nonce 0x0102030405060708
    // must yield header length 8 and a 20-byte frame that decodes back intact.
    let body: Vec<u8> = Vec::new();
    let bytes = FrameEncoder::encode_with_nonce(Version::Request, 0x05, 0, 0x0102030405060708, &body)
        .expect("empty body fits");
    assert_eq!(bytes.len(), HEADER_LEN + NONCE_LEN);
    assert_eq!(bytes.len(), 20);
    // length field (big-endian, bytes 10..12) is exactly 8
    assert_eq!(&bytes[10..12], &[0x00, 0x08]);

    let mut decoder = FrameDecoder::new();
    let mut buf = BytesMut::from(&bytes[..]);
    let frame = decoder
        .decode(&mut buf)
        .expect("whole frame buffered")
        .expect("a frame, not a wait");
    assert_eq!(frame.header.magic, MAGIC);
    assert_eq!(frame.header.version, Version::Request);
    assert_eq!(frame.header.opcode, 0x05);
    assert_eq!(frame.header.length, 8);
    assert_eq!(frame.message.nonce, 0x0102030405060708);
    assert_eq!(frame.message.body.len(), 0);
    assert_eq!(buf.len(), 0);
}

#[test]
fn roundtrip_nonempty_body() {
    let body: Vec<u8> = b"hello world".to_vec();
    let bytes = FrameEncoder::encode_with_nonce(Version::Response, 0x2A, 7, 0xDEAD_BEEF_0BAD_F00D, &body)
        .expect("small body fits");
    assert_eq!(bytes.len(), HEADER_LEN + NONCE_LEN + body.len());

    let mut decoder = FrameDecoder::new();
    let mut buf = BytesMut::from(&bytes[..]);
    let frame = decoder.decode(&mut buf).unwrap().unwrap();
    assert_eq!(frame.header.magic, MAGIC);
    assert_eq!(frame.header.id, 7);
    assert_eq!(frame.header.version, Version::Response);
    assert_eq!(frame.header.opcode, 0x2A);
    assert_eq!(frame.header.length as usize, NONCE_LEN + body.len());
    assert_eq!(frame.message.nonce, 0xDEAD_BEEF_0BAD_F00D);
    assert_eq!(&frame.message.body[..], &body[..]);
    assert_eq!(buf.len(), 0);
}

#[test]
fn roundtrip_largest_body() {
    // The largest body a frame can carry: the whole frame is then exactly
    // MAX_FRAME_LEN bytes on the wire.
    let max_body = MAX_FRAME_LEN - HEADER_LEN - NONCE_LEN;
    let body: Vec<u8> = vec![0xA5; max_body];
    let bytes = FrameEncoder::encode_with_nonce(Version::Request, 1, 1, 1, &body)
        .expect("largest body still fits");
    assert_eq!(bytes.len(), MAX_FRAME_LEN);

    let mut decoder = FrameDecoder::new();
    let mut buf = BytesMut::from(&bytes[..]);
    let frame = decoder.decode(&mut buf).unwrap().unwrap();
    assert_eq!(frame.message.body.len(), max_body);
    assert_eq!(buf.len(), 0);
}

#[test]
fn encode_rejects_oversized_body() {
    let body: Vec<u8> = vec![0; MAX_FRAME_LEN - HEADER_LEN - NONCE_LEN + 1];
    let r = FrameEncoder::encode_with_nonce(Version::Request, 1, 1, 1, &body);
    assert_eq!(r.unwrap_err(), CodecError::FrameTooLarge);

    let r = FrameEncoder::encode(Version::Request, 1, 1, &body, &NonceGenerator::Fixed(9));
    assert_eq!(r.unwrap_err(), CodecError::FrameTooLarge);
}

#[test]
fn header_codec_exact_bytes() {
    let header = Header {
        magic: MAGIC,
        id: 0x01020304,
        version: Version::Request,
        opcode: 0xAB,
        length: 0x1234,
    };
    let bytes = HeaderCodec::encode(&header);
    assert_eq!(
        bytes,
        vec![0xC0, 0xDE, 0xC0, 0xDE, 0x01, 0x02, 0x03, 0x04, 0x01, 0xAB, 0x12, 0x34]
    );
    let back = HeaderCodec::decode(&bytes).expect("its own bytes decode");
    assert_eq!(back, header);
}

#[test]
fn header_codec_response_byte() {
    let header = Header {
        magic: MAGIC,
        id: 0,
        version: Version::Response,
        opcode: 0,
        length: 8,
    };
    let bytes = HeaderCodec::encode(&header);
    assert_eq!(bytes[8], 0x81);
    assert_eq!(HeaderCodec::decode(&bytes).unwrap(), header);
}
