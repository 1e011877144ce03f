use gpui_port_tst::ipc::{
    decode_frame, decode_frame_len, encode_frame, encode_frame_header, FrameError, FramingError,
    NativeRequest, MAX_FRAME_BYTES,
};

/// Wire shape of `NativeRequest` as bincode lays it out: variant index, then fields.
fn request_wire(req: &NativeRequest) -> (u32, String, u32) {
    match req {
        NativeRequest::Ping => (0, String::new(), 0),
        NativeRequest::SearchQuery { query, limit } => (1, query.clone(), *limit),
    }
}

fn request_from_wire(w: (u32, String, u32)) -> NativeRequest {
    match w.0 {
        0 => NativeRequest::Ping,
        _ => NativeRequest::SearchQuery { query: w.1, limit: w.2 },
    }
}

#[test]
fn roundtrip_request_response() {
    let req = NativeRequest::SearchQuery {
        query: "hello".into(),
        limit: 50,
    };
    let payload = bincode::serialize(&request_wire(&req)).unwrap();
    let buf = encode_frame(&payload).unwrap();
    let (got_payload, used) = decode_frame(&buf).unwrap();
    assert_eq!(used, buf.len());
    let got: NativeRequest =
        request_from_wire(bincode::deserialize::<(u32, String, u32)>(&got_payload).unwrap());
    assert_eq!(got, req);

    // NativeResponse::SearchResults { hits: vec![SearchHit { .. }] } in bincode's layout.
    let res: (u32, Vec<(String, String, f32)>) = (
        1,
        vec![("/tmp/a.txt".to_string(), "hello world".to_string(), 1.0f32)],
    );
    let payload = bincode::serialize(&res).unwrap();
    let buf = encode_frame(&payload).unwrap();
    let (got_payload, _) = decode_frame(&buf).unwrap();
    let got: (u32, Vec<(String, String, f32)>) = bincode::deserialize(&got_payload).unwrap();
    assert_eq!(got, res);
}

#[test]
fn encode_frame_lays_out_little_endian_length_then_payload() {
    assert_eq!(encode_frame(b"abc").unwrap(), vec![3, 0, 0, 0, b'a', b'b', b'c']);
    assert_eq!(encode_frame(b"").unwrap(), vec![0, 0, 0, 0]);
    let big = vec![7u8; 300];
    let framed = encode_frame(&big).unwrap();
    assert_eq!(&framed[..4], &[44, 1, 0, 0]);
    assert_eq!(framed.len(), 304);
    assert_eq!(&framed[4..], &big[..]);
}

#[test]
fn frame_header_bytes() {
    assert_eq!(encode_frame_header(0), [0, 0, 0, 0]);
    assert_eq!(encode_frame_header(0x0403_0201), [1, 2, 3, 4]);
    assert_eq!(encode_frame_header(u32::MAX), [255, 255, 255, 255]);
}

#[test]
fn decode_frame_len_limit() {
    assert_eq!(decode_frame_len([5, 0, 0, 0]).unwrap(), 5);
    assert_eq!(decode_frame_len([0, 0, 0, 0x10]).unwrap(), MAX_FRAME_BYTES);
    match decode_frame_len([1, 0, 0, 0x10]) {
        Err(FramingError::FrameTooLarge { len }) => assert_eq!(len, MAX_FRAME_BYTES + 1),
        other => panic!("unexpected {other:?}"),
    }
    match decode_frame_len([255, 255, 255, 255]) {
        Err(FramingError::FrameTooLarge { len }) => assert_eq!(len, 4294967295),
        other => panic!("unexpected {other:?}"),
    }
}

#[test]
fn decode_frame_leaves_trailing_bytes() {
    let mut buf = encode_frame(b"xy").unwrap();
    buf.extend_from_slice(&[9, 9, 9]);
    let (payload, used) = decode_frame(&buf).unwrap();
    assert_eq!(payload, b"xy".to_vec());
    assert_eq!(used, 6);
    let (next, _) = decode_frame(&encode_frame(&[]).unwrap()).unwrap();
    assert!(next.is_empty());
}

#[test]
fn decode_frame_short_input_is_unexpected_eof() {
    for input in [&[][..], &[1][..], &[3, 0, 0][..]] {
        assert_eq!(decode_frame(input), Err(FrameError::UnexpectedEof { needed: 4 }));
    }
    assert_eq!(
        decode_frame(&[5, 0, 0, 0, 1, 2]),
        Err(FrameError::UnexpectedEof { needed: 9 })
    );
    // A header announcing exactly the limit is accepted; the missing payload is the fault.
    assert_eq!(
        decode_frame(&[0, 0, 0, 0x10]),
        Err(FrameError::UnexpectedEof { needed: 4 + MAX_FRAME_BYTES })
    );
}

#[test]
fn decode_frame_oversized_header() {
    assert_eq!(
        decode_frame(&[1, 0, 0, 0x10, 0, 0]),
        Err(FrameError::FrameTooLarge { len: 268435457 })
    );
}

#[test]
fn every_proper_prefix_of_a_frame_is_short() {
    let framed = encode_frame(b"hello").unwrap();
    for k in 0..framed.len() {
        let needed = if k < 4 { 4 } else { framed.len() };
        assert_eq!(decode_frame(&framed[..k]), Err(FrameError::UnexpectedEof { needed }));
    }
    let (payload, used) = decode_frame(&framed).unwrap();
    assert_eq!(payload, b"hello".to_vec());
    assert_eq!(used, framed.len());
}

#[test]
fn consecutive_frames_read_in_order() {
    let mut stream = encode_frame(b"first").unwrap();
    stream.extend(encode_frame(b"second").unwrap());
    let (a, used) = decode_frame(&stream).unwrap();
    let (b, used2) = decode_frame(&stream[used..]).unwrap();
    assert_eq!(a, b"first".to_vec());
    assert_eq!(b, b"second".to_vec());
    assert_eq!(used + used2, stream.len());
    assert_eq!(
        decode_frame(&stream[used + used2..]),
        Err(FrameError::UnexpectedEof { needed: 4 })
    );
}
