use valkyrie_lsp::codec::DecodeOutcome;
use valkyrie_lsp::codec::decode_frame;
use valkyrie_lsp::codec::encode_frame;

#[test]
fn encode_renders_the_exact_header() {
    let out = encode_frame(&b"abc".to_vec());
    assert_eq!(out, b"Content-Length: 3\r\n\r\nabc".to_vec());
    let out = encode_frame(&Vec::new());
    assert_eq!(out, b"Content-Length: 0\r\n\r\n".to_vec());
    let out = encode_frame(&vec![0u8; 12345]);
    assert!(out.starts_with(b"Content-Length: 12345\r\n\r\n"));
    assert_eq!(out.len(), 25 + 12345);
}

#[test]
fn decode_round_trips_what_encode_produced() {
    let body = b"{\"jsonrpc\":\"2.0\",\"method\":\"exit\"}".to_vec();
    let mut wire = encode_frame(&body);
    wire.extend_from_slice(b"Content-Le");  // the next frame, still partial
    match decode_frame(&wire) {
        DecodeOutcome::Frame { body: decoded, consumed } => {
            assert_eq!(decoded, body);
            assert_eq!(consumed, wire.len() - 10);
        }
        other => panic!("a complete frame must decode: {:?}", other),
    }
}

#[test]
fn decode_asks_for_more_while_the_frame_is_short() {
    let wire = encode_frame(&b"hello".to_vec());
    for cut in [0, 1, 10, 16, 17, 18, 20, wire.len() - 1] {
        let partial = wire[..cut].to_vec();
        assert!(
            matches!(decode_frame(&partial), DecodeOutcome::Incomplete),
            "prefix of {} bytes must be incomplete",
            cut
        );
    }
}

#[test]
fn decode_rejects_what_cannot_start_a_frame() {
    let cases: Vec<&[u8]> = vec![
        b"Content-Length x",                    // broken header name
        b"Content-Length: \r\n\r\n",            // no digits
        b"Content-Length: 01\r\n\r\nx",         // leading zero
        b"Content-Length: 5x\r\n\r\n",          // junk after digits
        b"Content-Length: 5\r\r\n\n",           // broken blank line
        b"GET / HTTP/1.1\r\n",                  // not this protocol at all
    ];
    for case in cases {
        assert!(
            matches!(decode_frame(&case.to_vec()), DecodeOutcome::Malformed),
            "{:?} must be malformed",
            String::from_utf8_lossy(case)
        );
    }
}

#[test]
fn decode_consumes_one_frame_at_a_time() {
    let mut wire = encode_frame(&b"first".to_vec());
    wire.extend(encode_frame(&b"second!".to_vec()));
    let (first, consumed) = match decode_frame(&wire) {
        DecodeOutcome::Frame { body, consumed } => (body, consumed),
        other => panic!("first frame must decode: {:?}", other),
    };
    assert_eq!(first, b"first".to_vec());
    let rest = wire[consumed..].to_vec();
    match decode_frame(&rest) {
        DecodeOutcome::Frame { body, consumed } => {
            assert_eq!(body, b"second!".to_vec());
            assert_eq!(consumed, rest.len());
        }
        other => panic!("second frame must decode: {:?}", other),
    }
}
