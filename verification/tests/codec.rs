use language_server::codec::{FramingError, LspCodec};

/// Decodes, and shows the body of a frame as text.
fn text(decoded: Result<Option<(&[u8], usize)>, FramingError>) -> Result<Option<(String, usize)>, FramingError> {
    match decoded {
        Ok(Some((body, consumed))) => Ok(Some((String::from_utf8(body.to_vec()).unwrap(), consumed))),
        Ok(None) => Ok(None),
        Err(error) => Err(error),
    }
}

fn decode(bytes: &[u8]) -> Result<Option<(String, usize)>, FramingError> {
    text(LspCodec.decode(bytes))
}

fn decode_eof(bytes: &[u8]) -> Result<Option<(String, usize)>, FramingError> {
    text(LspCodec.decode_eof(bytes))
}

#[test]
fn encode_prepends_the_length_header() {
    assert_eq!(LspCodec.encode("{}"), b"Content-Length: 2\r\n\r\n{}".to_vec());
    assert_eq!(LspCodec.encode(""), b"Content-Length: 0\r\n\r\n".to_vec());
    assert_eq!(LspCodec.encode("0123456789"), b"Content-Length: 10\r\n\r\n0123456789".to_vec());
    let body = r#"{"jsonrpc":"2.0","method":"initialize","id":0,"params":{"capabilities":{}}}"#;
    let mut expected = b"Content-Length: 75\r\n\r\n".to_vec();
    expected.extend_from_slice(body.as_bytes());
    assert_eq!(LspCodec.encode(body), expected);
}

#[test]
fn encode_counts_bytes_not_characters() {
    assert_eq!(LspCodec.encode("\u{e9}"), b"Content-Length: 2\r\n\r\n\xc3\xa9".to_vec());
    assert_eq!(
        LspCodec.encode("\u{1f600}!"),
        b"Content-Length: 5\r\n\r\n\xf0\x9f\x98\x80!".to_vec()
    );
    let long = "x".repeat(12345);
    let bytes = LspCodec.encode(&long);
    assert!(bytes.starts_with(b"Content-Length: 12345\r\n\r\n"));
    assert_eq!(bytes.len(), 25 + 12345);
}

#[test]
fn decode_reads_one_frame() {
    assert_eq!(
        decode(b"Content-Length: 2\r\n\r\n{}"),
        Ok(Some(("{}".to_owned(), 23)))
    );
    assert_eq!(
        decode(b"Content-Length: 4\r\n\r\nHUH!"),
        Ok(Some(("HUH!".to_owned(), 25)))
    );
    assert_eq!(decode(b"Content-Length: 0\r\n\r\n"), Ok(Some(("".to_owned(), 21))));
}

#[test]
fn decode_leaves_what_follows_the_frame() {
    let bytes = b"Content-Length: 2\r\n\r\n{}Content-Length: 3\r\n\r\n[1]Cont";
    assert_eq!(decode(bytes), Ok(Some(("{}".to_owned(), 23))));
    assert_eq!(decode(&bytes[23..]), Ok(Some(("[1]".to_owned(), 24))));
    assert_eq!(decode(&bytes[47..]), Ok(None));
}

#[test]
fn decode_waits_for_the_whole_frame() {
    let bytes = b"Content-Length: 10\r\n\r\n0123456789";
    for cut in 0..bytes.len() {
        assert_eq!(decode(&bytes[..cut]), Ok(None), "cut at {}", cut);
    }
    assert_eq!(decode(bytes), Ok(Some(("0123456789".to_owned(), bytes.len()))));
}

#[test]
fn decode_ignores_other_headers() {
    assert_eq!(
        decode(b"Content-Length: 2\r\nContent-Type: application/vscode-jsonrpc; charset=utf-8\r\n\r\n{}"),
        Ok(Some(("{}".to_owned(), 80)))
    );
    assert_eq!(
        decode(b"Content-Type: application/vscode-jsonrpc; charset=utf-8\r\nContent-Length: 2\r\n\r\n{}"),
        Ok(Some(("{}".to_owned(), 80)))
    );
    assert_eq!(decode(b"X-Any:\r\nContent-Length:2\r\n\r\n{}"), Ok(Some(("{}".to_owned(), 30))));
}

#[test]
fn decode_trims_blanks_around_the_length() {
    assert_eq!(decode(b"Content-Length:2\r\n\r\n{}"), Ok(Some(("{}".to_owned(), 22))));
    assert_eq!(decode(b"Content-Length: \t 2 \t\r\n\r\n{}"), Ok(Some(("{}".to_owned(), 27))));
    assert_eq!(decode(b"Content-Length: 0002\r\n\r\n{}"), Ok(Some(("{}".to_owned(), 26))));
}

#[test]
fn decode_takes_the_last_length() {
    assert_eq!(
        decode(b"Content-Length: 1\r\nContent-Length: 2\r\n\r\n{}"),
        Ok(Some(("{}".to_owned(), 42)))
    );
}

#[test]
fn decode_rejects_a_missing_length() {
    assert_eq!(
        decode(b"Content-Type: text/plain\r\n\r\n{}"),
        Err(FramingError::MissingContentLength)
    );
    assert_eq!(decode(b"\r\n{}"), Err(FramingError::MissingContentLength));
    assert_eq!(decode(b"\n"), Err(FramingError::MissingContentLength));
    assert_eq!(
        decode(b"content-length: 2\r\n\r\n{}"),
        Err(FramingError::MissingContentLength)
    );
}

#[test]
fn decode_rejects_a_malformed_header_line() {
    assert_eq!(decode(b"Content-Length 2\r\n\r\n{}"), Err(FramingError::MalformedHeader));
    assert_eq!(decode(b": 2\r\n\r\n{}"), Err(FramingError::MalformedHeader));
    assert_eq!(decode(b" \r\n\r\n{}"), Err(FramingError::MalformedHeader));
    assert_eq!(decode(b"\r\r\n\r\n{}"), Err(FramingError::MalformedHeader));
    assert_eq!(
        decode(b"Content-Length: 2\r\ngarbage\r\n\r\n{}"),
        Err(FramingError::MalformedHeader)
    );
    assert_eq!(
        decode(b"garbage\r\nContent-Length: x\r\n\r\n{}"),
        Err(FramingError::MalformedHeader)
    );
}

#[test]
fn decode_rejects_a_length_that_is_no_number() {
    assert_eq!(decode(b"Content-Length: two\r\n\r\n{}"), Err(FramingError::InvalidLength));
    assert_eq!(decode(b"Content-Length: \r\n\r\n{}"), Err(FramingError::InvalidLength));
    assert_eq!(decode(b"Content-Length: -2\r\n\r\n{}"), Err(FramingError::InvalidLength));
    assert_eq!(decode(b"Content-Length: +2\r\n\r\n{}"), Err(FramingError::InvalidLength));
    assert_eq!(decode(b"Content-Length: 2.0\r\n\r\n{}"), Err(FramingError::InvalidLength));
    assert_eq!(decode(b"Content-Length: 2 2\r\n\r\n{}"), Err(FramingError::InvalidLength));
    assert_eq!(
        decode(b"Content-Length: 99999999999999999999999999\r\n\r\n{}"),
        Err(FramingError::InvalidLength)
    );
    assert_eq!(
        decode(b"Content-Length: x\r\ngarbage\r\n\r\n{}"),
        Err(FramingError::InvalidLength)
    );
}

#[test]
fn decode_hands_out_the_bytes_of_the_body() {
    assert_eq!(
        LspCodec.decode(b"Content-Length: 2\r\n\r\n\xff\xfe"),
        Ok(Some((b"\xff\xfe".as_ref(), 23)))
    );
    assert_eq!(
        LspCodec.decode(b"Content-Length: 1\r\n\r\n\xc3\xa9"),
        Ok(Some((b"\xc3".as_ref(), 22)))
    );
    assert_eq!(
        LspCodec.decode(b"Content-Length: 2\r\n\r\n\xc3\xa9"),
        Ok(Some(("\u{e9}".as_bytes(), 23)))
    );
    assert_eq!(
        LspCodec.decode(b"Content-Length: 3\r\n\r\n\0\r\n"),
        Ok(Some((b"\0\r\n".as_ref(), 24)))
    );
}

#[test]
fn decode_eof_reports_a_frame_cut_short() {
    assert_eq!(decode_eof(b""), Ok(None));
    assert_eq!(decode_eof(b"Content-Le"), Err(FramingError::UnexpectedEof));
    assert_eq!(
        decode_eof(b"Content-Length: 10\r\n\r\n01234"),
        Err(FramingError::UnexpectedEof)
    );
    assert_eq!(
        decode_eof(b"Content-Length: 2\r\n\r\n{}"),
        Ok(Some(("{}".to_owned(), 23)))
    );
    assert_eq!(
        decode_eof(b"Content-Length 2\r\n\r\n{}"),
        Err(FramingError::MalformedHeader)
    );
}

#[test]
fn frames_round_trip() {
    let bodies = [
        "",
        "{}",
        "HUH!",
        r#"{"jsonrpc":"2.0","result":null,"id":42}"#,
        "line\r\n\r\nbreaks: inside",
        "\u{e9}\u{1f600}\u{4e2d}",
    ];
    for body in bodies {
        let mut bytes = LspCodec.encode(body);
        let length = bytes.len();
        assert_eq!(decode(&bytes), Ok(Some((body.to_owned(), length))));
        bytes.extend_from_slice(b"Content-Length: 1\r\n\r\n");
        assert_eq!(decode(&bytes), Ok(Some((body.to_owned(), length))));
    }
}

#[test]
fn decode_reads_lines_that_end_with_a_bare_lf() {
    assert_eq!(decode(b"Content-Length: 2\n\n{}"), Ok(Some(("{}".to_owned(), 21))));
    assert_eq!(decode(b"Content-Length: 2\r\n\n{}"), Ok(Some(("{}".to_owned(), 22))));
    assert_eq!(decode(b"Content-Length: 2\n\r\n{}"), Ok(Some(("{}".to_owned(), 22))));
    assert_eq!(
        decode(b"Content-Type: text/plain\nContent-Length: 2\n\n{}"),
        Ok(Some(("{}".to_owned(), 46)))
    );
    let body = r#"{"jsonrpc":"2.0","method":"initialize","id":0,"params":{"capabilities":{}}}"#;
    let bytes = format!("Content-Length: 75\n\n{}", body).into_bytes();
    assert_eq!(decode(&bytes), Ok(Some((body.to_owned(), bytes.len()))));
    assert_eq!(decode(b"Content-Length: 2\n"), Ok(None));
    assert_eq!(decode(b"Content-Length: 2\n\n{"), Ok(None));
}

#[test]
fn decode_reports_a_faulty_line_as_soon_as_it_is_whole() {
    assert_eq!(decode(b"garbage"), Ok(None));
    assert_eq!(decode(b"garbage\r"), Ok(None));
    assert_eq!(decode(b"garbage\r\n"), Err(FramingError::MalformedHeader));
    assert_eq!(decode(b"Content-Length: x"), Ok(None));
    assert_eq!(decode(b"Content-Length: x\n"), Err(FramingError::InvalidLength));
}
