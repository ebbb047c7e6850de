use std::io::Write;

use http::header::{HeaderMap, HeaderValue};
use ureq_core::body::content::{inflate, ContentEncoding};
use ureq_core::body::info::{split_content_type, ResponseInfo};
use ureq_core::body::limit::{LimitReader, UnitHandler};
use ureq_core::body::stream::{read_to_end, Reader};
use ureq_core::body::Body;
use ureq_core::error::Error;

fn gzip(payload: &[u8]) -> Vec<u8> {
    let mut e = flate2::write::GzEncoder::new(Vec::new(), flate2::Compression::default());
    e.write_all(payload).unwrap();
    e.finish().unwrap()
}

fn plain(data: &[u8]) -> Body {
    Body::new(
        UnitHandler::new(data.to_vec()),
        ResponseInfo::of(ContentEncoding::Identity, None),
    )
}

#[test]
fn read_to_vec_hands_on_a_plain_body() {
    let mut body = plain(b"hello");
    assert_eq!(body.read_to_vec(100).unwrap(), b"hello".to_vec());
}

#[test]
fn read_to_vec_of_an_empty_body_is_empty() {
    let mut body = plain(b"");
    assert_eq!(body.read_to_vec(1).unwrap(), Vec::<u8>::new());
}

#[test]
fn read_to_vec_with_limit_zero_passes_on_an_empty_body() {
    let mut body = plain(b"");
    assert_eq!(body.read_to_vec(0).unwrap(), Vec::<u8>::new());
    let mut body = plain(b"x");
    assert!(matches!(body.read_to_vec(0), Err(Error::BodyExceedsLimit)));
}

#[test]
fn read_to_vec_passes_where_the_body_is_as_long_as_the_limit() {
    let mut body = plain(b"hello");
    assert_eq!(body.read_to_vec(5).unwrap(), b"hello".to_vec());
}

#[test]
fn read_to_vec_fails_where_the_body_is_one_longer_than_the_limit() {
    let mut body = plain(b"hello");
    assert!(matches!(body.read_to_vec(4), Err(Error::BodyExceedsLimit)));
}

#[test]
fn reader_at_the_cap_ends_cleanly_where_the_body_ends_too() {
    let body = plain(b"hello");
    let mut reader = body.into_reader(5);
    let mut buf = [0u8; 16];
    assert_eq!(reader.read(&mut buf).unwrap(), 5);
    assert_eq!(&buf[..5], b"hello");
    assert_eq!(reader.read(&mut buf).unwrap(), 0);
    assert_eq!(reader.read(&mut buf).unwrap(), 0);
}

#[test]
fn as_reader_reads_nothing() {
    let brotli: Vec<u8> = vec![0x0b, 0x02, 0x80, 0x68, 0x65, 0x6c, 0x6c, 0x6f, 0x03];
    let cases: Vec<(Vec<u8>, ResponseInfo, Vec<u8>)> = vec![
        (
            b"plain".to_vec(),
            ResponseInfo::of(ContentEncoding::Identity, None),
            b"plain".to_vec(),
        ),
        (
            gzip(b"abc"),
            ResponseInfo::of(ContentEncoding::Gzip, None),
            b"abc".to_vec(),
        ),
        (
            brotli,
            ResponseInfo::of(ContentEncoding::Brotli, None),
            b"hello".to_vec(),
        ),
        (
            vec![0xe9],
            ResponseInfo::of(ContentEncoding::Identity, Some("text/plain; charset=latin1")),
            vec![0xc3, 0xa9],
        ),
    ];
    for (wire, info, expected) in cases {
        let mut body = Body::new(UnitHandler::new(wire), info);
        let _first = body.as_reader(1);
        let _second = body.as_reader(1000);
        // readers that were never read from have taken nothing
        assert_eq!(body.read_to_vec(1000).unwrap(), expected);
    }
}

#[test]
fn a_later_reader_goes_on_where_the_first_stopped() {
    let mut body = plain(b"0123456789");
    let mut first = body.as_reader(4);
    let mut buf = [0u8; 3];
    assert_eq!(body.read(&mut first, &mut buf).unwrap(), 3);
    assert_eq!(&buf, b"012");
    let mut second = body.as_reader(100);
    let mut rest = [0u8; 16];
    assert_eq!(body.read(&mut second, &mut rest).unwrap(), 7);
    assert_eq!(&rest[..7], b"3456789");
}

#[test]
fn truncated_gzip_delivers_what_was_decoded_and_then_fails() {
    let payload: Vec<u8> = (0..200_000u32).map(|i| (i % 251) as u8).collect();
    let wire = gzip(&payload);
    let cut = wire[..wire.len() / 2].to_vec();
    let body = Body::new(
        UnitHandler::new(cut),
        ResponseInfo::of(ContentEncoding::Gzip, None),
    );
    let mut reader = body.into_reader(10_000_000);
    let mut out = Vec::new();
    let mut buf = [0u8; 4096];
    let fault = loop {
        match reader.read(&mut buf) {
            Ok(0) => panic!("a truncated stream does not end cleanly"),
            Ok(n) => out.extend_from_slice(&buf[..n]),
            Err(e) => break e,
        }
    };
    assert!(matches!(fault, Error::Io(_)));
    assert!(!out.is_empty());
    assert_eq!(&out[..], &payload[..out.len()]);
    assert_eq!(reader.read(&mut buf).unwrap(), 0);
}

#[test]
fn gzip_over_the_cap_delivers_what_was_decoded_and_then_exceeds() {
    let payload: Vec<u8> = (0..200_000u32).map(|i| (i % 251) as u8).collect();
    let wire = gzip(&payload);
    let cap = wire.len() as u64 / 2;
    let body = Body::new(
        UnitHandler::new(wire),
        ResponseInfo::of(ContentEncoding::Gzip, None),
    );
    let mut reader = body.into_reader(cap);
    let mut out = Vec::new();
    let mut buf = [0u8; 4096];
    let fault = loop {
        match reader.read(&mut buf) {
            Ok(0) => panic!("a body over the cap does not end cleanly"),
            Ok(n) => out.extend_from_slice(&buf[..n]),
            Err(e) => break e,
        }
    };
    assert!(matches!(fault, Error::BodyExceedsLimit));
    assert!(!out.is_empty());
    assert_eq!(&out[..], &payload[..out.len()]);
    assert!(matches!(reader.read(&mut buf), Err(Error::BodyExceedsLimit)));
}

#[test]
fn read_to_vec_fails_where_the_body_is_longer_than_the_limit() {
    let mut body = plain(b"hello world");
    assert!(matches!(body.read_to_vec(3), Err(Error::BodyExceedsLimit)));
    // what was within the limit is used up, the rest is still there
    assert_eq!(body.read_to_vec(100).unwrap(), b"lo world".to_vec());
}

#[test]
fn reader_delivers_the_limit_and_then_fails() {
    let data = vec![7u8; 1_048_576];
    let mut body = plain(&data);
    let mut reader = body.as_reader(1024);
    let mut buf = [0u8; 600];
    let mut total = 0usize;
    loop {
        match body.read(&mut reader, &mut buf) {
            Ok(n) => {
                assert!(n > 0);
                assert!(buf[..n].iter().all(|b| *b == 7));
                total += n;
            }
            Err(e) => {
                assert!(matches!(e, Error::BodyExceedsLimit));
                break;
            }
        }
    }
    assert_eq!(total, 1024);
    // the failure stays
    assert!(matches!(
        body.read(&mut reader, &mut buf),
        Err(Error::BodyExceedsLimit)
    ));
}

#[test]
fn into_reader_reads_in_pieces() {
    let body = plain(b"abcdef");
    let mut reader = body.into_reader(100);
    let mut buf = [0u8; 4];
    assert_eq!(reader.read(&mut buf).unwrap(), 4);
    assert_eq!(&buf, b"abcd");
    assert_eq!(reader.read(&mut buf).unwrap(), 2);
    assert_eq!(&buf, b"efcd");
    assert_eq!(reader.read(&mut buf).unwrap(), 0);
    assert_eq!(reader.read(&mut buf).unwrap(), 0);
}

#[test]
fn read_into_an_empty_buffer_reads_nothing() {
    let body = plain(b"abc");
    let mut reader = body.into_reader(100);
    let mut none = [0u8; 0];
    assert_eq!(reader.read(&mut none).unwrap(), 0);
    let mut buf = [0u8; 8];
    assert_eq!(reader.read(&mut buf).unwrap(), 3);
    assert_eq!(&buf[..3], b"abc");
}

#[test]
fn gzip_of_two_members_decodes_to_both_payloads() {
    let mut data = gzip(b"A");
    data.extend_from_slice(&gzip(b"B"));
    let mut body = Body::new(
        UnitHandler::new(data),
        ResponseInfo::of(ContentEncoding::Gzip, None),
    );
    assert_eq!(body.read_to_vec(10_000).unwrap(), b"AB".to_vec());
}

#[test]
fn gzip_of_three_members_is_their_concatenation() {
    let mut data = gzip(b"first,");
    data.extend_from_slice(&gzip(b""));
    data.extend_from_slice(&gzip(b"third"));
    let mut body = Body::new(
        UnitHandler::new(data),
        ResponseInfo::of(ContentEncoding::Gzip, None),
    );
    assert_eq!(body.read_to_vec(10_000).unwrap(), b"first,third".to_vec());
}

#[test]
fn gzip_body_is_not_handed_on_as_it_is() {
    let data = gzip(b"payload");
    let mut body = Body::new(
        UnitHandler::new(data.clone()),
        ResponseInfo::of(ContentEncoding::Gzip, None),
    );
    let out = body.read_to_vec(10_000).unwrap();
    assert_ne!(out, data);
    assert_eq!(out, b"payload".to_vec());
}

#[test]
fn corrupt_gzip_is_an_io_error() {
    let mut body = Body::new(
        UnitHandler::new(b"this is no gzip stream".to_vec()),
        ResponseInfo::of(ContentEncoding::Gzip, None),
    );
    assert!(matches!(body.read_to_vec(10_000), Err(Error::Io(_))));
}

#[test]
fn gzip_beyond_the_limit_exceeds_it() {
    let data = gzip(b"some payload that compresses to more than four bytes");
    let mut body = Body::new(
        UnitHandler::new(data),
        ResponseInfo::of(ContentEncoding::Gzip, None),
    );
    assert!(matches!(body.read_to_vec(4), Err(Error::BodyExceedsLimit)));
}

#[test]
fn the_limit_counts_wire_bytes_not_decoded_ones() {
    let payload = vec![b'a'; 100_000];
    let data = gzip(&payload);
    assert!(data.len() < 1000);
    let mut body = Body::new(
        UnitHandler::new(data),
        ResponseInfo::of(ContentEncoding::Gzip, None),
    );
    assert_eq!(body.read_to_vec(1000).unwrap(), payload);
}

#[test]
fn brotli_body_is_decoded() {
    let data: Vec<u8> = vec![0x0b, 0x02, 0x80, 0x68, 0x65, 0x6c, 0x6c, 0x6f, 0x03];
    let mut body = Body::new(
        UnitHandler::new(data),
        ResponseInfo::of(ContentEncoding::Brotli, None),
    );
    assert_eq!(body.read_to_vec(100).unwrap(), b"hello".to_vec());
}

#[test]
fn corrupt_brotli_is_an_io_error() {
    let mut body = Body::new(
        UnitHandler::new(vec![0xff; 40]),
        ResponseInfo::of(ContentEncoding::Brotli, None),
    );
    assert!(matches!(body.read_to_vec(100), Err(Error::Io(_))));
}

#[test]
fn unknown_encoding_passes_through() {
    let mut body = Body::new(
        UnitHandler::new(b"raw".to_vec()),
        ResponseInfo::of(ContentEncoding::Unknown, None),
    );
    assert_eq!(body.read_to_vec(100).unwrap(), b"raw".to_vec());
}

#[test]
fn inflate_gives_the_output_and_the_failure() {
    let (out, fault) = inflate(b"as is".to_vec(), ContentEncoding::Identity);
    assert_eq!(out, b"as is".to_vec());
    assert!(fault.is_none());
    let (out, fault) = inflate(gzip(b"zipped"), ContentEncoding::Gzip);
    assert_eq!(out, b"zipped".to_vec());
    assert!(fault.is_none());
    let (out, fault) = inflate(b"no gzip".to_vec(), ContentEncoding::Gzip);
    assert!(out.is_empty());
    assert!(fault.is_some());
    let (out, fault) = inflate(
        vec![0x0b, 0x02, 0x80, 0x68, 0x65, 0x6c, 0x6c, 0x6f, 0x03],
        ContentEncoding::Brotli,
    );
    assert_eq!(out, b"hello".to_vec());
    assert!(fault.is_none());
}

#[test]
fn latin1_text_is_transcoded_to_utf8() {
    let mut body = Body::new(
        UnitHandler::new(vec![b'c', b'a', b'f', 0xe9]),
        ResponseInfo::of(
            ContentEncoding::Identity,
            Some("text/plain; charset=iso-8859-1"),
        ),
    );
    assert_eq!(body.read_to_string(100).unwrap(), "café");
}

#[test]
fn transcoded_text_differs_from_the_wire_bytes() {
    let wire = vec![0xe9u8];
    let mut body = Body::new(
        UnitHandler::new(wire.clone()),
        ResponseInfo::of(ContentEncoding::Identity, Some("text/html;charset=latin1")),
    );
    let out = body.read_to_vec(100).unwrap();
    assert_ne!(out, wire);
    assert_eq!(out, vec![0xc3, 0xa9]);
}

#[test]
fn unknown_charset_label_passes_through() {
    let wire = vec![b'a', 0xe9, b'b'];
    let mut body = Body::new(
        UnitHandler::new(wire.clone()),
        ResponseInfo::of(
            ContentEncoding::Identity,
            Some("text/plain; charset=no-such-charset"),
        ),
    );
    assert_eq!(body.read_to_vec(100).unwrap(), wire);
}

#[test]
fn utf8_charset_passes_through() {
    let wire = vec![0xff, 0xfe, b'x'];
    let mut body = Body::new(
        UnitHandler::new(wire.clone()),
        ResponseInfo::of(ContentEncoding::Identity, Some("text/plain; charset=utf-8")),
    );
    assert_eq!(body.read_to_vec(100).unwrap(), wire);
}

#[test]
fn text_without_charset_passes_through() {
    let wire = vec![0xe9u8];
    let mut body = Body::new(
        UnitHandler::new(wire.clone()),
        ResponseInfo::of(ContentEncoding::Identity, Some("text/plain")),
    );
    assert_eq!(body.read_to_vec(100).unwrap(), wire);
}

#[test]
fn charset_of_a_body_that_is_no_text_is_ignored() {
    let wire = vec![0xe9u8];
    let mut body = Body::new(
        UnitHandler::new(wire.clone()),
        ResponseInfo::of(
            ContentEncoding::Identity,
            Some("application/json; charset=iso-8859-1"),
        ),
    );
    assert_eq!(body.read_to_vec(100).unwrap(), wire);
}

#[test]
fn gzip_latin1_text_is_decoded_and_transcoded() {
    let mut body = Body::new(
        UnitHandler::new(gzip(&[b'n', b'a', 0xef, b'v', b'e'])),
        ResponseInfo::of(
            ContentEncoding::Gzip,
            Some("text/plain; charset=windows-1252"),
        ),
    );
    assert_eq!(body.read_to_string(1000).unwrap(), "naïve");
}

#[test]
fn read_to_string_rejects_what_is_no_utf8() {
    let mut body = plain(&[b'o', b'k', 0xff]);
    assert!(matches!(body.read_to_string(100), Err(Error::Io(_))));
}

#[test]
fn read_to_string_gives_the_text() {
    let mut body = plain("grüß".as_bytes());
    assert_eq!(body.read_to_string(100).unwrap(), "grüß");
}

#[test]
fn read_to_string_fails_beyond_the_limit() {
    let mut body = plain(b"hello");
    assert!(matches!(
        body.read_to_string(4),
        Err(Error::BodyExceedsLimit)
    ));
    let mut body = plain(b"hello");
    assert_eq!(body.read_to_string(5).unwrap(), "hello");
}

#[test]
fn mime_type_and_charset_of_a_body() {
    let body = Body::new(
        UnitHandler::new(Vec::new()),
        ResponseInfo::of(
            ContentEncoding::Identity,
            Some("text/plain; charset=iso-8859-1"),
        ),
    );
    assert_eq!(body.mime_type(), Some("text/plain"));
    assert_eq!(body.charset(), Some("iso-8859-1"));
    let none = plain(b"");
    assert_eq!(none.mime_type(), None);
    assert_eq!(none.charset(), None);
}

#[test]
fn split_content_type_with_charset() {
    assert_eq!(
        split_content_type("text/plain; charset=iso-8859-1"),
        (Some("text/plain".to_string()), Some("iso-8859-1".to_string()))
    );
}

#[test]
fn split_content_type_without_parameters() {
    assert_eq!(
        split_content_type("application/json"),
        (Some("application/json".to_string()), None)
    );
}

#[test]
fn split_content_type_of_the_empty_string() {
    assert_eq!(split_content_type(""), (Some(String::new()), None));
}

#[test]
fn split_content_type_keeps_the_mime_type_as_written() {
    assert_eq!(
        split_content_type(" Text/HTML ;charset=x"),
        (Some(" Text/HTML ".to_string()), Some("x".to_string()))
    );
}

#[test]
fn split_content_type_takes_the_last_charset() {
    assert_eq!(
        split_content_type("text/plain; charset=a; boundary=b; charset=c;"),
        (Some("text/plain".to_string()), Some("c".to_string()))
    );
}

#[test]
fn split_content_type_trims_parameters() {
    assert_eq!(
        split_content_type("text/plain;\t charset=utf-8 \u{a0}"),
        (Some("text/plain".to_string()), Some("utf-8".to_string()))
    );
}

#[test]
fn split_content_type_wants_the_prefix_in_lower_case() {
    assert_eq!(
        split_content_type("text/plain; Charset=utf-8; xcharset=a; charset =b"),
        (Some("text/plain".to_string()), None)
    );
}

#[test]
fn split_content_type_with_an_empty_charset() {
    assert_eq!(
        split_content_type("text/plain; charset="),
        (Some("text/plain".to_string()), Some(String::new()))
    );
}

#[test]
fn split_content_type_with_text_beyond_ascii() {
    assert_eq!(
        split_content_type("téxt/plain;charset=ütf;é"),
        (Some("téxt/plain".to_string()), Some("ütf".to_string()))
    );
}

#[test]
fn content_encoding_from_a_header_value() {
    assert_eq!(ContentEncoding::from("gzip"), ContentEncoding::Gzip);
    assert_eq!(ContentEncoding::from("br"), ContentEncoding::Brotli);
    assert_eq!(ContentEncoding::from("deflate"), ContentEncoding::Unknown);
    assert_eq!(ContentEncoding::from("GZIP"), ContentEncoding::Unknown);
    assert_eq!(ContentEncoding::from(""), ContentEncoding::Unknown);
    assert_eq!(ContentEncoding::from("gzip "), ContentEncoding::Unknown);
}

#[test]
fn response_info_from_headers() {
    let mut headers = HeaderMap::new();
    headers.insert("content-encoding", HeaderValue::from_static("gzip"));
    headers.append("content-encoding", HeaderValue::from_static("br"));
    headers.insert(
        "Content-Type",
        HeaderValue::from_static("text/html; charset=koi8-r"),
    );
    let info = ResponseInfo::new(&headers);
    assert_eq!(info.content_encoding(), ContentEncoding::Gzip);
    assert_eq!(info.mime_type(), Some("text/html"));
    assert_eq!(info.charset(), Some("koi8-r"));
}

#[test]
fn response_info_without_headers() {
    let info = ResponseInfo::new(&HeaderMap::new());
    assert_eq!(info.content_encoding(), ContentEncoding::Identity);
    assert_eq!(info.mime_type(), None);
    assert_eq!(info.charset(), None);
}

#[test]
fn response_info_ignores_values_that_are_no_text() {
    let mut headers = HeaderMap::new();
    headers.insert(
        "content-encoding",
        HeaderValue::from_bytes(b"gz\xffip").unwrap(),
    );
    headers.insert(
        "content-type",
        HeaderValue::from_bytes(b"text/pl\x80in").unwrap(),
    );
    let info = ResponseInfo::new(&headers);
    assert_eq!(info.content_encoding(), ContentEncoding::Identity);
    assert_eq!(info.mime_type(), None);
    assert_eq!(info.charset(), None);
}

#[test]
fn response_info_with_an_unknown_encoding() {
    let mut headers = HeaderMap::new();
    headers.insert("content-encoding", HeaderValue::from_static("zstd"));
    let info = ResponseInfo::new(&headers);
    assert_eq!(info.content_encoding(), ContentEncoding::Unknown);
}

#[test]
fn body_from_headers_end_to_end() {
    let mut headers = HeaderMap::new();
    headers.insert("content-encoding", HeaderValue::from_static("gzip"));
    headers.insert(
        "content-type",
        HeaderValue::from_static("text/plain; charset=iso-8859-1"),
    );
    let mut body = Body::new(
        UnitHandler::new(gzip(&[0xe9])),
        ResponseInfo::new(&headers),
    );
    assert_eq!(body.read_to_string(1000).unwrap(), "é");
}

#[test]
fn limit_reader_counts_what_it_lets_through() {
    let mut unit = UnitHandler::new(b"0123456789".to_vec());
    let mut reader = LimitReader::new(7);
    let mut buf = [0u8; 4];
    assert_eq!(reader.read(&mut unit, &mut buf).unwrap(), 4);
    assert_eq!(&buf, b"0123");
    assert_eq!(reader.read(&mut unit, &mut buf).unwrap(), 3);
    assert_eq!(&buf[..3], b"456");
    assert!(matches!(
        reader.read(&mut unit, &mut buf),
        Err(Error::BodyExceedsLimit)
    ));
    assert_eq!(unit.unread(), 3);
}

#[test]
fn limit_reader_window_and_advance() {
    let mut reader = LimitReader::new(10);
    assert!(!reader.is_spent());
    assert_eq!(reader.window(4), 4);
    reader.advance(4);
    assert_eq!(reader.window(100), 6);
    reader.advance(6);
    assert!(reader.is_spent());
    assert_eq!(reader.window(1), 0);
    assert_eq!(reader.past_cap(0).unwrap(), 0);
    assert!(matches!(
        reader.past_cap(1),
        Err(Error::BodyExceedsLimit)
    ));
}

#[test]
fn read_to_end_of_a_limit_reader() {
    let mut unit = UnitHandler::new(vec![1u8; 10_000]);
    let mut reader = LimitReader::new(20_000);
    assert_eq!(read_to_end(&mut reader, &mut unit).unwrap(), vec![1u8; 10_000]);
    assert_eq!(unit.unread(), 0);
    let mut unit = UnitHandler::new(vec![1u8; 10_000]);
    let mut reader = LimitReader::new(9_000);
    assert!(matches!(
        read_to_end(&mut reader, &mut unit),
        Err(Error::BodyExceedsLimit)
    ));
    assert_eq!(unit.unread(), 1_000);
}

#[test]
fn unit_handler_reads_in_order() {
    let mut unit = UnitHandler::new(b"abc".to_vec());
    let mut buf = [b'-'; 2];
    assert_eq!(unit.do_read(&mut buf).unwrap(), 2);
    assert_eq!(&buf, b"ab");
    assert_eq!(unit.do_read(&mut buf).unwrap(), 1);
    assert_eq!(&buf, b"cb");
    assert_eq!(unit.do_read(&mut buf).unwrap(), 0);
}

#[test]
fn reading_the_same_body_twice_gives_the_same_result() {
    let wire = gzip(b"the same bytes in, the same bytes out");
    let read = |limit: usize| {
        let mut body = Body::new(
            UnitHandler::new(wire.clone()),
            ResponseInfo::of(ContentEncoding::Gzip, Some("text/plain; charset=latin1")),
        );
        body.read_to_vec(limit)
    };
    assert_eq!(read(10_000).unwrap(), read(10_000).unwrap());
    assert!(matches!(read(10), Err(Error::BodyExceedsLimit)));
    assert!(matches!(read(10), Err(Error::BodyExceedsLimit)));
}

#[test]
fn as_reader_of_a_compressed_body_reads_it_to_the_limit() {
    let wire = gzip(b"abc");
    let n = wire.len();
    let mut tail = wire.clone();
    tail.extend_from_slice(b"next");
    let mut body = Body::new(
        UnitHandler::new(wire),
        ResponseInfo::of(ContentEncoding::Gzip, None),
    );
    let mut reader = body.as_reader(n as u64);
    let mut buf = [0u8; 2];
    assert_eq!(body.read(&mut reader, &mut buf).unwrap(), 2);
    assert_eq!(&buf, b"ab");
    assert_eq!(body.read(&mut reader, &mut buf).unwrap(), 1);
    assert_eq!(buf[0], b'c');
    assert_eq!(body.read(&mut reader, &mut buf).unwrap(), 0);
    assert!(reader.read(&mut UnitHandler::new(tail), &mut buf).unwrap() == 0);
}

#[test]
fn corrupt_body_fails_once_and_then_ends() {
    let body = Body::new(
        UnitHandler::new(b"garbage".to_vec()),
        ResponseInfo::of(ContentEncoding::Gzip, None),
    );
    let mut reader = body.into_reader(1000);
    let mut buf = [0u8; 8];
    assert!(matches!(reader.read(&mut buf), Err(Error::Io(_))));
    assert_eq!(reader.read(&mut buf).unwrap(), 0);
}

#[test]
fn response_info_tells_whether_the_body_streams() {
    assert!(ResponseInfo::of(ContentEncoding::Identity, None).is_streamed());
    assert!(ResponseInfo::of(ContentEncoding::Unknown, Some("text/plain")).is_streamed());
    assert!(ResponseInfo::of(ContentEncoding::Identity, Some("text/plain; charset=UTF8"))
        .is_streamed());
    assert!(!ResponseInfo::of(ContentEncoding::Gzip, None).is_streamed());
    assert!(!ResponseInfo::of(ContentEncoding::Brotli, None).is_streamed());
    assert!(
        !ResponseInfo::of(ContentEncoding::Identity, Some("text/plain; charset=big5"))
            .is_streamed()
    );
    assert!(
        ResponseInfo::of(ContentEncoding::Identity, Some("image/png; charset=big5"))
            .is_streamed()
    );
}
