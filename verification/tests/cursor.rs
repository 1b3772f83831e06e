use mini_redis::decimal::parse_decimal;
use mini_redis::error::ProtocolError;
use mini_redis::frame::Frame;
use mini_redis::parse::Parse;

fn bulk(text: &str) -> Frame {
    Frame::Bulk(text.as_bytes().to_vec())
}

fn simple(text: &str) -> Frame {
    Frame::Simple(text.to_string())
}

fn over(fields: Vec<Frame>) -> Parse {
    Parse::new(Frame::Array(fields)).unwrap()
}

#[test]
fn cursor_needs_an_array() {
    assert!(Parse::new(Frame::Array(vec![])).is_ok());
    assert!(Parse::new(Frame::Array(vec![Frame::Null])).is_ok());
    assert_eq!(Parse::new(Frame::Integer(1)).err(), Some(ProtocolError::NotAnArray));
    assert_eq!(Parse::new(Frame::Null).err(), Some(ProtocolError::NotAnArray));
    assert_eq!(Parse::new(bulk("x")).err(), Some(ProtocolError::NotAnArray));
    assert_eq!(Parse::new(simple("x")).err(), Some(ProtocolError::NotAnArray));
    assert_eq!(
        Parse::new(Frame::Error("x".to_string())).err(),
        Some(ProtocolError::NotAnArray)
    );
}

#[test]
fn frames_come_out_in_order() {
    let mut parse = over(vec![
        Frame::Integer(1),
        Frame::Null,
        Frame::Array(vec![bulk("in")]),
        simple("last"),
    ]);
    assert_eq!(parse.next_frame(), Ok(Frame::Integer(1)));
    assert_eq!(parse.next_frame(), Ok(Frame::Null));
    assert_eq!(parse.next_frame(), Ok(Frame::Array(vec![bulk("in")])));
    assert_eq!(parse.finish(), Err(ProtocolError::TrailingElements));
    assert_eq!(parse.next_frame(), Ok(simple("last")));
    assert_eq!(parse.finish(), Ok(()));
    assert_eq!(parse.next_frame(), Err(ProtocolError::EndOfStream));
    assert_eq!(parse.next_frame(), Err(ProtocolError::EndOfStream));
    assert_eq!(parse.finish(), Ok(()));
}

#[test]
fn finish_on_empty_cursor() {
    let parse = over(vec![]);
    assert_eq!(parse.finish(), Ok(()));
}

#[test]
fn finish_does_not_consume() {
    let mut parse = over(vec![Frame::Integer(5)]);
    assert_eq!(parse.finish(), Err(ProtocolError::TrailingElements));
    assert_eq!(parse.finish(), Err(ProtocolError::TrailingElements));
    assert_eq!(parse.next_int(), Ok(5));
    assert_eq!(parse.finish(), Ok(()));
}

#[test]
fn strings_are_read_from_simple_and_bulk() {
    let mut parse = over(vec![simple("one"), bulk("two"), bulk("")]);
    assert_eq!(parse.next_string(), Ok("one".to_string()));
    assert_eq!(parse.next_string(), Ok("two".to_string()));
    assert_eq!(parse.next_string(), Ok(String::new()));
    assert_eq!(parse.next_string(), Err(ProtocolError::EndOfStream));
}

#[test]
fn bulk_strings_are_decoded_from_utf8() {
    let mut parse = over(vec![
        Frame::Bulk(vec![0x68, 0xc3, 0xa9, 0x6c, 0x6c, 0x6f]),
        Frame::Bulk(vec![0xe2, 0x82, 0xac]),
        Frame::Bulk(vec![0xf0, 0x9f, 0x98, 0x80]),
    ]);
    assert_eq!(parse.next_string(), Ok("h\u{e9}llo".to_string()));
    assert_eq!(parse.next_string(), Ok("\u{20ac}".to_string()));
    assert_eq!(parse.next_string(), Ok("\u{1f600}".to_string()));
}

#[test]
fn bulk_strings_that_are_not_utf8_are_refused() {
    let mut parse = over(vec![
        Frame::Bulk(vec![0xff]),
        Frame::Bulk(vec![0xc0, 0x80]),
        Frame::Bulk(vec![0xed, 0xa0, 0x80]),
        Frame::Bulk(vec![0xe2, 0x82]),
        bulk("ok"),
    ]);
    assert_eq!(parse.next_string(), Err(ProtocolError::InvalidFrameType));
    assert_eq!(parse.next_string(), Err(ProtocolError::InvalidFrameType));
    assert_eq!(parse.next_string(), Err(ProtocolError::InvalidFrameType));
    assert_eq!(parse.next_string(), Err(ProtocolError::InvalidFrameType));
    assert_eq!(parse.next_string(), Ok("ok".to_string()));
}

#[test]
fn strings_are_not_read_from_other_frames() {
    let mut parse = over(vec![
        Frame::Integer(1),
        Frame::Null,
        Frame::Error("e".to_string()),
        Frame::Array(vec![simple("x")]),
        simple("after"),
    ]);
    for _ in 0..4 {
        assert_eq!(parse.next_string(), Err(ProtocolError::InvalidFrameType));
    }
    assert_eq!(parse.next_string(), Ok("after".to_string()));
    assert_eq!(parse.finish(), Ok(()));
}

#[test]
fn bytes_are_read_from_simple_and_bulk() {
    let mut parse = over(vec![
        Frame::Bulk(vec![0, 255, 10, 13]),
        simple("h\u{e9}"),
        Frame::Bulk(vec![]),
    ]);
    assert_eq!(parse.next_bytes(), Ok(vec![0, 255, 10, 13]));
    assert_eq!(parse.next_bytes(), Ok(vec![0x68, 0xc3, 0xa9]));
    assert_eq!(parse.next_bytes(), Ok(vec![]));
    assert_eq!(parse.next_bytes(), Err(ProtocolError::EndOfStream));
}

#[test]
fn bytes_are_not_read_from_other_frames() {
    let mut parse = over(vec![
        Frame::Integer(1),
        Frame::Null,
        Frame::Error("e".to_string()),
        Frame::Array(vec![]),
    ]);
    for _ in 0..4 {
        assert_eq!(parse.next_bytes(), Err(ProtocolError::InvalidFrameType));
    }
    assert_eq!(parse.finish(), Ok(()));
}

#[test]
fn numbers_are_read_from_integers_and_text() {
    let mut parse = over(vec![
        Frame::Integer(-7),
        Frame::Integer(i64::MIN),
        Frame::Integer(i64::MAX),
        simple("42"),
        bulk("-15"),
        bulk("0"),
    ]);
    assert_eq!(parse.next_int(), Ok(-7));
    assert_eq!(parse.next_int(), Ok(i64::MIN));
    assert_eq!(parse.next_int(), Ok(i64::MAX));
    assert_eq!(parse.next_int(), Ok(42));
    assert_eq!(parse.next_int(), Ok(-15));
    assert_eq!(parse.next_int(), Ok(0));
    assert_eq!(parse.next_int(), Err(ProtocolError::EndOfStream));
}

#[test]
fn numbers_out_of_range_overflow() {
    let mut parse = over(vec![
        bulk("9223372036854775808"),
        simple("-9223372036854775809"),
        bulk("9223372036854775807"),
    ]);
    assert_eq!(parse.next_int(), Err(ProtocolError::Overflow));
    assert_eq!(parse.next_int(), Err(ProtocolError::Overflow));
    assert_eq!(parse.next_int(), Ok(i64::MAX));
}

#[test]
fn numbers_are_not_read_from_other_frames() {
    let mut parse = over(vec![
        Frame::Null,
        Frame::Error("1".to_string()),
        Frame::Array(vec![Frame::Integer(1)]),
        bulk("one"),
        simple(""),
        Frame::Bulk(vec![0x31, 0xff]),
    ]);
    for _ in 0..6 {
        assert_eq!(parse.next_int(), Err(ProtocolError::InvalidFrameType));
    }
    assert_eq!(parse.finish(), Ok(()));
}

#[test]
fn failed_read_consumes_the_field() {
    let mut parse = over(vec![Frame::Null, bulk("x")]);
    assert_eq!(parse.next_string(), Err(ProtocolError::InvalidFrameType));
    assert_eq!(parse.next_frame(), Ok(bulk("x")));
    assert_eq!(parse.finish(), Ok(()));
}

#[test]
fn decimal_values() {
    assert_eq!(parse_decimal(b"0"), Ok(0));
    assert_eq!(parse_decimal(b"7"), Ok(7));
    assert_eq!(parse_decimal(b"42"), Ok(42));
    assert_eq!(parse_decimal(b"1234567890"), Ok(1234567890));
    assert_eq!(parse_decimal(b"-1"), Ok(-1));
    assert_eq!(parse_decimal(b"-0"), Ok(0));
    assert_eq!(parse_decimal(b"007"), Ok(7));
    assert_eq!(parse_decimal(b"-00120"), Ok(-120));
    assert_eq!(parse_decimal(b"00000000000000000000000000000000000001"), Ok(1));
}

#[test]
fn decimal_limits() {
    assert_eq!(parse_decimal(b"9223372036854775807"), Ok(i64::MAX));
    assert_eq!(parse_decimal(b"-9223372036854775808"), Ok(i64::MIN));
    assert_eq!(parse_decimal(b"9223372036854775806"), Ok(i64::MAX - 1));
    assert_eq!(parse_decimal(b"-9223372036854775807"), Ok(i64::MIN + 1));
    assert_eq!(
        parse_decimal(b"9223372036854775808"),
        Err(ProtocolError::Overflow)
    );
    assert_eq!(
        parse_decimal(b"-9223372036854775809"),
        Err(ProtocolError::Overflow)
    );
    assert_eq!(
        parse_decimal(b"9223372036854775810"),
        Err(ProtocolError::Overflow)
    );
    assert_eq!(
        parse_decimal(b"18446744073709551616"),
        Err(ProtocolError::Overflow)
    );
    assert_eq!(
        parse_decimal(b"100000000000000000000000000000000000000000"),
        Err(ProtocolError::Overflow)
    );
    assert_eq!(
        parse_decimal(b"-100000000000000000000000000000000000000000"),
        Err(ProtocolError::Overflow)
    );
}

#[test]
fn decimal_rejects_what_is_no_numeral() {
    let texts: Vec<&[u8]> = vec![
        b"", b"-", b"+", b"+5", b"--5", b"5-", b" 5", b"5 ", b"1.5", b"1e3", b"0x10", b"abc",
        b"12a", b"a12", b"-a", b"1_000", b"\xff", b"1\x00",
    ];
    for text in texts {
        assert_eq!(parse_decimal(text), Err(ProtocolError::InvalidFrameType));
    }
}

#[test]
fn decimal_out_of_range_with_bad_tail_is_no_numeral() {
    assert_eq!(
        parse_decimal(b"99999999999999999999999999x"),
        Err(ProtocolError::InvalidFrameType)
    );
    assert_eq!(
        parse_decimal(b"-99999999999999999999999999-"),
        Err(ProtocolError::InvalidFrameType)
    );
}
