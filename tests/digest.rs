use ublox_short_range::digest::{DigestResult, EdmDigester};
use ublox_short_range::edm::{EdmError, PayloadType, Span};

fn span(start: usize, end: usize) -> Span {
    Span { start, end }
}

#[test]
fn ok_response() {
    let digester = EdmDigester::new();
    let data = [0xAAu8, 0x00, 0x06, 0x00, 0x45, 0x4f, 0x4b, 0x0D, 0x0a, 0x55];
    let (res, used) = digester.digest(&data);
    assert_eq!(res, DigestResult::Response(Ok(span(0, 10))));
    assert_eq!(used, 10);
}

#[test]
fn error_response() {
    let digester = EdmDigester::new();
    let data = [0xAAu8, 0x00, 0x09, 0x00, 0x45, 0x45, 0x52, 0x52, 0x4f, 0x52, 0x0D, 0x0a, 0x55];
    let (res, used) = digester.digest(&data);
    assert_eq!(res, DigestResult::Response(Err(EdmError::InvalidResponse)));
    assert_eq!(used, 13);
}

#[test]
fn regular_response_with_trailing_ok() {
    let digester = EdmDigester::new();
    let data = [
        0xAAu8, 0x00, 0x06, 0x00, 0x45, 0x41, 0x54, 0x0D, 0x0a, 0x55, 0xAA, 0x00, 0x06, 0x00, 0x45,
        0x4f, 0x4b, 0x0D, 0x0a, 0x55,
    ];
    let (res, used) = digester.digest(&data);
    assert_eq!(res, DigestResult::Response(Ok(span(0, 10))));
    assert_eq!(used, 10);
    let (res, used) = digester.digest(&data[10..]);
    assert_eq!(res, DigestResult::Response(Ok(span(0, 10))));
    assert_eq!(used, 10);
}

#[test]
fn urc() {
    let digester = EdmDigester::new();
    let data = [
        0xAAu8, 0x00, 0x0E, 0x00, 0x41, 0x0D, 0x0A, 0x2B, 0x55, 0x55, 0x44, 0x50, 0x44, 0x3A, 0x33,
        0x0D, 0x0A, 0x55,
    ];
    let (res, used) = digester.digest(&data);
    assert_eq!(res, DigestResult::Urc(span(0, 18)));
    assert_eq!(used, 18);

    let type_byte = PayloadType::ATEvent.as_byte();
    let data = [0xAAu8, 0x00, 0x06, 0x00, type_byte, 0x4f, 0x4b, 0x0D, 0x0a, 0x55];
    let (res, used) = digester.digest(&data);
    assert_eq!(res, DigestResult::Urc(span(0, 10)));
    assert_eq!(&data[..used], &data[..]);
}

#[test]
fn wrong_type_packet() {
    let digester = EdmDigester::new();
    let data = [0xAAu8, 0x00, 0x06, 0x00, 0xFF, 0x4f, 0x4b, 0x0D, 0x0a, 0x55];
    let (res, used) = digester.digest(&data);
    assert_eq!(res, DigestResult::Nothing);
    assert_eq!(used, 10);

    let type_byte = PayloadType::Unknown.as_byte();
    let data = [0xAAu8, 0x00, 0x06, 0x00, type_byte, 0x4f, 0x4b, 0x0D, 0x0a, 0x55];
    assert_eq!(digester.digest(&data), (DigestResult::Nothing, 10));
}

#[test]
fn resync_on_start_byte() {
    let digester = EdmDigester::new();
    let data = [0x00u8, 0x00, 0xAA, 0x00, 0x06, 0x00, 0x45, 0x4F, 0x4B, 0x0D, 0x0A, 0x55];
    let (res, used) = digester.digest(&data);
    assert_eq!(res, DigestResult::Nothing);
    assert_eq!(used, 2);
    let (res, used) = digester.digest(&data[2..]);
    assert_eq!(res, DigestResult::Response(Ok(span(0, 10))));
    assert_eq!(used, 10);
}

#[test]
fn startup_banner_then_confirmation() {
    let digester = EdmDigester::new();
    let mut data: Vec<u8> = b"\r\n+STARTUP\r\n".to_vec();
    data.extend_from_slice(&[0xAA, 0x00, 0x06, 0x00, 0x45, 0x4f, 0x4b, 0x0D, 0x0a, 0x55]);
    let (res, used) = digester.digest(&data);
    assert_eq!(res, DigestResult::Urc(span(0, 12)));
    assert_eq!(used, 12);
    let (res, used) = digester.digest(&data[12..]);
    assert_eq!(res, DigestResult::Response(Ok(span(0, 10))));
    assert_eq!(used, 10);
}

#[test]
fn startup_banner_at_the_end() {
    let digester = EdmDigester::new();
    let mut data: Vec<u8> = vec![0x01, 0x02, 0x03];
    data.extend_from_slice(b"\r\n+STARTUP\r\n");
    let (res, used) = digester.digest(&data);
    assert_eq!(res, DigestResult::Urc(span(3, 15)));
    assert_eq!(used, 15);
}

#[test]
fn autoconnect_banner_is_an_event() {
    let digester = EdmDigester::new();
    let data = b"\r\n+UUWLE:0,32A8B05AD18D,1\r\n";
    assert_eq!(data.len(), 27);
    let (res, used) = digester.digest(data);
    assert_eq!(res, DigestResult::Urc(span(0, 27)));
    assert_eq!(used, 27);
}

#[test]
fn other_line_is_noise() {
    let digester = EdmDigester::new();
    let data = b"\r\nhello there\r\n";
    let (res, used) = digester.digest(data);
    assert_eq!(res, DigestResult::Nothing);
    assert_eq!(used, 15);
}

#[test]
fn empty_buffer_gives_nothing() {
    let digester = EdmDigester::new();
    assert_eq!(digester.digest(&[]), (DigestResult::Nothing, 0));
}

#[test]
fn noise_without_start_byte_is_dropped() {
    let digester = EdmDigester::new();
    assert_eq!(digester.digest(&[0x01, 0x02, 0x03]), (DigestResult::Nothing, 3));
}

#[test]
fn split_frame_waits_for_the_rest() {
    let digester = EdmDigester::new();
    let data = [0xAAu8, 0x00, 0x06, 0x00, 0x45, 0x4f, 0x4b, 0x0D, 0x0a, 0x55];
    for k in 0..data.len() {
        assert_eq!(digester.digest(&data[..k]), (DigestResult::Nothing, 0));
    }
    assert_eq!(digester.digest(&data), (DigestResult::Response(Ok(span(0, 10))), 10));
}

#[test]
fn bad_end_byte_gives_nothing() {
    let digester = EdmDigester::new();
    let data = [0xAAu8, 0x00, 0x06, 0x00, 0x45, 0x4f, 0x4b, 0x0D, 0x0a, 0x00];
    assert_eq!(digester.digest(&data), (DigestResult::Nothing, 0));
}

#[test]
fn error_after_line_break_is_an_error_response() {
    let digester = EdmDigester::new();
    let data = [
        0xAAu8, 0x00, 0x0B, 0x00, 0x45, 0x0D, 0x0A, 0x45, 0x52, 0x52, 0x4f, 0x52, 0x0D, 0x0a, 0x55,
    ];
    assert_eq!(
        digester.digest(&data),
        (DigestResult::Response(Err(EdmError::InvalidResponse)), 15)
    );
}

#[test]
fn start_event_and_data_events() {
    let digester = EdmDigester::new();
    let start = [0xAAu8, 0x00, 0x02, 0x00, 0x71, 0x55];
    assert_eq!(digester.digest(&start), (DigestResult::Response(Ok(span(0, 6))), 6));
    let data = [0xAAu8, 0x00, 0x05, 0x00, 0x31, 0x01, 0x41, 0x42, 0x55];
    assert_eq!(digester.digest(&data), (DigestResult::Urc(span(0, 9)), 9));
    let connect = [0xAAu8, 0x00, 0x02, 0x00, 0x11, 0x55];
    assert_eq!(digester.digest(&connect), (DigestResult::Urc(span(0, 6)), 6));
    let disconnect = [0xAAu8, 0x00, 0x02, 0x00, 0x21, 0x55];
    assert_eq!(digester.digest(&disconnect), (DigestResult::Urc(span(0, 6)), 6));
}

#[test]
fn autoconnect_banner_length_tolerance() {
    let digester = EdmDigester::new();
    let short = b"\r\n+UUWLE:0,32A8B05AD18,1\r\n";
    assert_eq!(short.len(), 26);
    assert_eq!(digester.digest(short), (DigestResult::Urc(span(0, 26)), 26));
    let long = b"\r\n+UUWLE:0,32A8B05AD18D,11\r\n";
    assert_eq!(digester.digest(long), (DigestResult::Urc(span(0, 28)), 28));
    let longer = b"\r\n+UUWLE:0,32A8B05AD18D,111\r\n";
    assert_eq!(digester.digest(longer), (DigestResult::Nothing, 29));
}
