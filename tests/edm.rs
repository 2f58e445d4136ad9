use ublox_short_range::edm::{
    calc_payload_len, decode_data_event, decode_disconnect_event, unwrap_at_confirmation, wrap_at_request, EdmDataCommand, EdmError,
    EdmResendConnectEventsCommand, PayloadType, Span, SwitchToEdmCommand,
};

#[test]
fn parse_at_commands() {
    // AT-command: "AT"
    let correct_cmd = [0xAAu8, 0x00, 0x06, 0x00, 0x44, 0x41, 0x54, 0x0D, 0x0a, 0x55];
    // AT-response: no response text
    let response = [0xAAu8, 0x00, 0x02, 0x00, PayloadType::ATConfirmation.as_byte(), 0x55];
    assert_eq!(wrap_at_request(b"AT\r\n"), correct_cmd.to_vec());
    assert_eq!(unwrap_at_confirmation(&response), Ok(Span { start: 5, end: 5 }));

    // AT-command: "at+umstat=1"
    let correct = [
        0xAAu8, 0x00, 0x0F, 0x00, 0x44, 0x41, 0x54, 0x2b, 0x55, 0x4d, 0x53, 0x54, 0x41, 0x54, 0x3d,
        0x31, 0x0D, 0x0A, 0x55,
    ];
    // AT-response: "at+umstat:1,100"
    let response = [
        0xAAu8,
        0x00,
        0x11,
        0x00,
        PayloadType::ATConfirmation.as_byte(),
        0x2B,
        0x55,
        0x4D,
        0x53,
        0x54,
        0x41,
        0x54,
        0x3A,
        0x31,
        0x2C,
        0x31,
        0x30,
        0x30,
        0x0D,
        0x0A,
        0x55,
    ];
    assert_eq!(wrap_at_request(b"AT+UMSTAT=1\r\n"), correct.to_vec());
    let text = unwrap_at_confirmation(&response).unwrap();
    assert_eq!(&response[text.start..text.end], b"+UMSTAT:1,100\r\n");
    assert_eq!(&response[text.start..text.end - 5], b"+UMSTAT:1,");
    assert_eq!(&response[text.end - 5..text.end - 2], b"100");
}

#[test]
fn parse_wrong_at_responses() {
    // Response shorter than indicated
    let response = [0xAAu8, 0x00, 0x06, 0x00, PayloadType::ATConfirmation.as_byte(), 0x55];
    assert_eq!(
        unwrap_at_confirmation(&response),
        Err(EdmError::InvalidResponse),
        "Response shorter than indicated not invalid"
    );

    let mut response = vec![
        0xAAu8,
        0x00,
        0x01,
        0x00,
        PayloadType::ATConfirmation.as_byte(),
        0x2B,
        0x55,
        0x4D,
        0x53,
        0x54,
        0x41,
        0x54,
        0x3A,
        0x31,
        0x2C,
        0x31,
        0x30,
        0x30,
        0x0D,
        0x0A,
        0x55,
    ];
    assert_eq!(
        unwrap_at_confirmation(&response),
        Err(EdmError::InvalidResponse),
        "Response longer than indicated not invalid"
    );

    response[2] = 0x11;
    response[20] = 0x00;
    assert_eq!(
        unwrap_at_confirmation(&response),
        Err(EdmError::InvalidResponse),
        "Response wrong endbyte not invalid"
    );

    response[20] = 0x55;
    response[0] = 0x00;
    assert_eq!(
        unwrap_at_confirmation(&response),
        Err(EdmError::InvalidResponse),
        "Response wrong startbyte not invalid"
    );

    // A well-framed confirmation with no text: the framing passes, and the
    // empty text is what the AT codec then fails to parse.
    let response = [0xAAu8, 0x00, 0x02, 0x00, PayloadType::ATConfirmation.as_byte(), 0x55];
    assert_eq!(
        unwrap_at_confirmation(&response),
        Ok(Span { start: 5, end: 5 }),
        "Response wrong not invalid"
    );
}

#[test]
fn change_to_edm_cmd() {
    let resp = [0xAAu8, 0x00, 0x02, 0x00, 0x71, 0x55];
    assert_eq!(SwitchToEdmCommand.as_bytes(), b"ATO2\r\n".to_vec());
    assert_eq!(SwitchToEdmCommand.parse(&resp), Ok(()));
}

#[test]
fn switch_to_edm_rejects_other_frames() {
    assert_eq!(
        SwitchToEdmCommand.parse(&[0xAA, 0x00, 0x02, 0x00, 0x45, 0x55]),
        Err(EdmError::InvalidResponse)
    );
    assert_eq!(
        SwitchToEdmCommand.parse(&[0xAA, 0x00, 0x02, 0x00, 0x71, 0x55, 0x00]),
        Err(EdmError::InvalidResponse)
    );
}

#[test]
fn trailing_ok_is_cut_from_the_text() {
    // "AT\r\nOK\r\n"
    let response = [
        0xAAu8, 0x00, 0x0A, 0x00, 0x45, 0x41, 0x54, 0x0D, 0x0A, 0x4F, 0x4B, 0x0D, 0x0A, 0x55,
    ];
    assert_eq!(unwrap_at_confirmation(&response), Ok(Span { start: 5, end: 7 }));
}

#[test]
fn data_command_frame() {
    let cmd = EdmDataCommand { channel: 3, data: vec![0x10, 0x20] };
    assert_eq!(cmd.as_bytes(), vec![0xAA, 0x00, 0x05, 0x00, 0x36, 0x03, 0x10, 0x20, 0x55]);
}

#[test]
fn resend_connect_events_frame() {
    assert_eq!(
        EdmResendConnectEventsCommand.as_bytes(),
        vec![0xAA, 0x00, 0x02, 0x00, 0x56, 0x55]
    );
}

#[test]
fn payload_length_uses_twelve_bits() {
    assert_eq!(calc_payload_len(&[0xAA, 0xF1, 0x23]), 0x123);
    assert_eq!(calc_payload_len(&[0xAA, 0x0F, 0xFF]), 0xFFF);
}

#[test]
fn payload_types_round_trip() {
    for b in [0x11u8, 0x21, 0x31, 0x36, 0x41, 0x44, 0x45, 0x56, 0x71] {
        assert_eq!(PayloadType::from_byte(b).as_byte(), b);
    }
    assert_eq!(PayloadType::from_byte(0xFF), PayloadType::Unknown);
}

#[test]
fn long_request_length_bytes() {
    let at = vec![0x41u8; 300];
    let frame = wrap_at_request(&at);
    assert_eq!(frame.len(), 306);
    assert_eq!(frame[1], 0x01);
    assert_eq!(frame[2], 0x2E);
}

#[test]
fn data_event_decoding() {
    let frame = [0xAAu8, 0x00, 0x05, 0x00, 0x31, 0x02, 0x68, 0x69, 0x55];
    assert_eq!(decode_data_event(&frame), Some((2, Span { start: 6, end: 8 })));
    assert_eq!(decode_disconnect_event(&frame), None);
    let closed = [0xAAu8, 0x00, 0x03, 0x00, 0x21, 0x04, 0x55];
    assert_eq!(decode_disconnect_event(&closed), Some(4));
    assert_eq!(decode_data_event(&closed), None);
    assert_eq!(decode_data_event(&[0xAA, 0x00, 0x02, 0x00, 0x31, 0x55]), None);
}
