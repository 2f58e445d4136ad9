//! Extended Data Mode (EDM) framing: constants, payload types and the
//! encoders and decoders of the frames that carry AT traffic and data.
use vstd::prelude::*;

verus! {

/// First byte of every EDM frame.
pub const STARTBYTE: u8 = 0xAA;

/// Last byte of every EDM frame.
pub const ENDBYTE: u8 = 0x55;

/// Mask of the length bits that the high length byte carries.
pub const EDM_SIZE_FILTER: u8 = 0x0F;

/// Mask of the twelve length bits of the length field.
pub const EDM_FULL_SIZE_FILTER: u16 = 0x0FFF;

/// Bytes of a frame that the length field does not count: start byte, the
/// two length bytes and the end byte.
pub const EDM_OVERHEAD: usize = 4;

/// Smallest frame that carries a payload type: overhead plus the zero byte
/// and the type byte.
pub const PAYLOAD_OVERHEAD: usize = 6;

/// Index of the first AT byte in an AT request, confirmation or event.
pub const AT_COMMAND_POSITION: usize = 5;

/// Largest value of the length field.
pub const MAX_PAYLOAD_LEN: usize = 0x0FFF;

/// The frame types of the EDM protocol.
#[derive(Debug, Clone, Copy, PartialEq, Eq, Structural)]
pub enum PayloadType {
    ConnectEvent,
    DisconnectEvent,
    DataEvent,
    DataCommand,
    ATRequest,
    ATConfirmation,
    ATEvent,
    ResendConnectEventsCommand,
    StartEvent,
    Unknown,
}

/// The payload type that a type byte stands for.
pub open spec fn payload_type_of(b: u8) -> PayloadType {
    if b == 0x11 {
        PayloadType::ConnectEvent
    } else if b == 0x21 {
        PayloadType::DisconnectEvent
    } else if b == 0x31 {
        PayloadType::DataEvent
    } else if b == 0x36 {
        PayloadType::DataCommand
    } else if b == 0x44 {
        PayloadType::ATRequest
    } else if b == 0x45 {
        PayloadType::ATConfirmation
    } else if b == 0x41 {
        PayloadType::ATEvent
    } else if b == 0x56 {
        PayloadType::ResendConnectEventsCommand
    } else if b == 0x71 {
        PayloadType::StartEvent
    } else {
        PayloadType::Unknown
    }
}

/// The type byte that a payload type is written as.
pub open spec fn payload_type_byte(t: PayloadType) -> u8 {
    match t {
        PayloadType::ConnectEvent => 0x11,
        PayloadType::DisconnectEvent => 0x21,
        PayloadType::DataEvent => 0x31,
        PayloadType::DataCommand => 0x36,
        PayloadType::ATRequest => 0x44,
        PayloadType::ATConfirmation => 0x45,
        PayloadType::ATEvent => 0x41,
        PayloadType::ResendConnectEventsCommand => 0x56,
        PayloadType::StartEvent => 0x71,
        PayloadType::Unknown => 0x00,
    }
}

impl PayloadType {
    /// Reads a type byte; bytes that name no type read as `Unknown`.
    pub fn from_byte(b: u8) -> (r: PayloadType)
        ensures
            r == payload_type_of(b),
    {
        if b == 0x11 {
            PayloadType::ConnectEvent
        } else if b == 0x21 {
            PayloadType::DisconnectEvent
        } else if b == 0x31 {
            PayloadType::DataEvent
        } else if b == 0x36 {
            PayloadType::DataCommand
        } else if b == 0x44 {
            PayloadType::ATRequest
        } else if b == 0x45 {
            PayloadType::ATConfirmation
        } else if b == 0x41 {
            PayloadType::ATEvent
        } else if b == 0x56 {
            PayloadType::ResendConnectEventsCommand
        } else if b == 0x71 {
            PayloadType::StartEvent
        } else {
            PayloadType::Unknown
        }
    }

    /// The type byte of this payload type.
    pub fn as_byte(&self) -> (r: u8)
        ensures
            r == payload_type_byte(*self),
    {
        match self {
            PayloadType::ConnectEvent => 0x11,
            PayloadType::DisconnectEvent => 0x21,
            PayloadType::DataEvent => 0x31,
            PayloadType::DataCommand => 0x36,
            PayloadType::ATRequest => 0x44,
            PayloadType::ATConfirmation => 0x45,
            PayloadType::ATEvent => 0x41,
            PayloadType::ResendConnectEventsCommand => 0x56,
            PayloadType::StartEvent => 0x71,
            PayloadType::Unknown => 0x00,
        }
    }
}

/// The payload length that the length field of `buf` gives: the low twelve
/// bits of the big-endian value of `buf[1]` and `buf[2]`.
pub open spec fn payload_len_of(buf: Seq<u8>) -> nat
    recommends
        buf.len() >= 3,
{
    ((buf[1] as nat % 16) * 256 + buf[2] as nat) as nat
}

/// Reads the payload length of the frame at the head of `resp`.
pub fn calc_payload_len(resp: &[u8]) -> (r: usize)
    requires
        resp@.len() >= 3,
    ensures
        r as nat == payload_len_of(resp@),
        r <= MAX_PAYLOAD_LEN,
{
    let hi = resp[1];
    let lo = resp[2];
    let v: u16 = (((hi as u16) << 8u16) | (lo as u16)) & EDM_FULL_SIZE_FILTER;
    assert(v == (hi % 16) as u16 * 256 + lo as u16 && v <= 0x0FFF) by (bit_vector)
        requires
            v == (((hi as u16) << 8u16) | (lo as u16)) & 0x0FFFu16,
    ;
    v as usize
}

/// The high length byte of a frame whose length field is `len`.
pub open spec fn len_hi(len: nat) -> u8 {
    ((len / 256) % 16) as u8
}

/// The low length byte of a frame whose length field is `len`.
pub open spec fn len_lo(len: nat) -> u8 {
    (len % 256) as u8
}

/// The frame of type byte `t` around the payload `p`: start byte, the length
/// of `p` plus the zero and type bytes, a zero byte, `t`, `p`, end byte.
pub open spec fn frame(t: u8, p: Seq<u8>) -> Seq<u8> {
    seq![STARTBYTE, len_hi(p.len() + 2), len_lo(p.len() + 2), 0x00u8, t] + p + seq![ENDBYTE]
}

/// Writes the length bytes of `len` into the frame under construction.
fn push_header(out: &mut Vec<u8>, len: usize, t: u8)
    requires
        len <= MAX_PAYLOAD_LEN,
    ensures
        final(out)@ == old(out)@ + seq![STARTBYTE, len_hi(len as nat), len_lo(len as nat), 0x00u8, t],
{
    let hi: u8 = ((len >> 8usize) as u8) & EDM_SIZE_FILTER;
    let lo: u8 = (len & 0xFFusize) as u8;
    assert(hi == ((len / 256) % 16) as u8 && lo == (len % 256) as u8) by (bit_vector)
        requires
            hi == ((len >> 8usize) as u8) & 0x0Fu8,
            lo == (len & 0xFFusize) as u8,
            len <= 0x0FFF,
    ;
    out.push(STARTBYTE);
    out.push(hi);
    out.push(lo);
    out.push(0x00);
    out.push(t);
}

/// Appends `data` to `out`.
fn push_all(out: &mut Vec<u8>, data: &[u8])
    ensures
        final(out)@ == old(out)@ + data@,
{
    let mut i: usize = 0;
    while i < data.len()
        invariant
            i <= data@.len(),
            out@ == old(out)@ + data@.subrange(0, i as int),
        decreases data@.len() - i,
    {
        out.push(data[i]);
        i = i + 1;
        assert(data@.subrange(0, i as int) =~= data@.subrange(0, i - 1) + seq![data@[i - 1]]);
    }
    assert(data@.subrange(0, i as int) =~= data@);
}

/// The bytes `data[start..end]`.
pub(crate) fn copy_range(data: &[u8], start: usize, end: usize) -> (r: Vec<u8>)
    requires
        start <= end <= data@.len(),
    ensures
        r@ == data@.subrange(start as int, end as int),
{
    let mut out: Vec<u8> = Vec::new();
    let mut i: usize = start;
    while i < end
        invariant
            start <= i <= end,
            end <= data@.len(),
            out@ == data@.subrange(start as int, i as int),
        decreases end - i,
    {
        out.push(data[i]);
        i = i + 1;
        assert(data@.subrange(start as int, i as int) =~= data@.subrange(start as int, i - 1) + seq![data@[i - 1]]);
    }
    out
}

/// Wraps the bytes of an AT command in an EDM AT request frame.
pub fn wrap_at_request(at: &[u8]) -> (r: Vec<u8>)
    requires
        at@.len() + 2 <= MAX_PAYLOAD_LEN,
    ensures
        r@ == frame(payload_type_byte(PayloadType::ATRequest), at@),
{
    let mut out: Vec<u8> = Vec::new();
    push_header(&mut out, at.len() + 2, PayloadType::ATRequest.as_byte());
    push_all(&mut out, at);
    out.push(ENDBYTE);
    out
}

/// Errors of the EDM layer.
#[derive(Debug, Clone, Copy, PartialEq, Eq, Structural)]
pub enum EdmError {
    /// The bytes are not a well-formed frame of the expected kind.
    InvalidResponse,
}

/// A byte range `start..end` of a buffer.
#[derive(Debug, Clone, Copy, PartialEq, Eq, Structural)]
pub struct Span {
    pub start: usize,
    pub end: usize,
}

/// Whether `s` holds `pat` from index `i` on.
pub open spec fn holds_at(s: Seq<u8>, i: int, pat: Seq<u8>) -> bool {
    0 <= i && i + pat.len() <= s.len() && s.subrange(i, i + pat.len()) == pat
}

/// The bytes `"\r\nOK"`.
pub open spec fn crlf_ok() -> Seq<u8> {
    seq![13u8, 10u8, 79u8, 75u8]
}

/// Whether `resp` is a well-formed AT confirmation frame: it is at least six
/// bytes long, starts and ends with the frame bytes, its length field matches
/// its length, and its type is `ATConfirmation`.
pub open spec fn is_at_confirmation(resp: Seq<u8>) -> bool {
    &&& resp.len() >= PAYLOAD_OVERHEAD
    &&& resp[0] == STARTBYTE
    &&& resp[resp.len() - 1] == ENDBYTE
    &&& resp.len() == payload_len_of(resp) + EDM_OVERHEAD
    &&& resp[4] == payload_type_byte(PayloadType::ATConfirmation)
}

/// The end of the AT text of a well-formed confirmation: the first
/// `"\r\nOK"` inside the AT region when there is one, else the byte before
/// the end byte.
pub open spec fn at_text_end(resp: Seq<u8>) -> int {
    let s = resp.subrange(0, resp.len() - 1);
    if exists|j: int| AT_COMMAND_POSITION <= j && #[trigger] holds_at(s, j, crlf_ok()) {
        choose|j: int|
            AT_COMMAND_POSITION <= j && #[trigger] holds_at(s, j, crlf_ok()) && forall|k: int|
                AT_COMMAND_POSITION <= k < j ==> !#[trigger] holds_at(s, k, crlf_ok())
    } else {
        resp.len() - 1
    }
}

/// Whether `s` holds `"\r\nOK"` at `i`.
fn crlf_ok_at(s: &[u8], i: usize, end: usize) -> (r: bool)
    requires
        end <= s@.len(),
        i < end,
    ensures
        r == holds_at(s@.subrange(0, end as int), i as int, crlf_ok()),
{
    if end - i < 4 {
        return false;
    }
    let r = s[i] == 13 && s[i + 1] == 10 && s[i + 2] == 79 && s[i + 3] == 75;
    assert(r == (s@.subrange(0, end as int).subrange(i as int, i + 4) =~= crlf_ok()));
    r
}

/// Takes the AT text out of an AT confirmation frame.
///
/// On a well-formed confirmation the result is the span from the first AT
/// byte to the first `"\r\nOK"` of the AT region, or to the end byte where
/// there is none; any other input is `InvalidResponse`.
pub fn unwrap_at_confirmation(resp: &[u8]) -> (r: Result<Span, EdmError>)
    ensures
        is_at_confirmation(resp@) <==> r is Ok,
        r is Err ==> r == Err::<Span, EdmError>(EdmError::InvalidResponse),
        r matches Ok(sp) ==> sp.start == AT_COMMAND_POSITION && sp.end == at_text_end(resp@),
{
    if resp.len() < PAYLOAD_OVERHEAD || resp[0] != STARTBYTE || resp[resp.len() - 1] != ENDBYTE {
        return Err(EdmError::InvalidResponse);
    }
    let payload_len = calc_payload_len(resp);
    if resp.len() != payload_len + EDM_OVERHEAD || resp[4] != PayloadType::ATConfirmation.as_byte() {
        return Err(EdmError::InvalidResponse);
    }
    let ghost s = resp@.subrange(0, resp@.len() - 1);
    let end = resp.len() - 1;
    let mut i: usize = AT_COMMAND_POSITION;
    while i < end
        invariant
            AT_COMMAND_POSITION <= i,
            end == resp@.len() - 1,
            s == resp@.subrange(0, end as int),
            end >= AT_COMMAND_POSITION,
            is_at_confirmation(resp@),
            forall|k: int| AT_COMMAND_POSITION <= k < i ==> !#[trigger] holds_at(s, k, crlf_ok()),
        decreases end - i,
    {
        if crlf_ok_at(resp, i, end) {
            assert(holds_at(s, i as int, crlf_ok()));
            let ghost c = at_text_end(resp@);
            assert(c == i) by {
                if c < i {
                } else if c > i {
                }
            };
            return Ok(Span { start: AT_COMMAND_POSITION, end: i });
        }
        i = i + 1;
    }
    assert(!exists|j: int| AT_COMMAND_POSITION <= j && #[trigger] holds_at(s, j, crlf_ok())) by {
        assert forall|j: int| AT_COMMAND_POSITION <= j implies !holds_at(s, j, crlf_ok()) by {
            if j >= end {
            }
        }
    }
    Ok(Span { start: AT_COMMAND_POSITION, end })
}

/// Whether `f` is a complete frame of type `t` with at least a channel id
/// in its payload.
pub open spec fn is_channel_frame(f: Seq<u8>, t: PayloadType) -> bool {
    &&& f.len() >= PAYLOAD_OVERHEAD + 1
    &&& f[0] == STARTBYTE
    &&& f[f.len() - 1] == ENDBYTE
    &&& f.len() == payload_len_of(f) + EDM_OVERHEAD
    &&& f[4] == payload_type_byte(t)
}

/// Reads a data event frame: the channel id and the span of the data, from
/// after the channel id to before the end byte. `None` for any other input.
pub fn decode_data_event(f: &[u8]) -> (r: Option<(u8, Span)>)
    ensures
        r is Some <==> is_channel_frame(f@, PayloadType::DataEvent),
        r matches Some((c, sp)) ==> c == f@[5] && sp == (Span { start: 6, end: (f@.len() - 1) as usize }),
{
    if f.len() < PAYLOAD_OVERHEAD + 1 || f[0] != STARTBYTE || f[f.len() - 1] != ENDBYTE {
        return None;
    }
    let len = calc_payload_len(f);
    if f.len() != len + EDM_OVERHEAD || f[4] != PayloadType::DataEvent.as_byte() {
        return None;
    }
    Some((f[5], Span { start: 6, end: f.len() - 1 }))
}

/// Reads a disconnect event frame: the channel id that closed. `None` for
/// any other input.
pub fn decode_disconnect_event(f: &[u8]) -> (r: Option<u8>)
    ensures
        r is Some <==> is_channel_frame(f@, PayloadType::DisconnectEvent),
        r matches Some(c) ==> c == f@[5],
{
    if f.len() < PAYLOAD_OVERHEAD + 1 || f[0] != STARTBYTE || f[f.len() - 1] != ENDBYTE {
        return None;
    }
    let len = calc_payload_len(f);
    if f.len() != len + EDM_OVERHEAD || f[4] != PayloadType::DisconnectEvent.as_byte() {
        return None;
    }
    Some(f[5])
}

/// A data frame for the peer behind an EDM channel.
#[derive(Debug, Clone)]
pub struct EdmDataCommand {
    pub channel: u8,
    pub data: Vec<u8>,
}

impl EdmDataCommand {
    /// The `DataCommand` frame whose payload is the channel id followed by
    /// the data.
    pub fn as_bytes(&self) -> (r: Vec<u8>)
        requires
            self.data@.len() + 3 <= MAX_PAYLOAD_LEN,
        ensures
            r@ == frame(payload_type_byte(PayloadType::DataCommand), seq![self.channel] + self.data@),
    {
        let mut out: Vec<u8> = Vec::new();
        push_header(&mut out, self.data.len() + 3, PayloadType::DataCommand.as_byte());
        out.push(self.channel);
        push_all(&mut out, self.data.as_slice());
        out.push(ENDBYTE);
        assert(out@ =~= frame(payload_type_byte(PayloadType::DataCommand), seq![self.channel] + self.data@));
        out
    }
}

/// Asks the module to send the connect events of the peers that are
/// already open, so that their channel ids can be learned again.
#[derive(Debug, Clone, Copy)]
pub struct EdmResendConnectEventsCommand;

impl EdmResendConnectEventsCommand {
    /// The frame of the command: type `ResendConnectEventsCommand`, no payload.
    pub fn as_bytes(&self) -> (r: Vec<u8>)
        ensures
            r@ == frame(payload_type_byte(PayloadType::ResendConnectEventsCommand), Seq::<u8>::empty()),
    {
        let mut out: Vec<u8> = Vec::new();
        push_header(&mut out, 2, PayloadType::ResendConnectEventsCommand.as_byte());
        out.push(ENDBYTE);
        assert(out@ =~= frame(payload_type_byte(PayloadType::ResendConnectEventsCommand), Seq::<u8>::empty()));
        out
    }
}

/// The text `ATO2\r\n`, which switches the module into EDM.
pub open spec fn switch_to_edm_text() -> Seq<u8> {
    seq![65u8, 84u8, 79u8, 50u8, 13u8, 10u8]
}

/// The start frame with which the module confirms the switch to EDM.
pub open spec fn edm_start_frame() -> Seq<u8> {
    frame(payload_type_byte(PayloadType::StartEvent), Seq::<u8>::empty())
}

/// Switches the module from command mode into EDM.
#[derive(Debug, Clone, Copy)]
pub struct SwitchToEdmCommand;

impl SwitchToEdmCommand {
    /// The command text, sent outside any frame.
    pub fn as_bytes(&self) -> (r: Vec<u8>)
        ensures
            r@ == switch_to_edm_text(),
    {
        let mut out: Vec<u8> = Vec::new();
        out.push(65);
        out.push(84);
        out.push(79);
        out.push(50);
        out.push(13);
        out.push(10);
        assert(out@ =~= switch_to_edm_text());
        out
    }

    /// Accepts exactly the EDM start frame `AA 00 02 00 71 55`.
    pub fn parse(&self, resp: &[u8]) -> (r: Result<(), EdmError>)
        ensures
            r is Ok <==> resp@ == edm_start_frame(),
            r is Err ==> r == Err::<(), EdmError>(EdmError::InvalidResponse),
    {
        let ghost want = edm_start_frame();
        assert(want =~= seq![0xAAu8, 0x00u8, 0x02u8, 0x00u8, 0x71u8, 0x55u8]);
        if resp.len() != 6 {
            return Err(EdmError::InvalidResponse);
        }
        if resp[0] == 0xAA && resp[1] == 0x00 && resp[2] == 0x02 && resp[3] == 0x00 && resp[4] == 0x71
            && resp[5] == 0x55 {
            assert(resp@ =~= want);
            Ok(())
        } else {
            Err(EdmError::InvalidResponse)
        }
    }
}

} // verus!
