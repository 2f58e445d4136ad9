//! The EDM digester: splits the byte stream from the module into command
//! responses, unsolicited events and noise, one frame per call.
use vstd::prelude::*;

use crate::edm::{
    calc_payload_len, frame, holds_at, len_hi, len_lo, payload_len_of, payload_type_of, EdmError,
    PayloadType, Span, AT_COMMAND_POSITION, EDM_OVERHEAD, ENDBYTE, PAYLOAD_OVERHEAD, STARTBYTE,
};

verus! {

/// Length of the startup banner `"\r\n+STARTUP\r\n"`.
pub const STARTUP_LEN: usize = 12;

/// Length of the banner with which the module reports a network it joined
/// on its own (`"\r\n+UUWLE:0,<bssid>,<channel>\r\n"` with a one-digit
/// channel). A line within one byte of it is taken for that banner.
pub const AUTOCONNECT_LEN: usize = 27;

/// The startup banner `"\r\n+STARTUP\r\n"`.
pub open spec fn startup_message() -> Seq<u8> {
    seq![13u8, 10u8, 43u8, 83u8, 84u8, 65u8, 82u8, 84u8, 85u8, 80u8, 13u8, 10u8]
}

/// The text `"ERROR"`.
pub open spec fn error_text() -> Seq<u8> {
    seq![69u8, 82u8, 82u8, 79u8, 82u8]
}

/// What one digester call found at the head of the buffer.
#[derive(Debug, Clone, Copy, PartialEq, Eq)]
pub enum DigestResult {
    /// Nothing to hand on.
    Nothing,
    /// A command response: the span of the frame, or an error response.
    Response(Result<Span, EdmError>),
    /// An unsolicited event: the span of the frame or banner.
    Urc(Span),
}

/// Whether `s` holds `"\r\n"` at `i`.
pub open spec fn is_crlf(s: Seq<u8>, i: int) -> bool {
    0 <= i && i + 1 < s.len() && s[i] == 13 && s[i + 1] == 10
}

/// The index of the first line end of `s` at `j` or later, or -1.
pub open spec fn line_end_from(s: Seq<u8>, j: int) -> int
    decreases s.len() - j,
{
    if j < 0 || j + 1 >= s.len() {
        -1
    } else if is_crlf(s, j) {
        j
    } else {
        line_end_from(s, j + 1)
    }
}

/// Whether `s` has a line end after its first two bytes.
pub open spec fn has_line_end(s: Seq<u8>) -> bool {
    line_end_from(s, 2) >= 0
}

/// The index of the first line end after the first two bytes of `s`.
pub open spec fn line_end(s: Seq<u8>) -> int {
    line_end_from(s, 2)
}

/// Whether `s` is long enough for the banner and opens with `"\r\n"`.
pub open spec fn opens_banner(s: Seq<u8>) -> bool {
    s.len() >= STARTUP_LEN && s[0] == 13 && s[1] == 10
}

/// Whether `s` is longer than the startup banner and ends with it.
pub open spec fn ends_with_startup(s: Seq<u8>) -> bool {
    s.len() > STARTUP_LEN && holds_at(s, s.len() - STARTUP_LEN, startup_message())
}

/// The index of the first start byte of `s` at `i` or later, or -1.
pub open spec fn start_from(s: Seq<u8>, i: int) -> int
    decreases s.len() - i,
{
    if i < 0 || i >= s.len() {
        -1
    } else if s[i] == STARTBYTE {
        i
    } else {
        start_from(s, i + 1)
    }
}

/// Whether `s` holds a start byte.
pub open spec fn has_start(s: Seq<u8>) -> bool {
    start_from(s, 0) >= 0
}

/// The index of the first start byte of `s`.
pub open spec fn first_start(s: Seq<u8>) -> int {
    start_from(s, 0)
}

/// Whether the AT confirmation `resp` reports an error: `"ERROR"` at the
/// first AT byte, or two bytes later after a leading `"\r\n"`.
pub open spec fn reports_error(resp: Seq<u8>) -> bool {
    holds_at(resp, AT_COMMAND_POSITION as int, error_text()) || holds_at(
        resp,
        AT_COMMAND_POSITION + 2,
        error_text(),
    )
}

/// What a complete frame of `el` bytes at the head of `buf` gives.
pub open spec fn frame_event(buf: Seq<u8>, el: int) -> DigestResult {
    if el <= 4 {
        DigestResult::Nothing
    } else {
        let all = Span { start: 0, end: el as usize };
        match payload_type_of(buf[4]) {
            PayloadType::ATConfirmation => if reports_error(buf.subrange(0, el)) {
                DigestResult::Response(Err(EdmError::InvalidResponse))
            } else {
                DigestResult::Response(Ok(all))
            },
            PayloadType::StartEvent => DigestResult::Response(Ok(all)),
            PayloadType::ATEvent | PayloadType::ConnectEvent | PayloadType::DataEvent
            | PayloadType::DisconnectEvent => DigestResult::Urc(all),
            _ => DigestResult::Nothing,
        }
    }
}

/// What one digester call on `buf` returns: the result and how many bytes
/// to drop from the head of `buf`.
///
/// A buffer that opens with `"\r\n"` and holds another line end gives its
/// first line: the startup banner as an event, a line within one byte of
/// the autoconnect banner's length as an event, any other line as noise. A
/// buffer that ends with the startup banner gives the banner and is dropped
/// whole. Else bytes
/// before the first start byte are noise (all of them if there is none); a
/// frame that is not complete yet, or does not close with the end byte, gives
/// nothing and keeps the buffer; a complete frame is dispatched on its type.
pub open spec fn digest_result(buf: Seq<u8>) -> (DigestResult, int) {
    if buf.len() == 0 {
        (DigestResult::Nothing, 0)
    } else if opens_banner(buf) && has_line_end(buf) {
        banner_result(buf)
    } else if !opens_banner(buf) && ends_with_startup(buf) {
        (
            DigestResult::Urc(Span { start: (buf.len() - STARTUP_LEN) as usize, end: buf.len() as usize }),
            buf.len() as int,
        )
    } else {
        binary_result(buf)
    }
}

/// What the first line of a buffer that opens with `"\r\n"` gives.
pub open spec fn banner_result(buf: Seq<u8>) -> (DigestResult, int) {
    {
        let l = line_end(buf) + 2;
        if holds_at(buf, 0, startup_message()) && l == STARTUP_LEN {
            (DigestResult::Urc(Span { start: 0, end: STARTUP_LEN }), STARTUP_LEN as int)
        } else if AUTOCONNECT_LEN - 1 <= l <= AUTOCONNECT_LEN + 1 {
            (DigestResult::Urc(Span { start: 0, end: l as usize }), l)
        } else {
            (DigestResult::Nothing, l)
        }
    }
}

/// What the binary framing makes of `buf`: the part of [`digest_result`]
/// after the banner checks.
pub open spec fn binary_result(buf: Seq<u8>) -> (DigestResult, int) {
    if !has_start(buf) {
        (DigestResult::Nothing, buf.len() as int)
    } else if first_start(buf) != 0 {
        (DigestResult::Nothing, first_start(buf))
    } else if buf.len() < EDM_OVERHEAD {
        (DigestResult::Nothing, 0)
    } else {
        let el = payload_len_of(buf) + EDM_OVERHEAD;
        if buf.len() < el || buf[el - 1] != ENDBYTE {
            (DigestResult::Nothing, 0)
        } else {
            (frame_event(buf, el), el)
        }
    }
}

/// Whether `buf` holds the startup banner at `i`.
fn startup_at(buf: &[u8], i: usize) -> (r: bool)
    requires
        i + STARTUP_LEN <= buf@.len(),
    ensures
        r == holds_at(buf@, i as int, startup_message()),
{
    let r = buf[i] == 13 && buf[i + 1] == 10 && buf[i + 2] == 43 && buf[i + 3] == 83 && buf[i + 4]
        == 84 && buf[i + 5] == 65 && buf[i + 6] == 82 && buf[i + 7] == 84 && buf[i + 8] == 85
        && buf[i + 9] == 80 && buf[i + 10] == 13 && buf[i + 11] == 10;
    assert(r == (buf@.subrange(i as int, i + 12) =~= startup_message()));
    r
}

/// Whether `buf[..end]` holds `"ERROR"` at `i`.
fn error_at(buf: &[u8], end: usize, i: usize) -> (r: bool)
    requires
        end <= buf@.len(),
    ensures
        r == holds_at(buf@.subrange(0, end as int), i as int, error_text()),
{
    if i > end || end - i < 5 {
        return false;
    }
    let r = buf[i] == 69 && buf[i + 1] == 82 && buf[i + 2] == 82 && buf[i + 3] == 79 && buf[i + 4]
        == 82;
    assert(r == (buf@.subrange(0, end as int).subrange(i as int, i + 5) =~= error_text()));
    r
}

/// The first line end after the first two bytes of `buf`.
fn find_line_end(buf: &[u8]) -> (r: Option<usize>)
    ensures
        r is None <==> !has_line_end(buf@),
        r matches Some(j) ==> j == line_end(buf@) && 2 <= j && is_crlf(buf@, j as int),
{
    let mut j: usize = 2;
    while j < buf.len()
        invariant
            2 <= j,
            line_end_from(buf@, j as int) == line_end(buf@),
        decreases buf@.len() - j,
    {
        if j + 1 < buf.len() && buf[j] == 13 && buf[j + 1] == 10 {
            return Some(j);
        }
        if j + 1 >= buf.len() {
            return None;
        }
        j = j + 1;
    }
    None
}

/// The first start byte of `buf`.
fn find_start(buf: &[u8]) -> (r: Option<usize>)
    ensures
        r is None <==> !has_start(buf@),
        r matches Some(i) ==> i == first_start(buf@) && i < buf@.len(),
{
    let mut i: usize = 0;
    while i < buf.len()
        invariant
            i <= buf@.len(),
            start_from(buf@, i as int) == first_start(buf@),
        decreases buf@.len() - i,
    {
        if buf[i] == STARTBYTE {
            return Some(i);
        }
        i = i + 1;
    }
    None
}

/// Dispatches the complete frame of `el` bytes at the head of `buf`.
fn dispatch_frame(buf: &[u8], el: usize) -> (r: DigestResult)
    requires
        el <= buf@.len(),
    ensures
        r == frame_event(buf@, el as int),
{
    if el <= 4 {
        return DigestResult::Nothing;
    }
    let all = Span { start: 0, end: el };
    match PayloadType::from_byte(buf[4]) {
        PayloadType::ATConfirmation => {
            if error_at(buf, el, AT_COMMAND_POSITION) || error_at(buf, el, AT_COMMAND_POSITION + 2) {
                DigestResult::Response(Err(EdmError::InvalidResponse))
            } else {
                DigestResult::Response(Ok(all))
            }
        },
        PayloadType::StartEvent => DigestResult::Response(Ok(all)),
        PayloadType::ATEvent | PayloadType::ConnectEvent | PayloadType::DataEvent
        | PayloadType::DisconnectEvent => DigestResult::Urc(all),
        _ => DigestResult::Nothing,
    }
}

/// The digester of the EDM byte stream.
#[derive(Debug, Clone, Copy, Default)]
pub struct EdmDigester;

impl EdmDigester {
    pub fn new() -> (r: Self) {
        EdmDigester
    }

    /// Looks at the head of `buf` and returns what it found and how many
    /// bytes to drop from the head. The caller calls again, after dropping
    /// them or after more bytes arrived, until nothing is dropped.
    pub fn digest(&self, buf: &[u8]) -> (r: (DigestResult, usize))
        ensures
            (r.0, r.1 as int) == digest_result(buf@),
            r.1 <= buf@.len(),
    {
        if buf.len() == 0 {
            return (DigestResult::Nothing, 0);
        }
        if buf.len() >= STARTUP_LEN && buf[0] == 13 && buf[1] == 10 {
            if let Some(j) = find_line_end(buf) {
                return Self::digest_line(buf, j);
            }
        } else if buf.len() > STARTUP_LEN && startup_at(buf, buf.len() - STARTUP_LEN) {
            return (
                DigestResult::Urc(Span { start: buf.len() - STARTUP_LEN, end: buf.len() }),
                buf.len(),
            );
        }
        Self::digest_binary(buf)
    }

    /// The banner part of [`EdmDigester::digest`], on a buffer whose first
    /// line ends at `j`.
    fn digest_line(buf: &[u8], j: usize) -> (r: (DigestResult, usize))
        requires
            opens_banner(buf@),
            has_line_end(buf@),
            j == line_end(buf@),
            2 <= j,
            is_crlf(buf@, j as int),
        ensures
            (r.0, r.1 as int) == banner_result(buf@),
            r.1 <= buf@.len(),
    {
        let n = buf.len();
        assert(j + 2 <= n);
        let len = j + 2;
        if len == STARTUP_LEN && startup_at(buf, 0) {
            (DigestResult::Urc(Span { start: 0, end: STARTUP_LEN }), STARTUP_LEN)
        } else if AUTOCONNECT_LEN - 1 <= len && len <= AUTOCONNECT_LEN + 1 {
            (DigestResult::Urc(Span { start: 0, end: len }), len)
        } else {
            (DigestResult::Nothing, len)
        }
    }

    /// The binary part of [`EdmDigester::digest`]: resynchronisation on the
    /// start byte, the length and end byte checks, and the dispatch.
    fn digest_binary(buf: &[u8]) -> (r: (DigestResult, usize))
        requires
            buf@.len() > 0,
        ensures
            (r.0, r.1 as int) == binary_result(buf@),
            r.1 <= buf@.len(),
    {
        let start_pos = match find_start(buf) {
            Some(pos) => pos,
            None => return (DigestResult::Nothing, buf.len()),
        };
        if start_pos != 0 {
            return (DigestResult::Nothing, start_pos);
        }
        if buf.len() < EDM_OVERHEAD {
            return (DigestResult::Nothing, 0);
        }
        let payload_len = calc_payload_len(buf);
        let edm_len = payload_len + EDM_OVERHEAD;
        if buf.len() < edm_len || buf[edm_len - 1] != ENDBYTE {
            return (DigestResult::Nothing, 0);
        }
        (dispatch_frame(buf, edm_len), edm_len)
    }
}

/// The length bytes of a frame read back as its length.
proof fn lemma_len_bytes(len: nat)
    requires
        len <= 0x0FFF,
    ensures
        (len_hi(len) as nat % 16) * 256 + len_lo(len) as nat == len,
{
    let hi = len_hi(len);
    let lo = len_lo(len);
    assert((len / 256) % 16 == len / 256) by (nonlinear_arith)
        requires
            len <= 0x0FFF,
    ;
    assert((len / 256) * 256 + len % 256 == len) by (nonlinear_arith);
}

/// The facts about a frame that the digester reads.
proof fn lemma_frame_shape(t: u8, p: Seq<u8>)
    requires
        p.len() + 2 <= 0x0FFF,
    ensures
        frame(t, p).len() == p.len() + 6,
        frame(t, p)[0] == STARTBYTE,
        frame(t, p)[4] == t,
        frame(t, p)[frame(t, p).len() - 1] == ENDBYTE,
        payload_len_of(frame(t, p)) == p.len() + 2,
{
    let f = frame(t, p);
    lemma_len_bytes(p.len() + 2);
    assert(f[1] == len_hi(p.len() + 2));
    assert(f[2] == len_lo(p.len() + 2));
}

/// A buffer that opens with a start byte and does not end with the startup
/// banner is read by the binary framing, from its first byte.
proof fn lemma_binary_head(buf: Seq<u8>)
    requires
        buf.len() > 0,
        buf[0] == STARTBYTE,
        !ends_with_startup(buf),
    ensures
        digest_result(buf) == binary_result(buf),
        has_start(buf),
        first_start(buf) == 0,
{
}

/// The first start byte of `n + rest`, where `n` holds none and `rest`
/// opens with one, is at the length of `n`.
proof fn lemma_start_after_noise(n: Seq<u8>, rest: Seq<u8>, i: int)
    requires
        0 <= i <= n.len(),
        rest.len() > 0,
        rest[0] == STARTBYTE,
        forall|k: int| 0 <= k < n.len() ==> n[k] != STARTBYTE,
    ensures
        start_from(n + rest, i) == n.len(),
    decreases n.len() - i,
{
    let s = n + rest;
    if i < n.len() {
        assert(s[i] == n[i]);
        lemma_start_after_noise(n, rest, i + 1);
    } else {
        assert(s[i] == rest[0]);
    }
}

/// A frame with up to 4093 payload bytes, fed whole, is handed on in one
/// call and dropped whole: an AT confirmation as a response (an error
/// response if it reports `ERROR`), a start event as a response, AT,
/// connect, data and disconnect events as URCs, any other type as nothing.
pub proof fn lemma_whole_frame(t: u8, p: Seq<u8>)
    requires
        p.len() <= 4093,
    ensures
        ({
            let f = frame(t, p);
            let r = digest_result(f);
            let all = Span { start: 0, end: f.len() as usize };
            &&& r.1 == f.len()
            &&& payload_type_of(t) == PayloadType::ATConfirmation ==> r.0 == (if reports_error(f) {
                DigestResult::Response(Err(EdmError::InvalidResponse))
            } else {
                DigestResult::Response(Ok(all))
            })
            &&& payload_type_of(t) == PayloadType::StartEvent ==> r.0 == DigestResult::Response(Ok(all))
            &&& (payload_type_of(t) == PayloadType::ATEvent || payload_type_of(t) == PayloadType::ConnectEvent
                || payload_type_of(t) == PayloadType::DataEvent || payload_type_of(t)
                == PayloadType::DisconnectEvent) ==> r.0 == DigestResult::Urc(all)
            &&& (payload_type_of(t) == PayloadType::ATRequest || payload_type_of(t) == PayloadType::DataCommand
                || payload_type_of(t) == PayloadType::ResendConnectEventsCommand || payload_type_of(t)
                == PayloadType::Unknown) ==> r.0 == DigestResult::Nothing
        }),
{
    let f = frame(t, p);
    lemma_frame_shape(t, p);
    lemma_binary_head(f);
    assert(f.subrange(0, f.len() as int) =~= f);
}

/// A frame fed in two parts gives nothing after the first part, which stays
/// in the buffer, and after the second part the buffer is the whole frame;
/// this holds for every split whose first part does not end with the
/// startup banner.
pub proof fn lemma_split_frame(t: u8, p: Seq<u8>, k: int)
    requires
        p.len() <= 4093,
        0 <= k < frame(t, p).len(),
        !ends_with_startup(frame(t, p).subrange(0, k)),
    ensures
        digest_result(frame(t, p).subrange(0, k)) == (DigestResult::Nothing, 0int),
        frame(t, p).subrange(0, k) + frame(t, p).subrange(k, frame(t, p).len() as int) == frame(t, p),
{
    let f = frame(t, p);
    lemma_frame_shape(t, p);
    let head = f.subrange(0, k);
    if k > 0 {
        assert(head[0] == STARTBYTE);
        lemma_binary_head(head);
        if k >= 4 {
            assert(head[1] == f[1] && head[2] == f[2]);
            assert(payload_len_of(head) == payload_len_of(f));
        }
    }
    assert(head + f.subrange(k, f.len() as int) =~= f);
}

/// Noise that holds no start byte and does not open with `"\r\n"`, fed
/// ahead of a frame, is dropped as nothing in one call, which leaves the
/// frame at the head of the buffer.
pub proof fn lemma_noise_then_frame(n: Seq<u8>, t: u8, p: Seq<u8>)
    requires
        p.len() <= 4093,
        n.len() > 0,
        forall|k: int| 0 <= k < n.len() ==> n[k] != STARTBYTE,
        !(n.len() >= 2 && n[0] == 13 && n[1] == 10),
    ensures
        digest_result(n + frame(t, p)) == (DigestResult::Nothing, n.len() as int),
        (n + frame(t, p)).subrange(n.len() as int, (n + frame(t, p)).len() as int) == frame(t, p),
{
    let f = frame(t, p);
    let s = n + f;
    lemma_frame_shape(t, p);
    assert(s[s.len() - 1] == ENDBYTE);
    assert(!ends_with_startup(s)) by {
        if ends_with_startup(s) {
            let tail = s.subrange(s.len() - STARTUP_LEN, s.len() as int);
            assert(tail[11] == s[s.len() - 1]);
        }
    }
    if n.len() == 1 {
        assert(s[1] == f[0]);
    } else {
        assert(s[0] == n[0] && s[1] == n[1]);
    }
    lemma_start_after_noise(n, f, 0);
    assert(s.subrange(n.len() as int, s.len() as int) =~= f);
}

/// The startup banner followed by any frame gives the banner as an event
/// and drops exactly its twelve bytes, which leaves the frame at the head of
/// the buffer.
pub proof fn lemma_startup_then_frame(t: u8, p: Seq<u8>)
    requires
        p.len() <= 4093,
    ensures
        digest_result(startup_message() + frame(t, p)) == (
            DigestResult::Urc(Span { start: 0, end: STARTUP_LEN }),
            STARTUP_LEN as int,
        ),
        (startup_message() + frame(t, p)).subrange(STARTUP_LEN as int, (startup_message() + frame(t, p)).len() as int)
            == frame(t, p),
{
    let f = frame(t, p);
    let s = startup_message() + f;
    lemma_frame_shape(t, p);
    assert(s.subrange(0, 12) =~= startup_message());
    reveal_with_fuel(line_end_from, 10);
    assert(line_end(s) == 10);
    assert(s.subrange(STARTUP_LEN as int, s.len() as int) =~= f);
}

/// A buffer in the shape of a frame whose last byte is not the end byte
/// gives nothing, in full or cut short, and stays in the buffer, unless
/// the cut ends with the startup banner.
pub proof fn lemma_bad_end_byte(buf: Seq<u8>, k: int)
    requires
        buf.len() >= PAYLOAD_OVERHEAD,
        buf[0] == STARTBYTE,
        buf.len() == payload_len_of(buf) + EDM_OVERHEAD,
        buf[buf.len() - 1] != ENDBYTE,
        0 <= k <= buf.len(),
        !ends_with_startup(buf.subrange(0, k)),
    ensures
        digest_result(buf.subrange(0, k)) == (DigestResult::Nothing, 0int),
{
    let head = buf.subrange(0, k);
    if k > 0 {
        assert(head[0] == STARTBYTE);
        lemma_binary_head(head);
        if k >= 4 {
            assert(head[1] == buf[1] && head[2] == buf[2]);
            assert(payload_len_of(head) == payload_len_of(buf));
            if k == buf.len() {
                assert(head[k - 1] == buf[k - 1]);
            }
        }
    }
}

} // verus!
