//! The socket adapter's decisions: what each answer of a non-blocking
//! streaming transport means for the host, when a read loop stops, and
//! which outgoing operations may touch the transport at all.
//!
//! The caller owns the transport. Its read loop hands every answer to
//! [`read_step`], fires the event it gets back, sends the pong it gets back,
//! and returns the status once one comes back.

use vstd::prelude::*;
use vstd::string::*;

verus! {

/// Status codes of the socket adapter.
#[derive(PartialEq, Eq, Structural, Debug, Clone, Copy)]
#[allow(non_camel_case_types)]
pub enum ws_rc {
    Success,
    InvalidClient,
    InvalidServer,
    InvalidMessage,
    InvalidData,
    SendError,
    NoData,
    CloseError,
    ConnectionClosed,
    NonBlockingError,
    SocketAcceptError,
    SocketReadError,
    SocketDeferClose,
    /// Nothing more to read right now: not an error.
    RunloopExit,
}

/// How incoming text is trimmed before delivery.
#[derive(PartialEq, Eq, Structural, Debug, Clone, Copy)]
#[allow(non_camel_case_types)]
pub enum ws_trim {
    /// as received
    NO,
    /// without leading white space
    START,
    /// without trailing white space
    END,
    /// without either
    BOTH,
}

/// Whether `c` has Unicode's White_Space property: the 25 code points
/// U+0009..U+000D, U+0020, U+0085, U+00A0, U+1680, U+2000..U+200A, U+2028,
/// U+2029, U+202F, U+205F and U+3000.
pub open spec fn white_space(c: char) -> bool {
    let u = c as u32;
    (0x9 <= u <= 0xd) || u == 0x20 || u == 0x85 || u == 0xa0 || u == 0x1680 || (0x2000 <= u
        <= 0x200a) || u == 0x2028 || u == 0x2029 || u == 0x202f || u == 0x205f || u == 0x3000
}

/// Whether `c` is white space, as `white_space` states it.
pub fn is_white_space(c: char) -> (r: bool)
    ensures
        r == white_space(c),
{
    let u = c as u32;
    (0x9 <= u && u <= 0xd) || u == 0x20 || u == 0x85 || u == 0xa0 || u == 0x1680 || (0x2000 <= u
        && u <= 0x200a) || u == 0x2028 || u == 0x2029 || u == 0x202f || u == 0x205f || u == 0x3000
}

/// `s` without its leading white space.
pub open spec fn trim_start_of(s: Seq<char>) -> Seq<char>
    decreases s.len(),
{
    if s.len() > 0 && white_space(s[0]) {
        trim_start_of(s.drop_first())
    } else {
        s
    }
}

/// `s` without its trailing white space.
pub open spec fn trim_end_of(s: Seq<char>) -> Seq<char>
    decreases s.len(),
{
    if s.len() > 0 && white_space(s.last()) {
        trim_end_of(s.drop_last())
    } else {
        s
    }
}

/// Text as delivered under a trim mode.
pub open spec fn trimmed(s: Seq<char>, mode: ws_trim) -> Seq<char> {
    match mode {
        ws_trim::NO => s,
        ws_trim::START => trim_start_of(s),
        ws_trim::END => trim_end_of(s),
        ws_trim::BOTH => trim_end_of(trim_start_of(s)),
    }
}

/// Trims `text` as `mode` says.
pub fn trim_text(text: &str, mode: ws_trim) -> (r: String)
    ensures
        r@ == trimmed(text@, mode),
{
    let n = text.unicode_len();
    let mut i: usize = 0;
    assert(text@.subrange(0, n as int) =~= text@);
    if mode == ws_trim::START || mode == ws_trim::BOTH {
        while i < n && is_white_space(text.get_char(i))
            invariant
                n == text@.len(),
                i <= n,
                trim_start_of(text@) == trim_start_of(text@.subrange(i as int, n as int)),
            decreases n - i,
        {
            proof {
                let t = text@.subrange(i as int, n as int);
                assert(t.drop_first() =~= text@.subrange(i + 1, n as int));
            }
            i = i + 1;
        }
    }
    proof {
        let t = text@.subrange(i as int, n as int);
        if i < n {
            assert(t[0] == text@[i as int]);
        }
        assert(text@.subrange(0, n as int) =~= text@);
    }
    let mut j: usize = n;
    if mode == ws_trim::END || mode == ws_trim::BOTH {
        while j > i && is_white_space(text.get_char(j - 1))
            invariant
                n == text@.len(),
                i <= j <= n,
                trim_end_of(text@.subrange(i as int, n as int)) == trim_end_of(
                    text@.subrange(i as int, j as int),
                ),
            decreases j,
        {
            proof {
                let t = text@.subrange(i as int, j as int);
                assert(t.drop_last() =~= text@.subrange(i as int, j - 1));
            }
            j = j - 1;
        }
    }
    proof {
        let t = text@.subrange(i as int, j as int);
        if j > i {
            assert(t.last() == text@[j - 1]);
        }
        if mode == ws_trim::START || mode == ws_trim::BOTH {
            let u = text@.subrange(i as int, n as int);
            if i < n {
                assert(u[0] == text@[i as int]);
            }
        }
    }
    String::from_str(text.substring_char(i, j))
}

/// A transport-layer failure by family, with the transport's own description.
pub enum WsFailure {
    Io(String),
    Tls(String),
    Capacity(String),
    Protocol(String),
    WriteBufferFull(String),
    Utf8,
    AttackAttempt,
    Url(String),
    HttpFormat(String),
    Other(String),
}

/// The diagnostic that a transport failure is reported with.
pub open spec fn failure_text(f: WsFailure) -> Seq<char> {
    match f {
        WsFailure::Io(d) => "IO error: "@ + d@,
        WsFailure::Tls(d) => "TLS error: "@ + d@,
        WsFailure::Capacity(d) => "capacity error: "@ + d@,
        WsFailure::Protocol(d) => "protocol error: "@ + d@,
        WsFailure::WriteBufferFull(d) => "buffer error: "@ + d@,
        WsFailure::Utf8 => "Utf8 error"@,
        WsFailure::AttackAttempt => "attack attempt error"@,
        WsFailure::Url(d) => "url error: "@ + d@,
        WsFailure::HttpFormat(d) => "http format error: "@ + d@,
        WsFailure::Other(d) => "error: "@ + d@,
    }
}

fn prefixed(prefix: &str, detail: &String) -> (r: String)
    ensures
        r@ == prefix@ + detail@,
{
    String::from_str(prefix).concat(detail.as_str())
}

/// Builds the diagnostic of a transport failure.
pub fn failure_message(f: WsFailure) -> (r: String)
    ensures
        r@ == failure_text(f),
{
    match f {
        WsFailure::Io(d) => prefixed("IO error: ", &d),
        WsFailure::Tls(d) => prefixed("TLS error: ", &d),
        WsFailure::Capacity(d) => prefixed("capacity error: ", &d),
        WsFailure::Protocol(d) => prefixed("protocol error: ", &d),
        WsFailure::WriteBufferFull(d) => prefixed("buffer error: ", &d),
        WsFailure::Utf8 => String::from_str("Utf8 error"),
        WsFailure::AttackAttempt => String::from_str("attack attempt error"),
        WsFailure::Url(d) => prefixed("url error: ", &d),
        WsFailure::HttpFormat(d) => prefixed("http format error: ", &d),
        WsFailure::Other(d) => prefixed("error: ", &d),
    }
}

/// One answer of the transport to a read.
pub enum WsIncoming {
    Text(String),
    Binary(Vec<u8>),
    Ping(Vec<u8>),
    Pong(Vec<u8>),
    /// A close frame from the peer; the closed connection is reported by the next read.
    Close,
    /// A raw frame, not delivered.
    Frame,
    ConnectionClosed,
    AlreadyClosed,
    /// Nothing to read without blocking.
    WouldBlock,
    Failure(WsFailure),
}

/// A host callback to fire, with its argument.
pub enum WsEvent {
    Text(String),
    Binary(Vec<u8>),
    Ping(Vec<u8>),
    Pong(Vec<u8>),
    Close,
    Error(String),
}

/// What one transport answer asks of the read loop.
pub struct ReadStep {
    /// The callback to fire, if any.
    pub event: Option<WsEvent>,
    /// A pong to send back, carrying the ping's payload.
    pub pong: Option<Vec<u8>>,
    /// The status the loop returns with; `None` to read on.
    pub finish: Option<ws_rc>,
}

/// Nothing to fire, nothing to send, read on.
pub open spec fn quiet(r: ReadStep) -> bool {
    r.event is None && r.pong is None && r.finish is None
}

fn copy_bytes(v: &Vec<u8>) -> (r: Vec<u8>)
    ensures
        r@ == v@,
{
    let mut r: Vec<u8> = Vec::new();
    let mut i: usize = 0;
    while i < v.len()
        invariant
            i <= v@.len(),
            r@ == v@.subrange(0, i as int),
        decreases v@.len() - i,
    {
        r.push(v[i]);
        proof {
            assert(r@ =~= v@.subrange(0, i + 1));
        }
        i = i + 1;
    }
    r
}

/// Classifies one transport answer: data messages fire their callback and
/// let the loop read on (a ping also answers with a pong of the same
/// payload); would-block ends the loop with the "nothing more" status;
/// a closed connection fires the close callback; every failure fires the
/// error callback with its diagnostic and ends with the shared error code.
pub fn read_step(trim: ws_trim, incoming: WsIncoming) -> (r: ReadStep)
    ensures
        match incoming {
            WsIncoming::Text(t) => r.pong is None && r.finish is None && (r.event matches Some(
                WsEvent::Text(u),
            ) && u@ == trimmed(t@, trim)),
            WsIncoming::Binary(d) => r.pong is None && r.finish is None && (r.event matches Some(
                WsEvent::Binary(e),
            ) && e@ == d@),
            WsIncoming::Ping(d) => r.finish is None && (r.pong matches Some(p) && p@ == d@) && (
            r.event matches Some(WsEvent::Ping(e)) && e@ == d@),
            WsIncoming::Pong(d) => r.pong is None && r.finish is None && (r.event matches Some(
                WsEvent::Pong(e),
            ) && e@ == d@),
            WsIncoming::Close => quiet(r),
            WsIncoming::Frame => quiet(r),
            WsIncoming::ConnectionClosed => r.pong is None && r.finish == Some(
                ws_rc::ConnectionClosed,
            ) && r.event matches Some(WsEvent::Close),
            WsIncoming::AlreadyClosed => r.pong is None && r.finish == Some(ws_rc::CloseError)
                && (r.event matches Some(WsEvent::Error(m)) && m@ == "already closed"@),
            WsIncoming::WouldBlock => r.pong is None && r.event is None && r.finish == Some(
                ws_rc::RunloopExit,
            ),
            WsIncoming::Failure(f) => r.pong is None && r.finish == Some(ws_rc::NoData)
                && (r.event matches Some(WsEvent::Error(m)) && m@ == failure_text(f)),
        },
{
    match incoming {
        WsIncoming::Text(t) => ReadStep {
            event: Some(WsEvent::Text(trim_text(t.as_str(), trim))),
            pong: None,
            finish: None,
        },
        WsIncoming::Binary(d) => ReadStep { event: Some(WsEvent::Binary(d)), pong: None, finish: None },
        WsIncoming::Ping(d) => {
            let p = copy_bytes(&d);
            ReadStep { event: Some(WsEvent::Ping(d)), pong: Some(p), finish: None }
        },
        WsIncoming::Pong(d) => ReadStep { event: Some(WsEvent::Pong(d)), pong: None, finish: None },
        WsIncoming::Close => ReadStep { event: None, pong: None, finish: None },
        WsIncoming::Frame => ReadStep { event: None, pong: None, finish: None },
        WsIncoming::ConnectionClosed => ReadStep {
            event: Some(WsEvent::Close),
            pong: None,
            finish: Some(ws_rc::ConnectionClosed),
        },
        WsIncoming::AlreadyClosed => ReadStep {
            event: Some(WsEvent::Error(String::from_str("already closed"))),
            pong: None,
            finish: Some(ws_rc::CloseError),
        },
        WsIncoming::WouldBlock => ReadStep { event: None, pong: None, finish: Some(ws_rc::RunloopExit) },
        WsIncoming::Failure(f) => ReadStep {
            event: Some(WsEvent::Error(failure_message(f))),
            pong: None,
            finish: Some(ws_rc::NoData),
        },
    }
}

/// Reading "hello " and then meeting would-block: the text goes out whole
/// with no trimming and as "hello" with the end trimmed, and the read loop
/// stops on the second answer with the "nothing more" status.
pub proof fn lemma_hello_then_would_block()
    ensures
        trimmed(seq!['h', 'e', 'l', 'l', 'o', ' '], ws_trim::NO) == seq!['h', 'e', 'l', 'l', 'o', ' '],
        trimmed(seq!['h', 'e', 'l', 'l', 'o', ' '], ws_trim::END) == seq!['h', 'e', 'l', 'l', 'o'],
{
    let s = seq!['h', 'e', 'l', 'l', 'o', ' '];
    let t = seq!['h', 'e', 'l', 'l', 'o'];
    assert(s.drop_last() =~= t);
    assert(trim_end_of(t) == t);
}

/// An outgoing operation on the transport.
#[derive(PartialEq, Eq, Structural, Debug, Clone, Copy)]
pub enum WsWrite {
    /// queue a message and flush at once
    Send,
    /// queue a message for a later flush
    Write,
    Close,
    Flush,
}

/// The operation that a message send uses.
pub fn send_mode(flush: bool) -> (r: WsWrite)
    ensures
        r == (if flush {
            WsWrite::Send
        } else {
            WsWrite::Write
        }),
{
    if flush {
        WsWrite::Send
    } else {
        WsWrite::Write
    }
}

/// The refusal of an operation on a transport that can no longer write.
pub open spec fn closed_text(op: WsWrite) -> Seq<char> {
    match op {
        WsWrite::Close => "connection already closed"@,
        _ => "connection closed"@,
    }
}

/// Before an outgoing operation: after a close nothing may be written, and
/// the operation is refused with `CloseError` without any I/O. `None` lets it go.
pub fn write_gate(op: WsWrite, can_write: bool) -> (r: Option<(ws_rc, String)>)
    ensures
        can_write ==> r is None,
        !can_write ==> (r matches Some((rc, m)) && rc == ws_rc::CloseError && m@ == closed_text(op)),
{
    if can_write {
        None
    } else {
        match op {
            WsWrite::Close => Some((ws_rc::CloseError, String::from_str("connection already closed"))),
            _ => Some((ws_rc::CloseError, String::from_str("connection closed"))),
        }
    }
}

/// The status that a failed operation ends with.
pub open spec fn write_error_rc(op: WsWrite) -> ws_rc {
    match op {
        WsWrite::Close => ws_rc::CloseError,
        _ => ws_rc::SendError,
    }
}

/// The diagnostic of a failed operation, from the transport's description.
pub open spec fn write_error_text(op: WsWrite, d: Seq<char>) -> Seq<char> {
    match op {
        WsWrite::Send => "send error: "@ + d,
        WsWrite::Write => "write error: "@ + d,
        WsWrite::Close => "close error: "@ + d,
        WsWrite::Flush => "flush error: "@ + d,
    }
}

/// After the transport answered an outgoing operation: the status, and the
/// diagnostic for the error callback when it failed.
pub fn write_outcome(op: WsWrite, res: Result<(), String>) -> (r: (ws_rc, Option<String>))
    ensures
        res is Ok ==> r.0 == ws_rc::Success && r.1 is None,
        res matches Err(d) ==> r.0 == write_error_rc(op) && (r.1 matches Some(m) && m@
            == write_error_text(op, d@)),
{
    match res {
        Ok(()) => (ws_rc::Success, None),
        Err(d) => match op {
            WsWrite::Send => (ws_rc::SendError, Some(prefixed("send error: ", &d))),
            WsWrite::Write => (ws_rc::SendError, Some(prefixed("write error: ", &d))),
            WsWrite::Close => (ws_rc::CloseError, Some(prefixed("close error: ", &d))),
            WsWrite::Flush => (ws_rc::SendError, Some(prefixed("flush error: ", &d))),
        },
    }
}

/// A binary message must carry data: an empty one is refused with
/// `InvalidData` before any I/O.
pub fn binary_gate(data: &Vec<u8>) -> (r: Option<(ws_rc, String)>)
    ensures
        data@.len() > 0 ==> r is None,
        data@.len() == 0 ==> (r matches Some((rc, m)) && rc == ws_rc::InvalidData && m@
            == "invalid data"@),
{
    if data.len() > 0 {
        None
    } else {
        Some((ws_rc::InvalidData, String::from_str("invalid data")))
    }
}

} // verus!
