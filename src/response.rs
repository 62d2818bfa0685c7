use vstd::prelude::*;
use vstd::string::StringSliceAdditionalSpecFns;

verus! {

/// The request line that is answered only after a pause.
pub const SLOW_REQUEST: &'static str = "GET /sleep HTTP/1.1";

/// How long, in seconds, a slow request waits before its answer.
pub const SLOW_PAUSE_SECS: u64 = 5;

/// The status line of every answer.
pub const OK_STATUS: &'static str = "HTTP/1.1 200 OK";

/// The file whose text is the body of every answer.
pub const PAGE_PATH: &'static str = "index.html";

/// The header that announces the body's length in bytes.
pub const CONTENT_LENGTH: &'static str = "Content-Length: ";

/// A line break.
pub const LINE_BREAK: &'static str = "\r\n";

/// The code of the ASCII digit zero.
pub const ASCII_ZERO: u8 = 48;

/// How a connection's request is to be answered.
#[derive(Debug, Clone, Copy, PartialEq, Eq, Structural)]
pub struct ResponsePlan {
    /// Seconds to wait before answering.
    pub pause_secs: u64,
}

/// The decimal digits of `n`, most significant first, without leading zeros.
pub open spec fn decimal(n: nat) -> Seq<u8>
    decreases n,
{
    if n < 10 {
        seq![(ASCII_ZERO + n) as u8]
    } else {
        decimal(n / 10).push((ASCII_ZERO + n % 10) as u8)
    }
}

/// The bytes of an answer: the status line, the length header, a blank line,
/// then the body.
pub open spec fn response_bytes(status: Seq<u8>, body: Seq<u8>) -> Seq<u8> {
    status + LINE_BREAK.spec_bytes() + CONTENT_LENGTH.spec_bytes() + decimal(body.len())
        + LINE_BREAK.spec_bytes() + LINE_BREAK.spec_bytes() + body
}

/// Decides how the request whose first line is `request_line` is answered:
/// the slow request after a pause, any other at once. Every request gets the
/// same status and page.
pub fn plan_response(request_line: &[u8]) -> (r: ResponsePlan)
    ensures
        r.pause_secs == if request_line@ == SLOW_REQUEST.spec_bytes() {
            SLOW_PAUSE_SECS
        } else {
            0
        },
{
    if bytes_equal(request_line, SLOW_REQUEST.as_bytes()) {
        ResponsePlan { pause_secs: SLOW_PAUSE_SECS }
    } else {
        ResponsePlan { pause_secs: 0 }
    }
}

/// Whether `a` and `b` hold the same bytes.
fn bytes_equal(a: &[u8], b: &[u8]) -> (r: bool)
    ensures
        r == (a@ == b@),
{
    if a.len() != b.len() {
        return false;
    }
    let mut i: usize = 0;
    while i < a.len()
        invariant
            a@.len() == b@.len(),
            i <= a@.len(),
            forall|k: int| 0 <= k < i ==> a@[k] == b@[k],
        decreases a@.len() - i,
    {
        if a[i] != b[i] {
            return false;
        }
        i = i + 1;
    }
    assert(a@ =~= b@);
    true
}

/// Appends the bytes of `src` to `out`.
fn append_bytes(out: &mut Vec<u8>, src: &[u8])
    ensures
        final(out)@ == old(out)@ + src@,
{
    let mut i: usize = 0;
    while i < src.len()
        invariant
            i <= src@.len(),
            out@ == old(out)@ + src@.subrange(0, i as int),
        decreases src@.len() - i,
    {
        out.push(src[i]);
        i = i + 1;
        assert(out@ =~= old(out)@ + src@.subrange(0, i as int));
    }
    assert(src@.subrange(0, src@.len() as int) =~= src@);
}

/// Appends the decimal digits of `n` to `out`.
fn append_decimal(out: &mut Vec<u8>, n: usize)
    ensures
        final(out)@ == old(out)@ + decimal(n as nat),
    decreases n,
{
    let digit: u8 = (n % 10) as u8;
    if n >= 10 {
        append_decimal(out, n / 10);
    }
    out.push(ASCII_ZERO + digit);
    assert(out@ =~= old(out)@ + decimal(n as nat));
}

/// The full answer with status line `status` and body `body`.
pub fn frame_response(status: &[u8], body: &[u8]) -> (r: Vec<u8>)
    ensures
        r@ == response_bytes(status@, body@),
{
    let mut out: Vec<u8> = Vec::new();
    append_bytes(&mut out, status);
    append_bytes(&mut out, LINE_BREAK.as_bytes());
    append_bytes(&mut out, CONTENT_LENGTH.as_bytes());
    append_decimal(&mut out, body.len());
    append_bytes(&mut out, LINE_BREAK.as_bytes());
    append_bytes(&mut out, LINE_BREAK.as_bytes());
    append_bytes(&mut out, body);
    out
}

} // verus!
