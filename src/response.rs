//! The responses of the single-endpoint HTTP responder: which one a request
//! gets, and the exact bytes of each.
use chunked_transfer::Encoder;
use std::io::Write;
use vstd::prelude::*;
use vstd::string::StringSliceAdditionalSpecFns;

verus! {

/// The request line that gets the success response.
pub open spec fn root_request_line() -> Seq<char> {
    "GET / HTTP/1.1"@
}

/// Which response a request gets.
#[derive(Clone, Copy, Debug, PartialEq, Eq, Structural)]
pub enum Route {
    /// The root resource: the success response.
    Root,
    /// Anything else: the error response, carrying the error image.
    Other,
}

/// Picks the response for a request from its header lines, the request line
/// first. A request without any line gets none.
pub fn route(headers: &Vec<String>) -> (r: Option<Route>)
    ensures
        r == (if headers@.len() == 0 {
            None
        } else if headers@[0]@ == root_request_line() {
            Some(Route::Root)
        } else {
            Some(Route::Other)
        }),
{
    if headers.len() == 0 {
        return None;
    }
    let root = "GET / HTTP/1.1".to_owned();
    if headers[0] == root {
        Some(Route::Root)
    } else {
        Some(Route::Other)
    }
}

/// Carriage return and line feed.
pub open spec fn crlf() -> Seq<u8> {
    seq![13u8, 10u8]
}

/// The lower-case hex digit of `n`, for `n < 16`.
pub open spec fn hex_digit(n: nat) -> u8 {
    if n < 10 {
        (48 + n) as u8
    } else {
        (87 + n) as u8
    }
}

/// The decimal digits of `n`, most significant first.
pub open spec fn decimal(n: nat) -> Seq<u8>
    decreases n,
{
    if n < 10 {
        seq![(48 + n) as u8]
    } else {
        decimal(n / 10).push((48 + n % 10) as u8)
    }
}

/// The chunked transfer coding of `data` in chunks of `size` bytes (`size`
/// under 16, so that each length is one hex digit): each chunk behind its
/// length and a line break and followed by one, the last chunk possibly
/// shorter, and the empty chunk `0` with its two line breaks at the end.
pub open spec fn chunked(data: Seq<u8>, size: nat) -> Seq<u8>
    decreases data.len(),
{
    if data.len() == 0 || size == 0 {
        seq![48u8] + crlf() + crlf()
    } else {
        let k = if size < data.len() {
            size
        } else {
            data.len()
        };
        seq![hex_digit(k)] + crlf() + data.subrange(0, k as int) + crlf() + chunked(
            data.subrange(k as int, data.len() as int),
            size,
        )
    }
}

/// The bytes of the success response.
pub open spec fn success_bytes() -> Seq<u8> {
    "HTTP/2 200 Party time".spec_bytes() + crlf() + "Content-Type: application/json; charset=UTF-8".spec_bytes()
        + crlf() + crlf() + "{\"message\": \"It's friday, have a nice day :) !\"}".spec_bytes()
        + crlf() + crlf()
}

/// The head of the error response for a body of `len` bytes; it ends with
/// the empty line.
pub open spec fn error_head(len: nat) -> Seq<u8> {
    "HTTP/2 400 C'mon at least read the docs .____. Wait, are there docs?".spec_bytes() + crlf()
        + "Content-Type: image/jpg".spec_bytes() + crlf() + "Content-Lenght: ".spec_bytes()
        + decimal(len) + crlf() + "Transfer-Encoding: chunked".spec_bytes() + crlf() + crlf()
}

/// The size of the chunks in which the error body is sent.
pub const ERROR_CHUNK_SIZE: usize = 8;

/// The bytes of the error response that carries `body`.
pub open spec fn error_bytes(body: Seq<u8>) -> Seq<u8> {
    error_head(body.len()) + chunked(body, ERROR_CHUNK_SIZE as nat)
}

/// Relies on chunked_transfer's `Encoder`: a fresh encoder with a chunk
/// size under 16, given the whole body in one `write_all` and then dropped,
/// writes exactly `chunked(data, chunk_size)` to its output (writing to a
/// `Vec` cannot fail).
#[verifier::external_body]
fn encode_chunked(data: &[u8], chunk_size: usize) -> (r: Vec<u8>)
    requires
        0 < chunk_size < 16,
    ensures
        r@ == chunked(data@, chunk_size as nat),
{
    let mut out: Vec<u8> = Vec::new();
    {
        let mut encoder = Encoder::with_chunks_size(&mut out, chunk_size);
        let _ = encoder.write_all(data);
    }
    out
}

/// Appends the bytes of `s`.
fn push_str(out: &mut Vec<u8>, s: &str)
    ensures
        final(out)@ == old(out)@ + s.spec_bytes(),
{
    let b = s.as_bytes();
    let mut i: usize = 0;
    while i < b.len()
        invariant
            i <= b@.len(),
            b@ == s.spec_bytes(),
            out@ == old(out)@ + b@.subrange(0, i as int),
        decreases b@.len() - i,
    {
        out.push(b[i]);
        i = i + 1;
        assert(out@ =~= old(out)@ + b@.subrange(0, i as int));
    }
    assert(b@.subrange(0, i as int) =~= b@);
}

/// Appends a line break.
fn push_crlf(out: &mut Vec<u8>)
    ensures
        final(out)@ == old(out)@ + crlf(),
{
    out.push(13u8);
    out.push(10u8);
    assert(out@ =~= old(out)@ + crlf());
}

/// Appends the decimal digits of `n`.
fn push_decimal(out: &mut Vec<u8>, n: usize)
    ensures
        final(out)@ == old(out)@ + decimal(n as nat),
    decreases n,
{
    if n >= 10 {
        push_decimal(out, n / 10);
    }
    let d: u8 = (n % 10) as u8;
    out.push(48u8 + d);
    assert(out@ =~= old(out)@ + decimal(n as nat));
}

/// The success response.
pub fn success_response() -> (r: Vec<u8>)
    ensures
        r@ == success_bytes(),
{
    let mut out: Vec<u8> = Vec::new();
    push_str(&mut out, "HTTP/2 200 Party time");
    push_crlf(&mut out);
    push_str(&mut out, "Content-Type: application/json; charset=UTF-8");
    push_crlf(&mut out);
    push_crlf(&mut out);
    push_str(&mut out, "{\"message\": \"It's friday, have a nice day :) !\"}");
    push_crlf(&mut out);
    push_crlf(&mut out);
    assert(out@ =~= success_bytes());
    out
}

/// The error response carrying `body`, sent in chunks.
pub fn error_response(body: &[u8]) -> (r: Vec<u8>)
    ensures
        r@ == error_bytes(body@),
{
    let mut out: Vec<u8> = Vec::new();
    push_str(&mut out, "HTTP/2 400 C'mon at least read the docs .____. Wait, are there docs?");
    push_crlf(&mut out);
    push_str(&mut out, "Content-Type: image/jpg");
    push_crlf(&mut out);
    push_str(&mut out, "Content-Lenght: ");
    push_decimal(&mut out, body.len());
    push_crlf(&mut out);
    push_str(&mut out, "Transfer-Encoding: chunked");
    push_crlf(&mut out);
    push_crlf(&mut out);
    let encoded = encode_chunked(body, ERROR_CHUNK_SIZE);
    let mut i: usize = 0;
    let ghost head = out@;
    while i < encoded.len()
        invariant
            i <= encoded@.len(),
            out@ == head + encoded@.subrange(0, i as int),
        decreases encoded@.len() - i,
    {
        out.push(encoded[i]);
        i = i + 1;
        assert(out@ =~= head + encoded@.subrange(0, i as int));
    }
    assert(encoded@.subrange(0, i as int) =~= encoded@);
    assert(out@ =~= error_bytes(body@));
    out
}

} // verus!
