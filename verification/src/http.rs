//! The decision half of serving one connection: routing a raw request
//! buffer and assembling the response bytes.
//!
//! The surrounding I/O — accepting a connection, reading the request,
//! loading a page from disk, pausing before answering, writing the
//! response back — is a collaborator's job; what stands here is everything
//! that can be decided from plain bytes: which of the two known request
//! lines the buffer starts with, which page and status answer it, and the
//! exact bytes of the response envelope around a page body.

use vstd::prelude::*;

verus! {

/// The bytes of the request line `GET / HTTP/1.1\r\n`.
pub open spec fn root_request_line() -> Seq<u8> {
    seq![71u8, 69u8, 84u8, 32u8, 47u8, 32u8, 72u8, 84u8, 84u8, 80u8, 47u8, 49u8, 46u8, 49u8, 13u8, 10u8]
}

/// The bytes of the request line `GET /sleep HTTP/1.1\r\n`.
pub open spec fn sleep_request_line() -> Seq<u8> {
    seq![71u8, 69u8, 84u8, 32u8, 47u8, 115u8, 108u8, 101u8, 101u8, 112u8, 32u8, 72u8, 84u8, 84u8,
        80u8, 47u8, 49u8, 46u8, 49u8, 13u8, 10u8]
}

/// The bytes of the status line `HTTP/1.1 200 OK\r\n`.
pub open spec fn ok_status_line() -> Seq<u8> {
    seq![72u8, 84u8, 84u8, 80u8, 47u8, 49u8, 46u8, 49u8, 32u8, 50u8, 48u8, 48u8, 32u8, 79u8, 75u8, 13u8, 10u8]
}

/// The bytes of the status line `HTTP/1.1 404 NOT FOUND\r\n`.
pub open spec fn not_found_status_line() -> Seq<u8> {
    seq![72u8, 84u8, 84u8, 80u8, 47u8, 49u8, 46u8, 49u8, 32u8, 52u8, 48u8, 52u8, 32u8, 78u8, 79u8,
        84u8, 32u8, 70u8, 79u8, 85u8, 78u8, 68u8, 13u8, 10u8]
}

/// The bytes of the header name `Content-Length: `.
pub open spec fn content_length_prefix() -> Seq<u8> {
    seq![67u8, 111u8, 110u8, 116u8, 101u8, 110u8, 116u8, 45u8, 76u8, 101u8, 110u8, 103u8, 116u8,
        104u8, 58u8, 32u8]
}

/// Whether `prefix` is an initial segment of `data`.
pub open spec fn is_prefix_of(prefix: Seq<u8>, data: Seq<u8>) -> bool {
    prefix.len() <= data.len() && data.subrange(0, prefix.len() as int) == prefix
}

/// How a request buffer is answered: the page for the root path, the same
/// page after a pause for the sleep path, or the not-found page for
/// anything else.
#[derive(PartialEq, Eq, Structural, Clone, Copy, Debug)]
pub enum Route {
    /// The buffer starts with `GET / HTTP/1.1\r\n`.
    Root,
    /// The buffer starts with `GET /sleep HTTP/1.1\r\n`; the collaborator
    /// pauses before serving the same page as for the root.
    Sleep,
    /// Any other buffer; answered with the not-found page and status.
    Other,
}

/// The route a request buffer takes: the root route wins when its line is
/// a prefix, then the sleep route, then the catch-all.
pub open spec fn spec_route(request: Seq<u8>) -> Route {
    if is_prefix_of(root_request_line(), request) {
        Route::Root
    } else if is_prefix_of(sleep_request_line(), request) {
        Route::Sleep
    } else {
        Route::Other
    }
}

/// Decides whether `data` starts with `prefix`.
fn starts_with(data: &[u8], prefix: &Vec<u8>) -> (matches: bool)
    ensures
        matches == is_prefix_of(prefix@, data@),
{
    if prefix.len() > data.len() {
        return false;
    }
    let mut i: usize = 0;
    while i < prefix.len()
        invariant
            i <= prefix@.len() <= data@.len(),
            forall|k: int| 0 <= k < i ==> data@[k] == prefix@[k],
        decreases prefix@.len() - i,
    {
        if data[i] != prefix[i] {
            assert(data@.subrange(0, prefix@.len() as int)[i as int] != prefix@[i as int]);
            return false;
        }
        i = i + 1;
    }
    proof {
        assert(data@.subrange(0, prefix@.len() as int) =~= prefix@);
    }
    true
}

/// The exact bytes of `GET / HTTP/1.1\r\n`, for matching against a buffer.
fn root_request_line_vec() -> (line: Vec<u8>)
    ensures
        line@ == root_request_line(),
{
    let line: Vec<u8> = vec![71u8, 69u8, 84u8, 32u8, 47u8, 32u8, 72u8, 84u8, 84u8, 80u8, 47u8,
        49u8, 46u8, 49u8, 13u8, 10u8];
    proof {
        assert(line@ =~= root_request_line());
    }
    line
}

/// The exact bytes of `GET /sleep HTTP/1.1\r\n`, for matching against a
/// buffer.
fn sleep_request_line_vec() -> (line: Vec<u8>)
    ensures
        line@ == sleep_request_line(),
{
    let line: Vec<u8> = vec![71u8, 69u8, 84u8, 32u8, 47u8, 115u8, 108u8, 101u8, 101u8, 112u8,
        32u8, 72u8, 84u8, 84u8, 80u8, 47u8, 49u8, 46u8, 49u8, 13u8, 10u8];
    proof {
        assert(line@ =~= sleep_request_line());
    }
    line
}

/// Routes a raw request buffer: the root page for `GET / HTTP/1.1\r\n`,
/// the sleep route for `GET /sleep HTTP/1.1\r\n`, the not-found answer for
/// everything else.
pub fn route(request: &[u8]) -> (chosen: Route)
    ensures
        chosen == spec_route(request@),
{
    let root_line = root_request_line_vec();
    if starts_with(request, &root_line) {
        Route::Root
    } else {
        let sleep_line = sleep_request_line_vec();
        if starts_with(request, &sleep_line) {
            Route::Sleep
        } else {
            Route::Other
        }
    }
}

/// The name of the page file served for a route: the greeting page for the
/// root and sleep routes, the not-found page otherwise.
pub fn filename_for(chosen: Route) -> (name: &'static str)
    ensures
        chosen is Other ==> name@ == "404.html"@,
        !(chosen is Other) ==> name@ == "hello.html"@,
{
    match chosen {
        Route::Root => "hello.html",
        Route::Sleep => "hello.html",
        Route::Other => "404.html",
    }
}

/// The decimal digits of `n`, most significant first, with no leading
/// zeros (a single `0` digit for zero).
pub open spec fn decimal_digits(n: nat) -> Seq<u8>
    decreases n,
{
    if n < 10 {
        seq![(48 + n) as u8]
    } else {
        decimal_digits(n / 10).push((48 + n % 10) as u8)
    }
}

/// Appends the decimal digits of `n` to `out`.
fn push_decimal(n: usize, out: &mut Vec<u8>)
    ensures
        final(out)@ == old(out)@ + decimal_digits(n as nat),
    decreases n,
{
    if n < 10 {
        out.push(48 + (n as u8));
        proof {
            assert(out@ =~= old(out)@ + decimal_digits(n as nat));
        }
    } else {
        push_decimal(n / 10, out);
        out.push(48 + ((n % 10) as u8));
        proof {
            assert(out@ =~= old(out)@ + decimal_digits(n as nat));
        }
    }
}

/// The full response for a body of `len` bytes carried under `status`
/// bytes: the status line, a content-length header naming `len` in
/// decimal, a blank line, then the body itself.
pub open spec fn spec_response(status: Seq<u8>, body: Seq<u8>) -> Seq<u8> {
    status + content_length_prefix() + decimal_digits(body.len()) + seq![13u8, 10u8, 13u8, 10u8]
        + body
}

/// Assembles the response bytes for one page body: the given status line,
/// then `Content-Length: <n>` over a blank line, then the body.
pub fn build_response(status: &Vec<u8>, body: &[u8]) -> (response: Vec<u8>)
    ensures
        response@ == spec_response(status@, body@),
{
    let mut response: Vec<u8> = Vec::new();
    let mut k: usize = 0;
    while k < status.len()
        invariant
            k <= status@.len(),
            response@ == status@.subrange(0, k as int),
        decreases status@.len() - k,
    {
        let b = status[k];
        response.push(b);
        proof {
            assert(response@ =~= status@.subrange(0, k + 1 as int));
        }
        k = k + 1;
    }
    proof {
        assert(status@.subrange(0, status@.len() as int) =~= status@);
    }
    let header: Vec<u8> = vec![67u8, 111u8, 110u8, 116u8, 101u8, 110u8, 116u8, 45u8, 76u8, 101u8,
        110u8, 103u8, 116u8, 104u8, 58u8, 32u8];
    proof {
        assert(header@ =~= content_length_prefix());
    }
    let mut j: usize = 0;
    while j < header.len()
        invariant
            j <= header@.len(),
            header@ == content_length_prefix(),
            response@ == status@ + header@.subrange(0, j as int),
        decreases header@.len() - j,
    {
        let b = header[j];
        response.push(b);
        proof {
            assert(response@ =~= status@ + header@.subrange(0, j + 1 as int));
        }
        j = j + 1;
    }
    proof {
        assert(header@.subrange(0, header@.len() as int) =~= header@);
    }
    push_decimal(body.len(), &mut response);
    response.push(13u8);
    response.push(10u8);
    response.push(13u8);
    response.push(10u8);
    let mut t: usize = 0;
    while t < body.len()
        invariant
            t <= body@.len(),
            response@ == status@ + content_length_prefix() + decimal_digits(body@.len())
                + seq![13u8, 10u8, 13u8, 10u8] + body@.subrange(0, t as int),
        decreases body@.len() - t,
    {
        let b = body[t];
        response.push(b);
        proof {
            assert(response@ =~= status@ + content_length_prefix() + decimal_digits(body@.len())
                + seq![13u8, 10u8, 13u8, 10u8] + body@.subrange(0, t + 1 as int));
        }
        t = t + 1;
    }
    proof {
        assert(body@.subrange(0, body@.len() as int) =~= body@);
        assert(response@ =~= spec_response(status@, body@));
    }
    response
}

/// The exact bytes of the status line `HTTP/1.1 200 OK\r\n`.
pub fn ok_status_line_vec() -> (line: Vec<u8>)
    ensures
        line@ == ok_status_line(),
{
    let line: Vec<u8> = vec![72u8, 84u8, 84u8, 80u8, 47u8, 49u8, 46u8, 49u8, 32u8, 50u8, 48u8,
        48u8, 32u8, 79u8, 75u8, 13u8, 10u8];
    proof {
        assert(line@ =~= ok_status_line());
    }
    line
}

/// The exact bytes of the status line `HTTP/1.1 404 NOT FOUND\r\n`.
pub fn not_found_status_line_vec() -> (line: Vec<u8>)
    ensures
        line@ == not_found_status_line(),
{
    let line: Vec<u8> = vec![72u8, 84u8, 84u8, 80u8, 47u8, 49u8, 46u8, 49u8, 32u8, 52u8, 48u8,
        52u8, 32u8, 78u8, 79u8, 84u8, 32u8, 70u8, 79u8, 85u8, 78u8, 68u8, 13u8, 10u8];
    proof {
        assert(line@ =~= not_found_status_line());
    }
    line
}

/// The status line answering a route: not-found bytes for the catch-all
/// route, the success bytes for the two known request lines.
pub fn status_line_for(chosen: Route) -> (line: Vec<u8>)
    ensures
        chosen is Other ==> line@ == not_found_status_line(),
        !(chosen is Other) ==> line@ == ok_status_line(),
{
    match chosen {
        Route::Root => ok_status_line_vec(),
        Route::Sleep => ok_status_line_vec(),
        Route::Other => not_found_status_line_vec(),
    }
}

} // verus!
