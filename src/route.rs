//! Classifying the first bytes of a request against the literal request
//! lines that the server answers.

use vstd::prelude::*;
use vstd::utf8::encode_utf8;

verus! {

/// `p` is a prefix of `s`.
pub open spec fn is_prefix(p: Seq<u8>, s: Seq<u8>) -> bool {
    p.len() <= s.len() && s.subrange(0, p.len() as int) == p
}

/// The request line for the root page: `GET / HTTP/1.1\r\n`.
pub open spec fn root_request_spec() -> Seq<u8> {
    encode_utf8("GET / HTTP/1.1\r\n"@)
}

/// The request line for the delayed page: `GET /sleep HTTP/1.1\r\n`.
pub open spec fn sleep_request_spec() -> Seq<u8> {
    encode_utf8("GET /sleep HTTP/1.1\r\n"@)
}

/// How a request is answered.
#[derive(Clone, Copy, Debug, PartialEq, Eq, Structural)]
pub enum Route {
    /// The root page, served at once.
    Root,
    /// The root page, served after a delay.
    Sleep,
    /// Anything else: the not-found page.
    NotFound,
}

/// The route that a request buffer selects.
pub open spec fn route_of(buf: Seq<u8>) -> Route {
    if is_prefix(root_request_spec(), buf) {
        Route::Root
    } else if is_prefix(sleep_request_spec(), buf) {
        Route::Sleep
    } else {
        Route::NotFound
    }
}

/// The delay, in milliseconds, before the delayed page is served.
pub const SLEEP_MILLIS: u64 = 500;

/// The most bytes of a request that are read and classified.
pub const REQUEST_CAPACITY: usize = 1024;

pub open spec fn status_line_spec(r: Route) -> Seq<char> {
    match r {
        Route::Root | Route::Sleep => "HTTP/1.1 200 OK\r\n\r\n"@,
        Route::NotFound => "HTTP/1.1 404 NOT FOUND\r\n\r\n"@,
    }
}

pub open spec fn filename_spec(r: Route) -> Seq<char> {
    match r {
        Route::Root | Route::Sleep => "hello.html"@,
        Route::NotFound => "404.html"@,
    }
}

pub open spec fn delay_spec(r: Route) -> u64 {
    match r {
        Route::Sleep => SLEEP_MILLIS,
        _ => 0,
    }
}

/// The request line for the root page, as bytes.
pub fn root_request_line() -> (r: &'static [u8])
    ensures
        r@ == root_request_spec(),
{
    "GET / HTTP/1.1\r\n".as_bytes()
}

/// The request line for the delayed page, as bytes.
pub fn sleep_request_line() -> (r: &'static [u8])
    ensures
        r@ == sleep_request_spec(),
{
    "GET /sleep HTTP/1.1\r\n".as_bytes()
}

/// Whether `buf` begins with `prefix`.
pub fn starts_with(buf: &[u8], prefix: &[u8]) -> (r: bool)
    ensures
        r == is_prefix(prefix@, buf@),
{
    if prefix.len() > buf.len() {
        return false;
    }
    let mut i: usize = 0;
    while i < prefix.len()
        invariant
            prefix@.len() <= buf@.len(),
            i <= prefix@.len(),
            forall|j: int| 0 <= j < i ==> buf@[j] == prefix@[j],
        decreases prefix@.len() - i,
    {
        if buf[i] != prefix[i] {
            assert(buf@.subrange(0, prefix@.len() as int)[i as int] != prefix@[i as int]);
            return false;
        }
        i = i + 1;
    }
    assert(buf@.subrange(0, prefix@.len() as int) =~= prefix@);
    true
}

/// Classifies a request buffer: the root request line first, then the
/// delayed one, and anything else is not found.
pub fn classify(buf: &[u8]) -> (r: Route)
    ensures
        r == route_of(buf@),
{
    let root = root_request_line();
    if starts_with(buf, root) {
        return Route::Root;
    }
    let sleep = sleep_request_line();
    if starts_with(buf, sleep) {
        Route::Sleep
    } else {
        Route::NotFound
    }
}

impl Route {
    /// The status line that opens the response.
    pub fn status_line(&self) -> (r: &'static str)
        ensures
            r@ == status_line_spec(*self),
    {
        match self {
            Route::Root | Route::Sleep => "HTTP/1.1 200 OK\r\n\r\n",
            Route::NotFound => "HTTP/1.1 404 NOT FOUND\r\n\r\n",
        }
    }

    /// The file whose contents form the response body.
    pub fn filename(&self) -> (r: &'static str)
        ensures
            r@ == filename_spec(*self),
    {
        match self {
            Route::Root | Route::Sleep => "hello.html",
            Route::NotFound => "404.html",
        }
    }

    /// How long to wait before the file is read, in milliseconds.
    pub fn delay_millis(&self) -> (r: u64)
        ensures
            r == delay_spec(*self),
    {
        match self {
            Route::Sleep => SLEEP_MILLIS,
            _ => 0,
        }
    }
}

} // verus!
