//! What a tiny web server answers: which page a request gets, and the bytes
//! of the reply. Reading the request and the page and writing the reply are
//! left to the caller.

use vstd::prelude::*;
use vstd::string::StringExecFns;
use vstd::string::StringSliceAdditionalSpecFns;

verus! {

/// How a request is answered.
#[derive(Clone, Copy, Debug, PartialEq, Eq, Structural)]
pub enum Route {
    /// The greeting page, at once.
    Hello,
    /// The greeting page, after a pause.
    Sleep,
    /// The error page.
    BadRequest,
}

/// The request line that asks for the root page.
pub open spec fn get_root() -> Seq<u8> {
    "GET / HTTP/1.1\r\n".spec_bytes()
}

/// The request line that asks for the slow page.
pub open spec fn get_sleep() -> Seq<u8> {
    "GET /sleep HTTP/1.1\r\n".spec_bytes()
}

/// The route of a request for a server that knows the slow page.
pub open spec fn route_of(request: Seq<u8>) -> Route {
    if get_root().is_prefix_of(request) {
        Route::Hello
    } else if get_sleep().is_prefix_of(request) {
        Route::Sleep
    } else {
        Route::BadRequest
    }
}

/// The route of a request for a server that knows the root page only.
pub open spec fn simple_route_of(request: Seq<u8>) -> Route {
    if get_root().is_prefix_of(request) {
        Route::Hello
    } else {
        Route::BadRequest
    }
}

/// The reply: status line, empty line, body.
pub open spec fn response_of(status: Seq<char>, body: Seq<char>) -> Seq<char> {
    "HTTP/1.1 "@ + status + "\r\n\r\n"@ + body
}

/// Whether `bytes` begins with `prefix`.
pub fn starts_with(bytes: &[u8], prefix: &[u8]) -> (yes: bool)
    ensures
        yes == prefix@.is_prefix_of(bytes@),
{
    if prefix.len() > bytes.len() {
        return false;
    }
    let mut i: usize = 0;
    while i < prefix.len()
        invariant
            i <= prefix@.len() <= bytes@.len(),
            forall|k: int| 0 <= k < i ==> bytes@[k] == prefix@[k],
        decreases prefix@.len() - i,
    {
        if bytes[i] != prefix[i] {
            return false;
        }
        i += 1;
    }
    assert(bytes@.subrange(0, prefix@.len() as int) =~= prefix@);
    true
}

/// Routes a request, given as the bytes read from the connection: the root
/// page, the slow page, or else the error page.
pub fn route(request: &[u8]) -> (r: Route)
    ensures
        r == route_of(request@),
{
    if starts_with(request, "GET / HTTP/1.1\r\n".as_bytes()) {
        Route::Hello
    } else if starts_with(request, "GET /sleep HTTP/1.1\r\n".as_bytes()) {
        Route::Sleep
    } else {
        Route::BadRequest
    }
}

/// Routes a request for a server without the slow page: the root page or
/// else the error page.
pub fn simple_route(request: &[u8]) -> (r: Route)
    ensures
        r == simple_route_of(request@),
{
    if starts_with(request, "GET / HTTP/1.1\r\n".as_bytes()) {
        Route::Hello
    } else {
        Route::BadRequest
    }
}

impl Route {
    /// The status that the reply announces.
    pub fn status(&self) -> (status: &'static str)
        ensures
            status@ == if *self == Route::BadRequest {
                "400 BAD REQUEST"@
            } else {
                "200 OK"@
            },
    {
        match self {
            Route::Hello => "200 OK",
            Route::Sleep => "200 OK",
            Route::BadRequest => "400 BAD REQUEST",
        }
    }

    /// The file that holds the body of the reply.
    pub fn filename(&self) -> (name: &'static str)
        ensures
            name@ == if *self == Route::BadRequest {
                "400.html"@
            } else {
                "hello.html"@
            },
    {
        match self {
            Route::Hello => "hello.html",
            Route::Sleep => "hello.html",
            Route::BadRequest => "400.html",
        }
    }

    /// For how many seconds the reply is held back.
    pub fn pause_seconds(&self) -> (seconds: u64)
        ensures
            seconds == if *self == Route::Sleep {
                5u64
            } else {
                0u64
            },
    {
        match self {
            Route::Sleep => 5,
            _ => 0,
        }
    }
}

/// Puts a reply together from its status and its body.
pub fn response(status: &str, body: &str) -> (reply: String)
    ensures
        reply@ == response_of(status@, body@),
{
    let mut reply = String::from_str("HTTP/1.1 ");
    reply.append(status);
    reply.append("\r\n\r\n");
    reply.append(body);
    reply
}

} // verus!
