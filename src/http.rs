//! The decisions of the small static web server that submits one job per
//! connection: which page a request line asks for, and the bytes of the
//! response that carries it.
use vstd::prelude::*;

use crate::text::{decimal, decimal_of, same_text};

verus! {

/// The pages the server knows.
#[derive(Debug, Clone, Copy, PartialEq, Eq, Structural)]
pub enum Route {
    /// The greeting page, for exactly `GET / HTTP/1.1`.
    Hello,
    /// Anything else.
    NotFound,
}

/// The request line that selects the greeting page.
pub open spec fn hello_request() -> Seq<char> {
    "GET / HTTP/1.1"@
}

/// Picks the page for the first line of a request.
pub fn route(request_line: &str) -> (r: Route)
    ensures
        r == (if request_line@ == hello_request() {
            Route::Hello
        } else {
            Route::NotFound
        }),
{
    if same_text(request_line, "GET / HTTP/1.1") {
        Route::Hello
    } else {
        Route::NotFound
    }
}

impl Route {
    pub open spec fn spec_status_line(self) -> Seq<char> {
        match self {
            Route::Hello => "HTTP/1.1 200 OK"@,
            Route::NotFound => "HTTP/1.1 404 NOT FOUND"@,
        }
    }

    pub open spec fn spec_file_name(self) -> Seq<char> {
        match self {
            Route::Hello => "hello.html"@,
            Route::NotFound => "404.html"@,
        }
    }

    /// The status line of the response.
    pub fn status_line(&self) -> (s: &'static str)
        ensures
            s@ == self.spec_status_line(),
    {
        match self {
            Route::Hello => "HTTP/1.1 200 OK",
            Route::NotFound => "HTTP/1.1 404 NOT FOUND",
        }
    }

    /// The file that holds the page.
    pub fn file_name(&self) -> (s: &'static str)
        ensures
            s@ == self.spec_file_name(),
    {
        match self {
            Route::Hello => "hello.html",
            Route::NotFound => "404.html",
        }
    }

    /// How long the server lingers before answering, in seconds: the
    /// greeting page stands for slow work.
    pub fn delay_secs(&self) -> (d: u64)
        ensures
            d == (if *self == Route::Hello {
                3u64
            } else {
                0u64
            }),
    {
        match self {
            Route::Hello => 3,
            Route::NotFound => 0,
        }
    }
}

/// The full text of a response: the status line, a `Content-Length` header
/// giving the body's length in bytes, a blank line, then the body.
pub open spec fn response_of(status_line: Seq<char>, length: nat, body: Seq<char>) -> Seq<char> {
    status_line + "\r\nContent-Length: "@ + decimal_of(length) + "\r\n\r\n"@ + body
}

/// Formats a response that carries `body`.
pub fn response(status_line: &str, body: &str) -> (r: String)
    ensures
        r@ == response_of(status_line@, body.len() as nat, body@),
{
    let mut r = String::from_str(status_line);
    r.append("\r\nContent-Length: ");
    let length = decimal(body.len() as u64);
    r.append(length.as_str());
    r.append("\r\n\r\n");
    r.append(body);
    assert(r@ =~= response_of(status_line@, body.len() as nat, body@));
    r
}

} // verus!
