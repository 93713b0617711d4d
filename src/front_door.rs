//! The decisions of the HTTP endpoint: which requests trigger a toggle, and
//! what each request is answered with.
use vstd::prelude::*;
use crate::reply::ExchangeError;

verus! {

/// HTTP port the endpoint listens on, on all interfaces.
pub const HTTP_PORT: u16 = 42424;

/// Status of a request answered with the closing page.
pub const STATUS_OK: u16 = 200;

/// Status of a request whose path is not the toggle route.
pub const STATUS_NOT_FOUND: u16 = 404;

/// Status of a request whose toggle exchange failed.
pub const STATUS_BAD_GATEWAY: u16 = 502;

/// The path suffix of the toggle route.
pub open spec fn route_suffix() -> Seq<char> {
    "/bulb"@
}

/// Whether `s` ends with `suffix`.
pub open spec fn ends_with(s: Seq<char>, suffix: Seq<char>) -> bool {
    suffix.len() <= s.len() && s.subrange(s.len() - suffix.len(), s.len() as int) == suffix
}

/// The answer to an HTTP request.
#[derive(Debug, Clone, Copy, PartialEq, Eq, Structural)]
pub struct HttpReply {
    /// The status code.
    pub status: u16,
    /// Whether the body is the HTML page that closes the window (with
    /// `Content-Type: text/html`); otherwise the body is empty.
    pub with_page: bool,
}

/// What to do with an incoming request.
#[derive(Debug, Clone, Copy, PartialEq, Eq, Structural)]
pub enum Dispatch {
    /// Answer at once, with no traffic to the bulb.
    Answer(HttpReply),
    /// Run a toggle exchange, then answer as `reply_after` says.
    RunToggle,
}

/// What a request for `url` gets.
pub open spec fn dispatch_spec(url: Seq<char>) -> Dispatch {
    if ends_with(url, route_suffix()) {
        Dispatch::RunToggle
    } else {
        Dispatch::Answer(HttpReply { status: 404, with_page: false })
    }
}

/// The answer after a toggle exchange that ended with `outcome`.
pub open spec fn reply_after_spec(outcome: Result<bool, ExchangeError>) -> HttpReply {
    match outcome {
        Ok(_) => HttpReply { status: 200, with_page: true },
        Err(_) => HttpReply { status: 502, with_page: false },
    }
}

/// Whether `url` ends with the toggle route's suffix.
pub fn is_toggle_route(url: &str) -> (r: bool)
    ensures
        r == ends_with(url@, route_suffix()),
{
    let suffix = "/bulb";
    proof {
        reveal_strlit("/bulb");
    }
    let n = url.unicode_len();
    let k = suffix.unicode_len();
    if n < k {
        return false;
    }
    let start = n - k;
    let mut i: usize = 0;
    while i < k
        invariant
            suffix@ == route_suffix(),
            k == suffix@.len(),
            n == url@.len(),
            start == n - k,
            i <= k,
            forall|j: int| 0 <= j < i ==> url@[start + j] == suffix@[j],
        decreases k - i,
    {
        if url.get_char(start + i) != suffix.get_char(i) {
            assert(url@.subrange(start as int, n as int)[i as int] != suffix@[i as int]);
            return false;
        }
        i = i + 1;
    }
    assert(url@.subrange(start as int, n as int) =~= suffix@);
    true
}

/// Decides what a request for `url` gets: the toggle route runs an exchange,
/// any other path a 404 with an empty body.
pub fn dispatch(url: &str) -> (d: Dispatch)
    ensures
        d == dispatch_spec(url@),
{
    if is_toggle_route(url) {
        Dispatch::RunToggle
    } else {
        Dispatch::Answer(HttpReply { status: STATUS_NOT_FOUND, with_page: false })
    }
}

/// The answer after a toggle exchange: the closing page on success, a bad
/// gateway status with an empty body on failure.
pub fn reply_after(outcome: Result<bool, ExchangeError>) -> (r: HttpReply)
    ensures
        r == reply_after_spec(outcome),
{
    match outcome {
        Ok(_) => HttpReply { status: STATUS_OK, with_page: true },
        Err(_) => HttpReply { status: STATUS_BAD_GATEWAY, with_page: false },
    }
}

} // verus!
