//! Errors reported by the library, and the error payload the server sends.

use vstd::prelude::*;

verus! {

/// The category of a server-reported error.
#[derive(Debug, Clone, Copy, PartialEq, Eq, Structural)]
pub enum ApiErrorType {
    InvalidRequestError,
    RateLimitError,
    AuthenticationError,
    ServerError,
    Unknown,
}

/// An error the server reported about the session.
#[derive(Debug, Clone)]
pub struct ServerError {
    pub error_type: ApiErrorType,
    pub code: Option<String>,
    pub message: String,
    pub param: Option<String>,
    pub event_id: Option<String>,
}

/// Everything that can go wrong locally. Transport failures carry the
/// underlying failure's description.
#[derive(Debug, Clone)]
pub enum Error {
    WebSocket(String),
    Http(String),
    Serialization(String),
    Url(String),
    Header(String),
    Io(String),
    Api(ServerError),
    ConnectionClosed,
    Reunite(String),
    Mime(String),
    InvalidClientEvent(String),
    NotImplemented(String),
}

pub type Result<T> = core::result::Result<T, Error>;


/// `r` is success when `msg` is `None`, and otherwise a local validation
/// failure whose message is exactly `msg`.
pub open spec fn fails_with<T>(r: core::result::Result<T, Error>, msg: Option<Seq<char>>) -> bool {
    match msg {
        None => r is Ok,
        Some(m) => r matches Err(Error::InvalidClientEvent(e)) && e@ == m,
    }
}

/// The text of one decimal digit.
pub open spec fn digit_text(d: nat) -> Seq<char> {
    if d == 0 {
        "0"@
    } else if d == 1 {
        "1"@
    } else if d == 2 {
        "2"@
    } else if d == 3 {
        "3"@
    } else if d == 4 {
        "4"@
    } else if d == 5 {
        "5"@
    } else if d == 6 {
        "6"@
    } else if d == 7 {
        "7"@
    } else if d == 8 {
        "8"@
    } else {
        "9"@
    }
}

/// The decimal text of `n`, without leading zeros.
pub open spec fn decimal(n: nat) -> Seq<char>
    decreases n,
{
    if n < 10 {
        digit_text(n)
    } else {
        decimal(n / 10) + digit_text(n % 10)
    }
}

fn digit_str(d: usize) -> (r: &'static str)
    requires
        d < 10,
    ensures
        r@ == digit_text(d as nat),
{
    if d == 0 {
        "0"
    } else if d == 1 {
        "1"
    } else if d == 2 {
        "2"
    } else if d == 3 {
        "3"
    } else if d == 4 {
        "4"
    } else if d == 5 {
        "5"
    } else if d == 6 {
        "6"
    } else if d == 7 {
        "7"
    } else if d == 8 {
        "8"
    } else {
        "9"
    }
}

/// Appends the decimal text of `n`.
pub fn push_decimal(s: &mut String, n: usize)
    ensures
        final(s)@ == old(s)@ + decimal(n as nat),
    decreases n,
{
    if n >= 10 {
        push_decimal(s, n / 10);
    }
    s.append(digit_str(n % 10));
    proof {
        if n >= 10 {
            assert(old(s)@ + decimal(n as nat) =~= old(s)@ + decimal((n / 10) as nat) + digit_text((n % 10) as nat));
        }
    }
}

} // verus!
