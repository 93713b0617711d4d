//! Reading the bulb's power state out of its reply to a Get-State request.
use vstd::prelude::*;

verus! {

#[verifier::external_type_specification]
#[verifier::external_body]
pub struct ExJsonError(serde_json::Error);

/// Why a toggle exchange stopped before it was done.
#[derive(Debug, Clone, Copy, PartialEq, Eq, Structural)]
pub enum ExchangeError {
    /// The socket could not be opened or configured, or a datagram could not
    /// be sent or received.
    Network,
    /// No reply arrived within the receive timeout.
    Timeout,
    /// The reply is not a JSON document.
    Malformed,
    /// The reply is JSON but holds no boolean at `result.state`.
    MissingState,
}

/// What decoding `b` as a JSON document and looking up the boolean at
/// `outer.inner` gives: `None` where `b` is no JSON document, `Some(None)`
/// where that field is absent or not a boolean, `Some(Some(s))` otherwise.
pub uninterp spec fn json_bool_at(b: Seq<u8>, outer: Seq<char>, inner: Seq<char>) -> Option<
    Option<bool>,
>;

/// Relies on serde_json::from_slice (into a `serde_json::Value`), on indexing a
/// `Value` by key (a missing key or a non-object gives `Null`, never a panic)
/// and on `Value::as_bool` (`Some` only for a JSON boolean).
#[verifier::external_body]
fn decode_bool_at(b: &[u8], outer: &str, inner: &str) -> (r: Result<Option<bool>, serde_json::Error>)
    ensures
        match r {
            Ok(field) => json_bool_at(b@, outer@, inner@) == Some(field),
            Err(_) => json_bool_at(b@, outer@, inner@) is None,
        },
{
    match serde_json::from_slice::<serde_json::Value>(b) {
        Ok(v) => Ok(v[outer][inner].as_bool()),
        Err(e) => Err(e),
    }
}

/// The key of the reply's object that holds the bulb's report.
pub open spec fn report_key() -> Seq<char> {
    "result"@
}

/// The key, inside the report, of the boolean power state.
pub open spec fn state_key() -> Seq<char> {
    "state"@
}

/// What decoding the reply `b` gives for the power state, which the bulb
/// reports at `result.state`.
pub open spec fn reply_state_field(b: Seq<u8>) -> Option<Option<bool>> {
    json_bool_at(b, report_key(), state_key())
}

/// The power state that a decoded reply reports, or why it reports none.
pub open spec fn reading_spec(decoded: Option<Option<bool>>) -> Result<bool, ExchangeError> {
    match decoded {
        None => Err(ExchangeError::Malformed),
        Some(None) => Err(ExchangeError::MissingState),
        Some(Some(s)) => Ok(s),
    }
}

/// The power state reported by a reply whose decoding gave `decoded`
/// (see `reply_state_field`).
pub fn reading_of(decoded: Option<Option<bool>>) -> (r: Result<bool, ExchangeError>)
    ensures
        r == reading_spec(decoded),
{
    match decoded {
        None => Err(ExchangeError::Malformed),
        Some(None) => Err(ExchangeError::MissingState),
        Some(Some(s)) => Ok(s),
    }
}

/// The power state reported by the reply datagram `reply`.
pub fn read_reply(reply: &[u8]) -> (r: Result<bool, ExchangeError>)
    ensures
        r == reading_spec(reply_state_field(reply@)),
{
    let decoded = match decode_bool_at(reply, "result", "state") {
        Ok(field) => Some(field),
        Err(_) => None,
    };
    reading_of(decoded)
}

} // verus!
