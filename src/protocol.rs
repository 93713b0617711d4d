//! The bulb's wire messages: the fixed Get-State request, the Set-State
//! command, and the address that both are sent to.
use vstd::prelude::*;
use vstd::string::StringExecFns;

verus! {

/// UDP port on which the bulb listens for control datagrams.
pub const BULB_PORT: u16 = 38899;

/// Seconds to wait for the bulb's reply to a Get-State request.
pub const REPLY_TIMEOUT_SECS: u64 = 3;

/// Size of the buffer that receives the bulb's reply.
pub const REPLY_BUFFER_LEN: usize = 2048;

/// The Get-State request, sent as is.
pub open spec fn get_state_text() -> Seq<char> {
    "{\"method\":\"getPilot\"}"@
}

/// How a boolean is written in a JSON document.
pub open spec fn bool_text(b: bool) -> Seq<char> {
    if b {
        "true"@
    } else {
        "false"@
    }
}

/// The Set-State command that asks the bulb to be on (`true`) or off.
pub open spec fn set_state_text(on: bool) -> Seq<char> {
    "{\"method\":\"setState\",\"params\":{\"state\":"@ + bool_text(on) + "}}"@
}

/// The destination of both datagrams: the bulb's host and its fixed port.
pub open spec fn target_text(host: Seq<char>) -> Seq<char> {
    host + ":38899"@
}

/// Builds the Get-State request.
pub fn get_state_request() -> (r: String)
    ensures
        r@ == get_state_text(),
{
    String::from_str("{\"method\":\"getPilot\"}")
}

/// Builds the Set-State command for the state `on`.
pub fn set_state_request(on: bool) -> (r: String)
    ensures
        r@ == set_state_text(on),
{
    let mut r = String::from_str("{\"method\":\"setState\",\"params\":{\"state\":");
    if on {
        r.append("true");
    } else {
        r.append("false");
    }
    r.append("}}");
    r
}

/// The address `host:port` that the datagrams for the bulb at `host` go to.
pub fn bulb_target(host: &str) -> (r: String)
    ensures
        r@ == target_text(host@),
{
    let mut r = String::from_str(host);
    r.append(":38899");
    r
}

/// A Set-State command names the state it asks for: commands for different
/// states differ.
pub proof fn lemma_set_state_text_injective(a: bool, b: bool)
    ensures
        set_state_text(a) == set_state_text(b) <==> a == b,
{
    reveal_strlit("true");
    reveal_strlit("false");
    reveal_strlit("{\"method\":\"setState\",\"params\":{\"state\":");
    reveal_strlit("}}");
    if a != b {
        let p = "{\"method\":\"setState\",\"params\":{\"state\":"@;
        let i = p.len() as int;
        assert(set_state_text(a)[i] != set_state_text(b)[i]);
    }
}

} // verus!
