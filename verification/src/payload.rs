//! Submission payload framing.
//!
//! Each provider takes a JSON body of a fixed shape around the encoded
//! transaction. The transaction is base64 text, which never needs JSON
//! escaping, so the body is framed here by plain concatenation and the
//! caller checks the base64 precondition with `is_base64_str`.
use vstd::prelude::*;

verus! {

/// Holds for the characters base64 text is made of.
pub open spec fn is_base64_char(c: char) -> bool {
    let u = c as u32;
    ||| ('A' as u32) <= u && u <= ('Z' as u32)
    ||| ('a' as u32) <= u && u <= ('z' as u32)
    ||| ('0' as u32) <= u && u <= ('9' as u32)
    ||| u == ('+' as u32)
    ||| u == ('/' as u32)
    ||| u == ('=' as u32)
}

/// Holds when every character of `s` belongs to the base64 alphabet.
pub open spec fn is_base64(s: Seq<char>) -> bool {
    forall|i: int| 0 <= i < s.len() ==> is_base64_char(s[i])
}

/// Decides `is_base64` for a string.
pub fn is_base64_str(s: &str) -> (r: bool)
    ensures
        r == is_base64(s@),
{
    let len = s.unicode_len();
    let mut k: usize = 0;
    while k < len
        invariant
            0 <= k <= s@.len(),
            len == s@.len(),
            forall|j: int| 0 <= j < k ==> is_base64_char(s@[j]),
        decreases len - k,
    {
        let c = s.get_char(k);
        let u = c as u32;
        let in_alphabet = (('A' as u32) <= u && u <= ('Z' as u32)) || (('a' as u32) <= u && u
            <= ('z' as u32)) || (('0' as u32) <= u && u <= ('9' as u32)) || u == ('+' as u32) || u
            == ('/' as u32) || u == ('=' as u32);
        if !in_alphabet {
            return false;
        }
        k = k + 1;
    }
    true
}

/// The first provider's submission body: a JSON-RPC `sendTransaction`
/// envelope with base64 encoding, preflight skipped and no relay retries.
pub open spec fn helius_submit_payload_spec(tx: Seq<char>) -> Seq<char> {
    "{\"jsonrpc\":\"2.0\",\"id\":1,\"method\":\"sendTransaction\",\"params\":[\""@ + tx
        + "\",{\"encoding\":\"base64\",\"skipPreflight\":true,\"maxRetries\":0}]}"@
}

/// Frames the first provider's submission body around `encoded_tx`.
pub fn helius_submit_payload(encoded_tx: &str) -> (r: String)
    requires
        is_base64(encoded_tx@),
    ensures
        r@ == helius_submit_payload_spec(encoded_tx@),
{
    let mut s = String::from_str(
        "{\"jsonrpc\":\"2.0\",\"id\":1,\"method\":\"sendTransaction\",\"params\":[\"",
    );
    s.append(encoded_tx);
    s.append("\",{\"encoding\":\"base64\",\"skipPreflight\":true,\"maxRetries\":0}]}");
    s
}

/// The second provider's submission body: the transaction content and the
/// front-running-protection flag.
pub open spec fn nextblock_submit_payload_spec(tx: Seq<char>, front_running_protection: bool) -> Seq<
    char,
> {
    "{\"transaction\":{\"content\":\""@ + tx + "\"},\"frontRunningProtection\":"@ + (
    if front_running_protection {
        "true"@
    } else {
        "false"@
    }) + "}"@
}

/// Frames the second provider's submission body around `encoded_tx`.
pub fn nextblock_submit_payload(encoded_tx: &str, front_running_protection: bool) -> (r: String)
    requires
        is_base64(encoded_tx@),
    ensures
        r@ == nextblock_submit_payload_spec(encoded_tx@, front_running_protection),
{
    let mut s = String::from_str("{\"transaction\":{\"content\":\"");
    s.append(encoded_tx);
    s.append("\"},\"frontRunningProtection\":");
    if front_running_protection {
        s.append("true");
    } else {
        s.append("false");
    }
    s.append("}");
    s
}

} // verus!
