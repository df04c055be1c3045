use vstd::prelude::*;

verus! {

/// What serde_json writes for a string value: the characters between double
/// quotes, with JSON escapes applied.
pub uninterp spec fn json_string_of(s: Seq<char>) -> Seq<char>;

/// Relies on `serde_json::to_string` on a `str`: it returns the JSON string
/// literal that encodes `s`, and never fails, as it only writes into a `Vec`.
#[verifier::external_body]
fn json_quote(s: &str) -> (r: Option<String>)
    ensures
        r is Some,
        r matches Some(t) ==> t@ == json_string_of(s@),
{
    match serde_json::to_string(s) {
        Ok(t) => Some(t),
        Err(_) => None,
    }
}

/// The JSON-RPC 2.0 `getBalance` request whose single positional parameter is
/// the already encoded JSON string `quoted`; the request id is always 1.
pub open spec fn request_envelope(quoted: Seq<char>) -> Seq<char> {
    "{\"jsonrpc\":\"2.0\",\"id\":1,\"method\":\"getBalance\",\"params\":["@ + quoted + "]}"@
}

/// Wraps an encoded JSON string into the `getBalance` request envelope.
pub fn request_with_quoted(quoted: &str) -> (r: String)
    ensures
        r@ == request_envelope(quoted@),
{
    let mut body = String::from_str("{\"jsonrpc\":\"2.0\",\"id\":1,\"method\":\"getBalance\",\"params\":[");
    body.append(quoted);
    body.append("]}");
    body
}

/// The request body that asks for the balance of `address`.
pub fn request_body(address: &str) -> (r: String)
    ensures
        r@ == request_envelope(json_string_of(address@)),
{
    let quoted = json_quote(address).unwrap();
    request_with_quoted(quoted.as_str())
}

/// The `result` member of a successful `getBalance` reply.
#[derive(Debug, Clone, PartialEq, Eq)]
pub struct BalanceResult {
    /// The balance in base units.
    pub value: u64,
    /// The slot at which the balance was read.
    pub slot: u64,
}

/// The `error` member of a rejected request.
#[derive(Debug, Clone, PartialEq, Eq)]
pub struct RpcError {
    pub code: i64,
    pub message: String,
}

/// A JSON-RPC reply. A well-formed reply carries exactly one of `result` and
/// `error`; that is checked when the reply is interpreted, not assumed.
#[derive(Debug, Clone, PartialEq, Eq)]
pub struct RpcResponse {
    pub jsonrpc: String,
    pub id: u64,
    pub result: Option<BalanceResult>,
    pub error: Option<RpcError>,
}

} // verus!
