use vstd::prelude::*;
use crate::rpc::RpcResponse;

verus! {

/// Base units in one whole unit.
pub const BASE_UNITS_PER_WHOLE: u64 = 1_000_000_000;

/// The balance of one address, in base units.
#[derive(Debug, Clone, PartialEq, Eq)]
pub struct WalletBalance {
    pub address: String,
    pub base_units: u64,
}

impl WalletBalance {
    /// The whole units of the balance: the base units divided by the scale
    /// factor, rounded down.
    pub fn whole_units(&self) -> (r: u64)
        ensures
            r == self.base_units / BASE_UNITS_PER_WHOLE,
    {
        self.base_units / BASE_UNITS_PER_WHOLE
    }

    /// The base units left over after the whole units.
    pub fn fractional_base_units(&self) -> (r: u64)
        ensures
            r == self.base_units % BASE_UNITS_PER_WHOLE,
            r < BASE_UNITS_PER_WHOLE,
    {
        self.base_units % BASE_UNITS_PER_WHOLE
    }
}

/// A balance in base units is its whole units times the scale factor plus a
/// remainder below the scale factor, with no loss in either part.
pub proof fn lemma_base_units_split(base_units: u64)
    ensures
        (base_units / BASE_UNITS_PER_WHOLE) * BASE_UNITS_PER_WHOLE + base_units
            % BASE_UNITS_PER_WHOLE == base_units,
        base_units % BASE_UNITS_PER_WHOLE < BASE_UNITS_PER_WHOLE,
        base_units < BASE_UNITS_PER_WHOLE ==> base_units / BASE_UNITS_PER_WHOLE == 0,
{
}

/// Why the balance of one address could not be had.
#[derive(Debug, Clone, PartialEq, Eq)]
pub enum FetchError {
    /// The request could not be sent, or its reply could not be read.
    Transport { address: String, cause: String },
    /// The remote side answered with a JSON-RPC error.
    RpcRejected { address: String, code: i64, message: String },
    /// The reply carried neither a result nor an error.
    EmptyResult { address: String },
}

impl FetchError {
    pub open spec fn spec_address(&self) -> String {
        match self {
            FetchError::Transport { address, .. } => *address,
            FetchError::RpcRejected { address, .. } => *address,
            FetchError::EmptyResult { address } => *address,
        }
    }

    /// The address whose fetch failed.
    pub fn address(&self) -> (r: &String)
        ensures
            *r == self.spec_address(),
    {
        match self {
            FetchError::Transport { address, .. } => address,
            FetchError::RpcRejected { address, .. } => address,
            FetchError::EmptyResult { address } => address,
        }
    }
}

/// Turns the reply to a balance request for `address` into a balance or an
/// error. `reply` is the decoded reply, or the cause of a transport failure.
/// A reply that carries an error is rejected even when it also carries a
/// result.
pub fn interpret_reply(address: &String, reply: Result<RpcResponse, String>) -> (r: Result<
    WalletBalance,
    FetchError,
>)
    ensures
        match reply {
            Err(cause) => r == Err::<WalletBalance, FetchError>(
                FetchError::Transport { address: *address, cause },
            ),
            Ok(resp) => match resp.error {
                Some(e) => r == Err::<WalletBalance, FetchError>(
                    FetchError::RpcRejected { address: *address, code: e.code, message: e.message },
                ),
                None => match resp.result {
                    Some(b) => r == Ok::<WalletBalance, FetchError>(
                        WalletBalance { address: *address, base_units: b.value },
                    ),
                    None => r == Err::<WalletBalance, FetchError>(
                        FetchError::EmptyResult { address: *address },
                    ),
                },
            },
        },
{
    match reply {
        Err(cause) => Err(FetchError::Transport { address: address.clone(), cause }),
        Ok(resp) => match resp.error {
            Some(e) => Err(
                FetchError::RpcRejected { address: address.clone(), code: e.code, message: e.message },
            ),
            None => match resp.result {
                Some(b) => Ok(WalletBalance { address: address.clone(), base_units: b.value }),
                None => Err(FetchError::EmptyResult { address: address.clone() }),
            },
        },
    }
}

} // verus!
