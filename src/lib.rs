//! Wallet balance queries over JSON-RPC: configuration checks, request
//! envelopes, reply interpretation and the aggregation of a batch of
//! per-address fetches into a report kept in input order.

pub mod batch;
pub mod config;
pub mod fetch;
pub mod rpc;

pub use batch::{aggregate, plan_fetches, FetchOutcome, FetchRequest, Report};
pub use config::{Config, ConfigError, ConfigField, ParseCause};
pub use fetch::{interpret_reply, FetchError, WalletBalance, BASE_UNITS_PER_WHOLE};
pub use rpc::{request_body, request_with_quoted, BalanceResult, RpcError, RpcResponse};
