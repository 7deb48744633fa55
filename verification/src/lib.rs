pub mod error;
pub mod indexer_metrics;
pub mod json;
pub mod routes;
pub mod rpc_call;
pub mod services;
pub mod soroban_rpc;
pub mod text;
