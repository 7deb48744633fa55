//! Counters and gauges that the indexer reports about its progress.
use vstd::prelude::*;

verus! {

/// The indexer's progress figures. Counters wrap around on overflow, as atomic
/// additions do.
#[derive(Debug, PartialEq, Eq)]
pub struct IndexerMetrics {
    pub last_processed_ledger: i64,
    pub last_network_ledger: i64,
    pub total_events_processed: u64,
    pub total_errors: u64,
    pub total_rpc_retries: u64,
    pub last_loop_duration_ms: u64,
    pub last_rpc_latency_ms: u64,
    pub last_batch_events_processed: u64,
    pub last_batch_rate_per_second: u64,
}

impl Default for IndexerMetrics {
    /// Every figure starts at zero.
    fn default() -> (m: Self)
        ensures
            m.last_processed_ledger == 0,
            m.last_network_ledger == 0,
            m.total_events_processed == 0,
            m.total_errors == 0,
            m.total_rpc_retries == 0,
            m.last_loop_duration_ms == 0,
            m.last_rpc_latency_ms == 0,
            m.last_batch_events_processed == 0,
            m.last_batch_rate_per_second == 0,
    {
        IndexerMetrics {
            last_processed_ledger: 0,
            last_network_ledger: 0,
            total_events_processed: 0,
            total_errors: 0,
            total_rpc_retries: 0,
            last_loop_duration_ms: 0,
            last_rpc_latency_ms: 0,
            last_batch_events_processed: 0,
            last_batch_rate_per_second: 0,
        }
    }
}

impl IndexerMetrics {
    /// Counts one more RPC retry (wrapping around at `u64::MAX`); nothing else changes.
    pub fn record_rpc_retry(&mut self)
        ensures
            final(self).total_rpc_retries == (if old(self).total_rpc_retries == u64::MAX {
                0
            } else {
                old(self).total_rpc_retries + 1
            }),
            final(self).last_processed_ledger == old(self).last_processed_ledger,
            final(self).last_network_ledger == old(self).last_network_ledger,
            final(self).total_events_processed == old(self).total_events_processed,
            final(self).total_errors == old(self).total_errors,
            final(self).last_loop_duration_ms == old(self).last_loop_duration_ms,
            final(self).last_rpc_latency_ms == old(self).last_rpc_latency_ms,
            final(self).last_batch_events_processed == old(self).last_batch_events_processed,
            final(self).last_batch_rate_per_second == old(self).last_batch_rate_per_second,
    {
        self.total_rpc_retries = if self.total_rpc_retries == u64::MAX {
            0
        } else {
            self.total_rpc_retries + 1
        };
    }
}

} // verus!
