use vstd::prelude::*;

use crate::custodian::Address;
use crate::pipeline::{Stage, SwapPipeline};

verus! {

/// Metrics reported by the compression subsystem after compressing.
#[derive(Clone, Copy, Debug, PartialEq, Eq, Structural)]
pub struct CompressionMetrics {
    pub compression_ratio: u64,
    pub proof_size: u64,
}

/// Audit record of a completed exchange.
#[derive(Clone, Copy, Debug)]
pub struct SwapCompletedEvent {
    pub user: Address,
    pub from_token: Address,
    pub to_token: Address,
    pub amount_in: u64,
    pub amount_out: u64,
    pub compression_ratio: u64,
    pub proof_size: u64,
    pub timestamp: i64,
}

impl SwapCompletedEvent {
    /// The event for a request that reached the emit stage, with both
    /// amounts taken from the request; `None` for a request at any other
    /// stage.
    pub fn for_request(
        pipeline: &SwapPipeline,
        user: Address,
        from_token: Address,
        to_token: Address,
        metrics: CompressionMetrics,
        timestamp: i64,
    ) -> (r: Option<SwapCompletedEvent>)
        ensures
            r is Some <==> pipeline.stage is Compressed,
            r matches Some(e) ==> {
                &&& e.user == user
                &&& e.from_token == from_token
                &&& e.to_token == to_token
                &&& e.amount_in == pipeline.amount_in
                &&& e.amount_out == pipeline.amount_out
                &&& e.compression_ratio == metrics.compression_ratio
                &&& e.proof_size == metrics.proof_size
                &&& e.timestamp == timestamp
            },
    {
        match pipeline.stage {
            Stage::Compressed => Some(SwapCompletedEvent {
                user,
                from_token,
                to_token,
                amount_in: pipeline.amount_in,
                amount_out: pipeline.amount_out,
                compression_ratio: metrics.compression_ratio,
                proof_size: metrics.proof_size,
                timestamp,
            }),
            _ => None,
        }
    }
}

} // verus!
