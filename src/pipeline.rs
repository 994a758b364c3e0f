use vstd::prelude::*;

use crate::error::SwapError;
use crate::quote::{gated_quote_spec, quote_spec, quote_with_floor};

verus! {

/// Where an exchange stands. Decompression is followed at once by quoting
/// and the slippage check, so `Quoted` is the first stage after `Init`.
#[derive(Clone, Copy, Debug, PartialEq, Eq, Structural)]
pub enum Stage {
    Init,
    Quoted,
    Collected,
    Disbursed,
    Compressed,
    Completed,
    Aborted(SwapError),
}

/// The outside work that a stage asks for next.
#[derive(Clone, Copy, Debug, PartialEq, Eq, Structural)]
pub enum Action {
    /// Decompress this amount from the source record into its staging account.
    Decompress(u64),
    /// Transfer this amount from the source staging account into the pool,
    /// signed by the requester.
    TransferIn(u64),
    /// Transfer this amount from the pool into the destination staging
    /// account, under the derived custodian.
    TransferOut(u64),
    /// Compress this amount from the destination staging account.
    Compress(u64),
    /// Emit the completion event.
    Emit,
}

/// One exchange request moving through its stages.
#[derive(Clone, Copy, Debug, PartialEq, Eq, Structural)]
pub struct SwapPipeline {
    pub amount_in: u64,
    pub minimum_amount_out: u64,
    /// The quoted output; zero until the quote is taken.
    pub amount_out: u64,
    pub stage: Stage,
}

/// Whether no further stage can follow.
pub open spec fn is_terminal(s: Stage) -> bool {
    s is Completed || s is Aborted
}

/// Position of a live stage in the sequence.
pub open spec fn stage_rank(s: Stage) -> int {
    match s {
        Stage::Init => 0,
        Stage::Quoted => 1,
        Stage::Collected => 2,
        Stage::Disbursed => 3,
        Stage::Compressed => 4,
        Stage::Completed => 5,
        Stage::Aborted(_) => 6,
    }
}

/// A fresh request, not yet started.
pub open spec fn start_spec(amount_in: u64, minimum_amount_out: u64) -> SwapPipeline {
    SwapPipeline { amount_in, minimum_amount_out, amount_out: 0, stage: Stage::Init }
}

/// The outside work that the request asks for in its current stage.
pub open spec fn action_spec(p: SwapPipeline) -> Option<Action> {
    match p.stage {
        Stage::Init => Some(Action::Decompress(p.amount_in)),
        Stage::Quoted => Some(Action::TransferIn(p.amount_in)),
        Stage::Collected => Some(Action::TransferOut(p.amount_out)),
        Stage::Disbursed => Some(Action::Compress(p.amount_out)),
        Stage::Compressed => Some(Action::Emit),
        _ => None,
    }
}

/// The request after the outcome of its current action: a failure aborts
/// with that error, a success moves one stage on; a successful decompression
/// also takes the quote and applies the floor. A terminal request stays.
pub open spec fn advance_spec(p: SwapPipeline, outcome: Result<(), SwapError>) -> SwapPipeline {
    if is_terminal(p.stage) {
        p
    } else {
        match outcome {
            Err(e) => SwapPipeline { stage: Stage::Aborted(e), ..p },
            Ok(_) => match p.stage {
                Stage::Init => match gated_quote_spec(p.amount_in, p.minimum_amount_out) {
                    Err(e) => SwapPipeline { stage: Stage::Aborted(e), ..p },
                    Ok(out) => SwapPipeline { amount_out: out, stage: Stage::Quoted, ..p },
                },
                Stage::Quoted => SwapPipeline { stage: Stage::Collected, ..p },
                Stage::Collected => SwapPipeline { stage: Stage::Disbursed, ..p },
                Stage::Disbursed => SwapPipeline { stage: Stage::Compressed, ..p },
                _ => SwapPipeline { stage: Stage::Completed, ..p },
            },
        }
    }
}

impl SwapPipeline {
    /// A request for `amount_in` that refuses an output below
    /// `minimum_amount_out`.
    pub fn new(amount_in: u64, minimum_amount_out: u64) -> (r: SwapPipeline)
        ensures
            r == start_spec(amount_in, minimum_amount_out),
    {
        SwapPipeline { amount_in, minimum_amount_out, amount_out: 0, stage: Stage::Init }
    }

    /// The outside work to perform next, or `None` once the request is over.
    pub fn next_action(&self) -> (r: Option<Action>)
        ensures
            r == action_spec(*self),
    {
        match self.stage {
            Stage::Init => Some(Action::Decompress(self.amount_in)),
            Stage::Quoted => Some(Action::TransferIn(self.amount_in)),
            Stage::Collected => Some(Action::TransferOut(self.amount_out)),
            Stage::Disbursed => Some(Action::Compress(self.amount_out)),
            Stage::Compressed => Some(Action::Emit),
            _ => None,
        }
    }

    /// Records the outcome of the action that `next_action` asked for.
    pub fn advance(&mut self, outcome: Result<(), SwapError>)
        ensures
            *final(self) == advance_spec(*old(self), outcome),
    {
        match self.stage {
            Stage::Completed | Stage::Aborted(_) => {},
            Stage::Init => match outcome {
                Err(e) => self.stage = Stage::Aborted(e),
                Ok(_) => match quote_with_floor(self.amount_in, self.minimum_amount_out) {
                    Err(e) => self.stage = Stage::Aborted(e),
                    Ok(out) => {
                        self.amount_out = out;
                        self.stage = Stage::Quoted;
                    },
                },
            },
            Stage::Quoted => self.stage = next_or_abort(outcome, Stage::Collected),
            Stage::Collected => self.stage = next_or_abort(outcome, Stage::Disbursed),
            Stage::Disbursed => self.stage = next_or_abort(outcome, Stage::Compressed),
            Stage::Compressed => self.stage = next_or_abort(outcome, Stage::Completed),
        }
    }

    /// Whether the request is over, completed or aborted.
    pub fn is_finished(&self) -> (r: bool)
        ensures
            r == is_terminal(self.stage),
    {
        matches!(self.stage, Stage::Completed | Stage::Aborted(_))
    }

    /// Whether the request completed.
    pub fn is_completed(&self) -> (r: bool)
        ensures
            r == (self.stage is Completed),
    {
        matches!(self.stage, Stage::Completed)
    }

    /// The error that ended the request, if it was aborted.
    pub fn failure(&self) -> (r: Option<SwapError>)
        ensures
            r == (match self.stage {
                Stage::Aborted(e) => Some(e),
                _ => None::<SwapError>,
            }),
    {
        match self.stage {
            Stage::Aborted(e) => Some(e),
            _ => None,
        }
    }
}

/// `next` on success, an abort with the error otherwise.
fn next_or_abort(outcome: Result<(), SwapError>, next: Stage) -> (r: Stage)
    ensures
        r == (match outcome {
            Ok(_) => next,
            Err(e) => Stage::Aborted(e),
        }),
{
    match outcome {
        Ok(_) => next,
        Err(e) => Stage::Aborted(e),
    }
}

/// Each outcome either aborts the request or moves it exactly one stage on;
/// a terminal request never changes, and the request's amounts are kept.
pub proof fn lemma_one_stage_at_a_time(p: SwapPipeline, outcome: Result<(), SwapError>)
    ensures
        ({
            let q = advance_spec(p, outcome);
            &&& is_terminal(p.stage) ==> q == p
            &&& !is_terminal(p.stage) ==> (q.stage is Aborted || stage_rank(q.stage) == stage_rank(p.stage) + 1)
            &&& q.amount_in == p.amount_in
            &&& q.minimum_amount_out == p.minimum_amount_out
            &&& outcome is Err && !is_terminal(p.stage) ==> q.stage == Stage::Aborted(outcome->Err_0)
        }),
{
}

/// A request asks for outside work exactly while it is not terminal.
pub proof fn lemma_no_work_after_end(p: SwapPipeline)
    ensures
        action_spec(p) is None <==> is_terminal(p.stage),
{
}

/// Slippage gate: where the quote falls below the floor, the request aborts
/// with `SlippageExceeded` as soon as decompression succeeds, and no transfer
/// or compression is ever asked for.
pub proof fn lemma_slippage_aborts_before_transfer(amount_in: u64, minimum_amount_out: u64, outcome: Result<(), SwapError>)
    requires
        quote_spec(amount_in) matches Ok(q) && q < minimum_amount_out,
    ensures
        ({
            let p1 = advance_spec(start_spec(amount_in, minimum_amount_out), Ok(()));
            &&& p1.stage == Stage::Aborted(SwapError::SlippageExceeded)
            &&& action_spec(p1) is None
            &&& advance_spec(p1, outcome) == p1
        }),
{
}

/// A request whose quote clears the floor and whose every action succeeds
/// asks, in this order, to decompress the input, collect it, pay out the
/// quote, compress the quote and emit the event, and then completes.
pub proof fn lemma_completed_sequence(amount_in: u64, minimum_amount_out: u64)
    requires
        gated_quote_spec(amount_in, minimum_amount_out) is Ok,
    ensures
        ({
            let out = gated_quote_spec(amount_in, minimum_amount_out)->Ok_0;
            let p0 = start_spec(amount_in, minimum_amount_out);
            let p1 = advance_spec(p0, Ok(()));
            let p2 = advance_spec(p1, Ok(()));
            let p3 = advance_spec(p2, Ok(()));
            let p4 = advance_spec(p3, Ok(()));
            let p5 = advance_spec(p4, Ok(()));
            &&& action_spec(p0) == Some(Action::Decompress(amount_in))
            &&& action_spec(p1) == Some(Action::TransferIn(amount_in))
            &&& action_spec(p2) == Some(Action::TransferOut(out))
            &&& action_spec(p3) == Some(Action::Compress(out))
            &&& action_spec(p4) == Some(Action::Emit)
            &&& p5.stage == Stage::Completed
            &&& p5.amount_out == out
        }),
{
}

} // verus!
