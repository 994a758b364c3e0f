use vstd::prelude::*;

use crate::custodian::{custodian_label, custodian_label_spec, derives_spec};
use crate::error::SwapError;
use crate::ledger::{apply_spec, compress_spec, decompress_spec, transfer_in_spec, transfer_out_spec, Ledger};
use crate::pipeline::{action_spec, advance_spec, is_terminal, start_spec, Stage, SwapPipeline};
use crate::quote::{gated_quote_spec, quote_spec};

verus! {

/// The exchange as one unit: decompress, quote and check the floor, collect
/// the input into the pool, pay the output out under the custodian, compress
/// the output. The first failing stage decides the error; on success the
/// ledger after the last stage and the output amount.
pub open spec fn swap_spec(l: Ledger, amount_in: u64, minimum_amount_out: u64, label: Seq<u8>, bump: u8) -> Result<(Ledger, u64), SwapError> {
    match decompress_spec(l, amount_in) {
        Err(e) => Err(e),
        Ok(l1) => match gated_quote_spec(amount_in, minimum_amount_out) {
            Err(e) => Err(e),
            Ok(out) => match transfer_in_spec(l1, amount_in) {
                Err(e) => Err(e),
                Ok(l2) => match transfer_out_spec(l2, out, label, bump) {
                    Err(e) => Err(e),
                    Ok(l3) => match compress_spec(l3, out) {
                        Err(e) => Err(e),
                        Ok(l4) => Ok((l4, out)),
                    },
                },
            },
        },
    }
}

/// Protocol setup; nothing to bootstrap yet, so it always succeeds.
pub fn initialize() -> (r: Result<(), SwapError>)
    ensures
        r == Ok::<(), SwapError>(()),
{
    Ok(())
}

/// The request and the ledger after at most `steps` actions, each carried
/// out on the ledger and its outcome handed back to the request.
pub open spec fn run_spec(p: SwapPipeline, l: Ledger, label: Seq<u8>, bump: u8, steps: nat) -> (SwapPipeline, Ledger)
    decreases steps,
{
    if steps == 0 {
        (p, l)
    } else {
        match action_spec(p) {
            None => (p, l),
            Some(a) => match apply_spec(l, a, label, bump) {
                Ok(next) => run_spec(advance_spec(p, Ok(())), next, label, bump, (steps - 1) as nat),
                Err(e) => run_spec(advance_spec(p, Err(e)), l, label, bump, (steps - 1) as nat),
            },
        }
    }
}

/// The request state machine, run on the ledger for its five actions,
/// agrees with the stage-by-stage exchange: it completes with the same
/// output and ledger where the exchange succeeds, and aborts with the same
/// error where it fails.
pub proof fn lemma_run_matches_swap(l: Ledger, amount_in: u64, minimum_amount_out: u64, label: Seq<u8>, bump: u8)
    ensures
        ({
            let (p, after) = run_spec(start_spec(amount_in, minimum_amount_out), l, label, bump, 5);
            match swap_spec(l, amount_in, minimum_amount_out, label, bump) {
                Ok((expected, out)) => p.stage == Stage::Completed && p.amount_out == out && after == expected,
                Err(e) => p.stage == Stage::Aborted(e),
            }
        }),
{
    reveal_with_fuel(run_spec, 6);
}

/// A terminal request asks for nothing more, so running it changes nothing.
proof fn lemma_run_terminal(p: SwapPipeline, l: Ledger, label: Seq<u8>, bump: u8, steps: nat)
    requires
        is_terminal(p.stage),
    ensures
        run_spec(p, l, label, bump, steps) == (p, l),
{
    reveal_with_fuel(run_spec, 2);
}

/// Runs one exchange of `amount_in` against `ledger`, the custodian
/// presenting the protocol label and `bump`: the request state machine asks
/// for each action and is told its outcome on the ledger. On success the
/// ledger holds the effects of every stage and the output amount is
/// returned; on failure the error of the first failing stage is returned and
/// the ledger is unchanged.
pub fn swap_compressed_tokens(ledger: &mut Ledger, amount_in: u64, minimum_amount_out: u64, bump: u8) -> (r: Result<u64, SwapError>)
    ensures
        match swap_spec(*old(ledger), amount_in, minimum_amount_out, custodian_label_spec(), bump) {
            Ok((after, out)) => r == Ok::<u64, SwapError>(out) && *final(ledger) == after,
            Err(e) => r == Err::<u64, SwapError>(e) && *final(ledger) == *old(ledger),
        },
{
    let label = custodian_label();
    let ghost start = start_spec(amount_in, minimum_amount_out);
    let ghost initial = *ledger;
    let mut request = SwapPipeline::new(amount_in, minimum_amount_out);
    let mut current = *ledger;
    let mut taken: usize = 0;
    while taken < 5 && !request.is_finished()
        invariant
            taken <= 5,
            label@ == custodian_label_spec(),
            run_spec(start, initial, label@, bump, 5) == run_spec(
                request,
                current,
                label@,
                bump,
                (5 - taken) as nat,
            ),
        decreases 5 - taken,
    {
        let action = request.next_action();
        match action {
            Some(a) => match current.apply(a, label.as_slice(), bump) {
                Ok(next) => {
                    current = next;
                    request.advance(Ok(()));
                },
                Err(e) => request.advance(Err(e)),
            },
            None => {},
        }
        taken = taken + 1;
    }
    proof {
        if is_terminal(request.stage) {
            lemma_run_terminal(request, current, label@, bump, (5 - taken) as nat);
        }
        lemma_run_matches_swap(initial, amount_in, minimum_amount_out, label@, bump);
    }
    match request.stage {
        Stage::Aborted(e) => Err(e),
        _ => {
            *ledger = current;
            Ok(request.amount_out)
        },
    }
}

/// Conservation: a completed exchange leaves the pool at its balance before
/// plus the input minus the output, never below zero; the source record
/// loses exactly the input, the destination record gains exactly the output,
/// and both staging accounts end where they started.
pub proof fn lemma_conservation(l: Ledger, amount_in: u64, minimum_amount_out: u64, label: Seq<u8>, bump: u8)
    requires
        swap_spec(l, amount_in, minimum_amount_out, label, bump) is Ok,
    ensures
        ({
            let (after, out) = swap_spec(l, amount_in, minimum_amount_out, label, bump)->Ok_0;
            &&& after.pool == l.pool + amount_in - out
            &&& l.pool + amount_in - out >= 0
            &&& after.source_compressed == l.source_compressed - amount_in
            &&& after.dest_compressed == l.dest_compressed + out
            &&& after.source_staging == l.source_staging
            &&& after.dest_staging == l.dest_staging
            &&& quote_spec(amount_in) == Ok::<u64, SwapError>(out)
            &&& out >= minimum_amount_out
        }),
{
}

/// Slippage gate: where the quote falls below the floor, an exchange whose
/// decompression succeeds ends in `SlippageExceeded`, before any transfer or
/// compression stage.
pub proof fn lemma_slippage_gate(l: Ledger, amount_in: u64, minimum_amount_out: u64, label: Seq<u8>, bump: u8)
    requires
        quote_spec(amount_in) matches Ok(q) && q < minimum_amount_out,
        decompress_spec(l, amount_in) is Ok,
    ensures
        swap_spec(l, amount_in, minimum_amount_out, label, bump) == Err::<(Ledger, u64), SwapError>(
            SwapError::SlippageExceeded,
        ),
{
}

/// Authorization gate: a transfer-out whose presented label and counter do
/// not derive the pool's owner fails with `AuthorizationError`, whatever the
/// amount and balances.
pub proof fn lemma_authorization_gate(l: Ledger, amount: u64, label: Seq<u8>, bump: u8)
    requires
        !derives_spec(label, bump, l.program_id@, l.pool_owner@),
    ensures
        transfer_out_spec(l, amount, label, bump) == Err::<Ledger, SwapError>(
            SwapError::AuthorizationError,
        ),
{
}

/// All or nothing: an exchange either fails, or every stage took effect.
/// A completed exchange is exactly the composition of decompression,
/// transfer-in, transfer-out and compression, each of which succeeded.
pub proof fn lemma_all_or_nothing(l: Ledger, amount_in: u64, minimum_amount_out: u64, label: Seq<u8>, bump: u8)
    ensures
        swap_spec(l, amount_in, minimum_amount_out, label, bump) matches Ok((after, out)) ==> {
            &&& decompress_spec(l, amount_in) matches Ok(l1)
            &&& transfer_in_spec(l1, amount_in) matches Ok(l2)
            &&& transfer_out_spec(l2, out, label, bump) matches Ok(l3)
            &&& compress_spec(l3, out) == Ok::<Ledger, SwapError>(after)
        },
{
}

} // verus!
