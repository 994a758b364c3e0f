use anchor_lang::prelude::Pubkey;
use compressed_token_swap::custodian::{custodian_label, same_address, verify_custodian, Address};
use compressed_token_swap::error::SwapError;
use compressed_token_swap::event::{CompressionMetrics, SwapCompletedEvent};
use compressed_token_swap::ledger::Ledger;
use compressed_token_swap::pipeline::{Action, Stage, SwapPipeline};
use compressed_token_swap::quote::{calculate_output_amount, quote_with_floor};
use compressed_token_swap::settlement::{initialize, swap_compressed_tokens};

fn program_id() -> Address {
    [7u8; 32]
}

fn custodian() -> (Address, u8) {
    let (key, bump) =
        Pubkey::find_program_address(&[b"protocol_authority"], &Pubkey::new_from_array(program_id()));
    (key.to_bytes(), bump)
}

fn ledger(source_compressed: u64, pool: u64) -> Ledger {
    Ledger {
        source_compressed,
        source_staging: 0,
        pool,
        dest_staging: 0,
        dest_compressed: 0,
        pool_owner: custodian().0,
        program_id: program_id(),
    }
}

fn same_ledger(a: &Ledger, b: &Ledger) -> bool {
    a.source_compressed == b.source_compressed
        && a.source_staging == b.source_staging
        && a.pool == b.pool
        && a.dest_staging == b.dest_staging
        && a.dest_compressed == b.dest_compressed
        && a.pool_owner == b.pool_owner
        && a.program_id == b.program_id
}

/// Drives a request to its end, answering every action with success.
fn run_all_ok(p: &mut SwapPipeline) -> Vec<Action> {
    let mut actions = Vec::new();
    while let Some(a) = p.next_action() {
        actions.push(a);
        p.advance(Ok(()));
    }
    actions
}

#[test]
fn label_is_protocol_authority() {
    assert_eq!(custodian_label(), b"protocol_authority".to_vec());
}

#[test]
fn quote_exact_values() {
    assert_eq!(calculate_output_amount(0), Ok(0));
    assert_eq!(calculate_output_amount(1), Ok(0));
    assert_eq!(calculate_output_amount(100), Ok(98));
    assert_eq!(calculate_output_amount(101), Ok(98));
    assert_eq!(calculate_output_amount(1000), Ok(980));
    let largest = u64::MAX / 98;
    assert_eq!(calculate_output_amount(largest), Ok(largest * 98 / 100));
    assert_eq!(calculate_output_amount(largest + 1), Err(SwapError::ArithmeticError));
}

#[test]
fn quote_is_deterministic() {
    for a in [0u64, 3, 999, 123_456_789, u64::MAX / 98, u64::MAX] {
        assert_eq!(calculate_output_amount(a), calculate_output_amount(a));
        if let Ok(out) = calculate_output_amount(a) {
            assert_eq!(out as u128, (a as u128) * 98 / 100);
        }
    }
}

#[test]
fn floor_check() {
    assert_eq!(quote_with_floor(1000, 980), Ok(980));
    assert_eq!(quote_with_floor(1000, 981), Err(SwapError::SlippageExceeded));
    assert_eq!(quote_with_floor(u64::MAX, 0), Err(SwapError::ArithmeticError));
}

#[test]
fn scenario_a_completes() {
    let mut l = ledger(5000, 10_000);
    let before = l;
    let (_, bump) = custodian();
    assert_eq!(swap_compressed_tokens(&mut l, 1000, 970, bump), Ok(980));
    assert_eq!(l.source_compressed, 4000);
    assert_eq!(l.source_staging, 0);
    assert_eq!(l.pool, before.pool + 1000 - 980);
    assert_eq!(l.dest_staging, 0);
    assert_eq!(l.dest_compressed, 980);

    let mut p = SwapPipeline::new(1000, 970);
    let mut actions = Vec::new();
    let mut event = None;
    while let Some(a) = p.next_action() {
        actions.push(a);
        if a == Action::Emit {
            let metrics = CompressionMetrics { compression_ratio: 12, proof_size: 128 };
            event = SwapCompletedEvent::for_request(&p, [1; 32], [2; 32], [3; 32], metrics, 1_700_000_000);
        }
        p.advance(Ok(()));
    }
    assert_eq!(
        actions,
        vec![
            Action::Decompress(1000),
            Action::TransferIn(1000),
            Action::TransferOut(980),
            Action::Compress(980),
            Action::Emit,
        ]
    );
    assert!(p.is_completed());
    let e = event.unwrap();
    assert_eq!(e.amount_in, 1000);
    assert_eq!(e.amount_out, 980);
    assert_eq!(e.user, [1; 32]);
    assert_eq!(e.from_token, [2; 32]);
    assert_eq!(e.to_token, [3; 32]);
    assert_eq!(e.compression_ratio, 12);
    assert_eq!(e.proof_size, 128);
    assert_eq!(e.timestamp, 1_700_000_000);
}

#[test]
fn scenario_b_slippage() {
    let mut l = ledger(5000, 10_000);
    let before = l;
    let (_, bump) = custodian();
    assert_eq!(swap_compressed_tokens(&mut l, 1000, 990, bump), Err(SwapError::SlippageExceeded));
    assert!(same_ledger(&l, &before));

    let mut p = SwapPipeline::new(1000, 990);
    let actions = run_all_ok(&mut p);
    assert_eq!(actions, vec![Action::Decompress(1000)]);
    assert_eq!(p.stage, Stage::Aborted(SwapError::SlippageExceeded));
    assert_eq!(p.failure(), Some(SwapError::SlippageExceeded));
    assert_eq!(p.next_action(), None);
}

#[test]
fn scenario_c_insufficient_funds() {
    let mut l = ledger(999, 10_000);
    let before = l;
    let (_, bump) = custodian();
    assert_eq!(swap_compressed_tokens(&mut l, 1000, 0, bump), Err(SwapError::InsufficientFunds));
    assert!(same_ledger(&l, &before));

    let mut p = SwapPipeline::new(1000, 0);
    assert_eq!(p.next_action(), Some(Action::Decompress(1000)));
    p.advance(Err(SwapError::InsufficientFunds));
    assert_eq!(p.stage, Stage::Aborted(SwapError::InsufficientFunds));
    assert_eq!(p.next_action(), None);
}

#[test]
fn scenario_d_overflow() {
    let mut l = ledger(u64::MAX, 0);
    let before = l;
    let (_, bump) = custodian();
    assert_eq!(swap_compressed_tokens(&mut l, u64::MAX, 0, bump), Err(SwapError::ArithmeticError));
    assert!(same_ledger(&l, &before));

    let mut p = SwapPipeline::new(u64::MAX, 0);
    let actions = run_all_ok(&mut p);
    assert_eq!(actions, vec![Action::Decompress(u64::MAX)]);
    assert_eq!(p.failure(), Some(SwapError::ArithmeticError));
}

#[test]
fn authorization_gate_wrong_counter() {
    let mut l = ledger(5000, 10_000);
    let before = l;
    let (_, bump) = custodian();
    let wrong = bump.wrapping_sub(1);
    assert_eq!(swap_compressed_tokens(&mut l, 1000, 970, wrong), Err(SwapError::AuthorizationError));
    assert!(same_ledger(&l, &before));
}

#[test]
fn verify_custodian_derivation() {
    let (owner, bump) = custodian();
    let label = custodian_label();
    assert_eq!(verify_custodian(&label, bump, &program_id(), &owner), Ok(()));
    assert_eq!(
        verify_custodian(&label, bump.wrapping_sub(1), &program_id(), &owner),
        Err(SwapError::AuthorizationError)
    );
    assert_eq!(verify_custodian(&label, bump, &[8u8; 32], &owner), Err(SwapError::AuthorizationError));
    assert_eq!(verify_custodian(b"other", bump, &program_id(), &owner), Err(SwapError::AuthorizationError));
    // The derived identity differs from the program id it was derived under.
    assert_eq!(verify_custodian(&label, bump, &program_id(), &program_id()), Err(SwapError::AuthorizationError));
}

#[test]
fn same_address_compares_every_byte() {
    let a = [5u8; 32];
    let mut b = a;
    assert!(same_address(&a, &b));
    b[31] = 6;
    assert!(!same_address(&a, &b));
    b = a;
    b[0] = 0;
    assert!(!same_address(&a, &b));
}

#[test]
fn transfer_in_rejected_when_pool_full() {
    let mut l = ledger(5000, u64::MAX);
    let before = l;
    let (_, bump) = custodian();
    assert_eq!(swap_compressed_tokens(&mut l, 1000, 0, bump), Err(SwapError::TransferError));
    assert!(same_ledger(&l, &before));
}

#[test]
fn decompress_rejected_when_staging_full() {
    let mut l = ledger(5000, 0);
    l.source_staging = u64::MAX - 10;
    let before = l;
    let (_, bump) = custodian();
    assert_eq!(swap_compressed_tokens(&mut l, 1000, 0, bump), Err(SwapError::InvalidCompressionState));
    assert!(same_ledger(&l, &before));
}

#[test]
fn compress_rejected_when_record_full() {
    let mut l = ledger(5000, 0);
    l.dest_compressed = u64::MAX - 5;
    let before = l;
    let (_, bump) = custodian();
    assert_eq!(swap_compressed_tokens(&mut l, 1000, 0, bump), Err(SwapError::InvalidCompressionState));
    assert!(same_ledger(&l, &before));
}

#[test]
fn ledger_stages_one_by_one() {
    let l = ledger(100, 0);
    assert_eq!(l.decompress(101).unwrap_err(), SwapError::InsufficientFunds);
    let l1 = l.decompress(100).unwrap();
    assert_eq!((l1.source_compressed, l1.source_staging), (0, 100));
    assert_eq!(l1.transfer_in(101).unwrap_err(), SwapError::TransferError);
    let l2 = l1.transfer_in(100).unwrap();
    assert_eq!((l2.source_staging, l2.pool), (0, 100));
    let (_, bump) = custodian();
    let label = custodian_label();
    assert_eq!(l2.transfer_out(101, &label, bump).unwrap_err(), SwapError::TransferError);
    let l3 = l2.transfer_out(98, &label, bump).unwrap();
    assert_eq!((l3.pool, l3.dest_staging), (2, 98));
    assert_eq!(l3.compress(99).unwrap_err(), SwapError::InvalidCompressionState);
    let l4 = l3.compress(98).unwrap();
    assert_eq!((l4.dest_staging, l4.dest_compressed), (0, 98));
}

#[test]
fn pipeline_passes_on_stage_errors() {
    let stages = [
        (1usize, SwapError::TransferError, Stage::Aborted(SwapError::TransferError)),
        (2, SwapError::AuthorizationError, Stage::Aborted(SwapError::AuthorizationError)),
        (3, SwapError::InvalidCompressionState, Stage::Aborted(SwapError::InvalidCompressionState)),
        (4, SwapError::InvalidCompressionState, Stage::Aborted(SwapError::InvalidCompressionState)),
    ];
    for (fail_at, err, expected) in stages {
        let mut p = SwapPipeline::new(1000, 970);
        let mut step = 0usize;
        while p.next_action().is_some() {
            if step == fail_at {
                p.advance(Err(err));
            } else {
                p.advance(Ok(()));
            }
            step += 1;
        }
        assert_eq!(p.stage, expected);
        assert_eq!(step, fail_at + 1);
        assert!(!p.is_completed());
    }
}

#[test]
fn terminal_request_stays() {
    let mut p = SwapPipeline::new(1000, 970);
    run_all_ok(&mut p);
    let done = p;
    p.advance(Err(SwapError::TransferError));
    assert_eq!(p, done);
    assert_eq!(p.failure(), None);
}

#[test]
fn event_only_at_emit_stage() {
    let p = SwapPipeline::new(1000, 970);
    let metrics = CompressionMetrics { compression_ratio: 1, proof_size: 1 };
    assert!(SwapCompletedEvent::for_request(&p, [0; 32], [0; 32], [0; 32], metrics, 0).is_none());
}

#[test]
fn initialize_succeeds() {
    assert_eq!(initialize(), Ok(()));
}

#[test]
fn error_messages() {
    assert_eq!(SwapError::SlippageExceeded.message(), "Slippage tolerance exceeded");
    assert_eq!(SwapError::InsufficientFunds.message(), "Insufficient funds");
}

#[test]
fn apply_dispatches_actions() {
    let l = ledger(100, 0);
    let (_, bump) = custodian();
    let label = custodian_label();
    let same = l.apply(Action::Emit, &label, bump).unwrap();
    assert!(same_ledger(&same, &l));
    let l1 = l.apply(Action::Decompress(40), &label, bump).unwrap();
    assert_eq!((l1.source_compressed, l1.source_staging), (60, 40));
    let l2 = l1.apply(Action::TransferIn(40), &label, bump).unwrap();
    assert_eq!(l2.pool, 40);
    assert_eq!(
        l2.apply(Action::TransferOut(10), &label, bump.wrapping_add(1)).unwrap_err(),
        SwapError::AuthorizationError
    );
    let l3 = l2.apply(Action::TransferOut(39), &label, bump).unwrap();
    assert_eq!((l3.pool, l3.dest_staging), (1, 39));
    let l4 = l3.apply(Action::Compress(39), &label, bump).unwrap();
    assert_eq!(l4.dest_compressed, 39);
}

#[test]
fn finished_after_abort_or_completion() {
    let mut p = SwapPipeline::new(10, 0);
    assert!(!p.is_finished());
    p.advance(Ok(()));
    assert_eq!(p.stage, Stage::Quoted);
    assert_eq!(p.amount_out, 9);
    assert!(!p.is_finished());
    p.advance(Err(SwapError::TransferError));
    assert!(p.is_finished());
    let mut q = SwapPipeline::new(10, 0);
    run_all_ok(&mut q);
    assert!(q.is_finished());
    assert!(q.is_completed());
}
