use vstd::prelude::*;

use crate::error::SwapError;

use anchor_lang::prelude::Pubkey;

verus! {

/// A 32-byte account identity.
pub type Address = [u8; 32];

/// The program-derived address for the given seeds under a program id, or
/// `None` where no address exists for them (the hash lies on the curve, or
/// the seeds are too many or too long).
pub uninterp spec fn program_address(seeds: Seq<Seq<u8>>, program_id: Seq<u8>) -> Option<Seq<u8>>;

/// The seeds presented for a derived authority: its label, then its counter.
pub open spec fn custodian_seeds(label: Seq<u8>, bump: u8) -> Seq<Seq<u8>> {
    seq![label, seq![bump]]
}

/// The label from which the protocol's custodian is derived.
pub open spec fn custodian_label_spec() -> Seq<u8> {
    seq![
        112u8, 114u8, 111u8, 116u8, 111u8, 99u8, 111u8, 108u8, 95u8,
        97u8, 117u8, 116u8, 104u8, 111u8, 114u8, 105u8, 116u8, 121u8,
    ]
}

/// The bytes of the label `protocol_authority` (ASCII).
pub fn custodian_label() -> (r: Vec<u8>)
    ensures
        r@ == custodian_label_spec(),
{
    let r: Vec<u8> = vec![
        112u8, 114u8, 111u8, 116u8, 111u8, 99u8, 111u8, 108u8, 95u8,
        97u8, 117u8, 116u8, 104u8, 111u8, 114u8, 105u8, 116u8, 121u8,
    ];
    assert(r@ =~= custodian_label_spec());
    r
}

/// Relies on `Pubkey::create_program_address` (solana-program): derives the
/// address of seeds `[label, [bump]]` under `program_id`; its error becomes
/// `None`.
#[verifier::external_body]
fn create_program_address(label: &[u8], bump: u8, program_id: &Address) -> (r: Option<Address>)
    ensures
        r matches Some(k) ==> program_address(custodian_seeds(label@, bump), program_id@)
            == Some(k@),
        r is None ==> program_address(custodian_seeds(label@, bump), program_id@) is None,
{
    let bump_seed = [bump];
    Pubkey::create_program_address(&[label, &bump_seed], &Pubkey::new_from_array(*program_id))
        .ok()
        .map(|k| k.to_bytes())
}

/// Whether two identities are the same bytes.
pub fn same_address(a: &Address, b: &Address) -> (r: bool)
    ensures
        r == (a@ == b@),
{
    let mut i: usize = 0;
    while i < 32
        invariant
            i <= 32,
            forall|j: int| 0 <= j < i ==> a@[j] == b@[j],
        decreases 32 - i,
    {
        if a[i] != b[i] {
            assert(a@[i as int] != b@[i as int]);
            return false;
        }
        i = i + 1;
    }
    assert(a@ =~= b@);
    true
}

/// Whether `(label, bump)` under `program_id` derives exactly `claimed`.
pub open spec fn derives_spec(label: Seq<u8>, bump: u8, program_id: Seq<u8>, claimed: Seq<u8>) -> bool {
    program_address(custodian_seeds(label, bump), program_id) == Some(claimed)
}

/// The authorization decision for an address already derived from the
/// presented seeds: accepted exactly when it exists and equals `claimed`.
pub fn check_derived_authority(derived: Option<Address>, claimed: &Address) -> (r: Result<(), SwapError>)
    ensures
        r is Ok <==> (derived matches Some(k) && k@ == claimed@),
        r is Err ==> r == Err::<(), SwapError>(SwapError::AuthorizationError),
{
    match derived {
        Some(k) => if same_address(&k, claimed) {
            Ok(())
        } else {
            Err(SwapError::AuthorizationError)
        },
        None => Err(SwapError::AuthorizationError),
    }
}

/// Verifies a derived-authority claim: the identity `claimed` is accepted
/// exactly when `label` and `bump` derive it under `program_id`.
pub fn verify_custodian(label: &[u8], bump: u8, program_id: &Address, claimed: &Address) -> (r: Result<(), SwapError>)
    ensures
        r is Ok <==> derives_spec(label@, bump, program_id@, claimed@),
        r is Err ==> r == Err::<(), SwapError>(SwapError::AuthorizationError),
{
    let derived = create_program_address(label, bump, program_id);
    check_derived_authority(derived, claimed)
}

} // verus!
