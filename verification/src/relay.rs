//! The two relayed operations. Each assembles the full account list — the
//! operation's fixed accounts followed by the caller's proof path — encodes
//! the payload, and returns the finished instruction for the host
//! environment to forward in one cross-program invocation. The external
//! program's verdict is surfaced unchanged.

use vstd::prelude::*;
use crate::accounts::append_proof_accounts;
use crate::accounts::burn_fixed_account_metas;
use crate::accounts::spec_burn_fixed_metas;
use crate::accounts::spec_proof_metas;
use crate::accounts::spec_transfer_fixed_metas;
use crate::accounts::transfer_fixed_account_metas;
use crate::accounts::BurnCompressedNft;
use crate::accounts::TransferCompressedNft;
use crate::encode::encode_payload;
use crate::encode::spec_payload;
use crate::encode::PAYLOAD_LEN;
use crate::types::AccountMeta;
use crate::types::Address;
use crate::types::Instruction;
use crate::types::LeafCommitment;
use crate::types::OperationKind;
use crate::types::RelayError;

verus! {

/// Builds the transfer instruction: the 8 fixed accounts, then the proof
/// path in caller order, and the transfer payload for the given commitment,
/// addressed to the ledger program.
pub fn transfer_compressed_nft(
    accounts: &TransferCompressedNft,
    root: Address,
    data_hash: Address,
    creator_hash: Address,
    nonce: u64,
    index: u32,
    proof_accounts: &Vec<Address>,
) -> (ins: Instruction)
    ensures
        ins.program_id == accounts.bubblegum_program,
        ins.accounts@ == spec_transfer_fixed_metas(*accounts) + spec_proof_metas(
            proof_accounts@,
        ),
        ins.accounts@.len() == 8 + proof_accounts@.len(),
        ins.data@ == spec_payload(
            OperationKind::Transfer,
            (LeafCommitment { root, data_hash, creator_hash, nonce, index }),
        ),
        ins.data@.len() == PAYLOAD_LEN,
{
    let mut metas = transfer_fixed_account_metas(accounts);
    append_proof_accounts(&mut metas, proof_accounts);
    let commitment = LeafCommitment { root, data_hash, creator_hash, nonce, index };
    let data = encode_payload(OperationKind::Transfer, &commitment);
    Instruction { program_id: accounts.bubblegum_program, accounts: metas, data }
}

/// Builds the burn instruction: the 7 fixed accounts, then the proof path
/// in caller order, and the burn payload for the given commitment, addressed
/// to the ledger program.
pub fn burn_compressed_nft(
    accounts: &BurnCompressedNft,
    root: Address,
    data_hash: Address,
    creator_hash: Address,
    nonce: u64,
    index: u32,
    proof_accounts: &Vec<Address>,
) -> (ins: Instruction)
    ensures
        ins.program_id == accounts.bubblegum_program,
        ins.accounts@ == spec_burn_fixed_metas(*accounts) + spec_proof_metas(proof_accounts@),
        ins.accounts@.len() == 7 + proof_accounts@.len(),
        ins.data@ == spec_payload(
            OperationKind::Burn,
            (LeafCommitment { root, data_hash, creator_hash, nonce, index }),
        ),
        ins.data@.len() == PAYLOAD_LEN,
{
    let mut metas = burn_fixed_account_metas(accounts);
    append_proof_accounts(&mut metas, proof_accounts);
    let commitment = LeafCommitment { root, data_hash, creator_hash, nonce, index };
    let data = encode_payload(OperationKind::Burn, &commitment);
    Instruction { program_id: accounts.bubblegum_program, accounts: metas, data }
}

/// In any assembled account list, each proof account stands right after the
/// fixed prefix, at the position the caller gave it, and is read-only and
/// non-signer whatever capabilities the caller tagged it with.
pub proof fn lemma_proof_accounts_order(fixed: Seq<AccountMeta>, keys: Seq<Address>)
    ensures
        (fixed + spec_proof_metas(keys)).len() == fixed.len() + keys.len(),
        forall|i: int|
            0 <= i < keys.len() ==> (fixed + spec_proof_metas(keys))[fixed.len() + i] == (
            AccountMeta { key: keys[i], is_signer: false, is_writable: false }),
        forall|i: int| 0 <= i < fixed.len() ==> (fixed + spec_proof_metas(keys))[i] == fixed[i],
{
}

/// Surfaces the external ledger program's verdict unchanged: success stays
/// success, and a rejection is reported as an operation failure carrying the
/// external program's own code. Nothing is retried, translated or recovered.
pub fn surface_outcome(outcome: Result<(), u64>) -> (r: Result<(), RelayError>)
    ensures
        r is Ok <==> outcome is Ok,
        outcome matches Err(code) ==> r == Err::<(), RelayError>(RelayError::ExternalProgram(code)),
{
    match outcome {
        Ok(()) => Ok(()),
        Err(code) => Err(RelayError::ExternalProgram(code)),
    }
}

} // verus!
