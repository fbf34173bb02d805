//! Account assembly: for each operation, the fixed accounts the ledger
//! program requires, in its mandated order and with its mandated capability
//! flags, followed by the caller-supplied proof path appended in caller
//! order as read-only, non-signer references.

use vstd::prelude::*;
use crate::types::AccountMeta;
use crate::types::Address;

verus! {

/// Number of fixed accounts the transfer operation requires.
pub const TRANSFER_FIXED_ACCOUNTS: usize = 8;

/// Number of fixed accounts the burn operation requires.
pub const BURN_FIXED_ACCOUNTS: usize = 7;

/// The accounts a caller must supply for the transfer operation. The relay
/// validates nothing about them — ownership and existence are the ledger
/// program's responsibility.
#[derive(Clone, Copy, PartialEq, Eq, Debug)]
pub struct TransferCompressedNft {
    /// Current owner of the leaf; must have signed the transaction.
    pub leaf_owner: Address,
    /// Current delegate of the leaf; must have signed the transaction.
    pub leaf_delegate: Address,
    /// Authority address derived from the tree by the host environment.
    pub tree_authority: Address,
    /// The account holding the merkle tree whose root the operation changes.
    pub merkle_tree: Address,
    /// Destination of the transfer; a reference only.
    pub new_leaf_owner: Address,
    /// The event-sink (log wrapper) program.
    pub log_wrapper: Address,
    /// The compression-support program.
    pub compression_program: Address,
    /// The external ledger program the instruction is addressed to.
    pub bubblegum_program: Address,
    /// The system (no-op) program.
    pub system_program: Address,
}

/// The accounts a caller must supply for the burn operation: the transfer
/// set minus the destination owner.
#[derive(Clone, Copy, PartialEq, Eq, Debug)]
pub struct BurnCompressedNft {
    /// Current owner of the leaf; must have signed the transaction.
    pub leaf_owner: Address,
    /// Current delegate of the leaf; must have signed the transaction.
    pub leaf_delegate: Address,
    /// Authority address derived from the tree by the host environment.
    pub tree_authority: Address,
    /// The account holding the merkle tree whose root the operation changes.
    pub merkle_tree: Address,
    /// The event-sink (log wrapper) program.
    pub log_wrapper: Address,
    /// The compression-support program.
    pub compression_program: Address,
    /// The external ledger program the instruction is addressed to.
    pub bubblegum_program: Address,
    /// The system (no-op) program.
    pub system_program: Address,
}

/// The fixed account references of the transfer operation, in the ledger
/// program's mandated order: tree authority (writable), leaf owner (signer),
/// leaf delegate (signer), new leaf owner, merkle tree (writable), then the
/// three collaborator programs, read-only.
pub open spec fn spec_transfer_fixed_metas(a: TransferCompressedNft) -> Seq<AccountMeta> {
    seq![
        AccountMeta { key: a.tree_authority, is_signer: false, is_writable: true },
        AccountMeta { key: a.leaf_owner, is_signer: true, is_writable: false },
        AccountMeta { key: a.leaf_delegate, is_signer: true, is_writable: false },
        AccountMeta { key: a.new_leaf_owner, is_signer: false, is_writable: false },
        AccountMeta { key: a.merkle_tree, is_signer: false, is_writable: true },
        AccountMeta { key: a.log_wrapper, is_signer: false, is_writable: false },
        AccountMeta { key: a.compression_program, is_signer: false, is_writable: false },
        AccountMeta { key: a.system_program, is_signer: false, is_writable: false },
    ]
}

/// The fixed account references of the burn operation: the transfer order
/// with the new leaf owner left out.
pub open spec fn spec_burn_fixed_metas(a: BurnCompressedNft) -> Seq<AccountMeta> {
    seq![
        AccountMeta { key: a.tree_authority, is_signer: false, is_writable: true },
        AccountMeta { key: a.leaf_owner, is_signer: true, is_writable: false },
        AccountMeta { key: a.leaf_delegate, is_signer: true, is_writable: false },
        AccountMeta { key: a.merkle_tree, is_signer: false, is_writable: true },
        AccountMeta { key: a.log_wrapper, is_signer: false, is_writable: false },
        AccountMeta { key: a.compression_program, is_signer: false, is_writable: false },
        AccountMeta { key: a.system_program, is_signer: false, is_writable: false },
    ]
}

/// How one proof-path account is referenced: read-only and non-signer,
/// whatever capabilities the caller supplied it with.
pub open spec fn spec_proof_meta(key: Address) -> AccountMeta {
    AccountMeta { key, is_signer: false, is_writable: false }
}

/// The proof path as account references, in caller order.
pub open spec fn spec_proof_metas(keys: Seq<Address>) -> Seq<AccountMeta> {
    keys.map_values(|k: Address| spec_proof_meta(k))
}

/// Resolves the fixed accounts of the transfer operation.
pub fn transfer_fixed_account_metas(accounts: &TransferCompressedNft) -> (metas: Vec<
    AccountMeta,
>)
    ensures
        metas@ == spec_transfer_fixed_metas(*accounts),
        metas@.len() == TRANSFER_FIXED_ACCOUNTS,
{
    let mut metas: Vec<AccountMeta> = Vec::new();
    metas.push(AccountMeta::writable(accounts.tree_authority));
    metas.push(AccountMeta::readonly(accounts.leaf_owner, true));
    metas.push(AccountMeta::readonly(accounts.leaf_delegate, true));
    metas.push(AccountMeta::readonly(accounts.new_leaf_owner, false));
    metas.push(AccountMeta::writable(accounts.merkle_tree));
    metas.push(AccountMeta::readonly(accounts.log_wrapper, false));
    metas.push(AccountMeta::readonly(accounts.compression_program, false));
    metas.push(AccountMeta::readonly(accounts.system_program, false));
    proof {
        assert(metas@ =~= spec_transfer_fixed_metas(*accounts));
    }
    metas
}

/// Resolves the fixed accounts of the burn operation.
pub fn burn_fixed_account_metas(accounts: &BurnCompressedNft) -> (metas: Vec<AccountMeta>)
    ensures
        metas@ == spec_burn_fixed_metas(*accounts),
        metas@.len() == BURN_FIXED_ACCOUNTS,
{
    let mut metas: Vec<AccountMeta> = Vec::new();
    metas.push(AccountMeta::writable(accounts.tree_authority));
    metas.push(AccountMeta::readonly(accounts.leaf_owner, true));
    metas.push(AccountMeta::readonly(accounts.leaf_delegate, true));
    metas.push(AccountMeta::writable(accounts.merkle_tree));
    metas.push(AccountMeta::readonly(accounts.log_wrapper, false));
    metas.push(AccountMeta::readonly(accounts.compression_program, false));
    metas.push(AccountMeta::readonly(accounts.system_program, false));
    proof {
        assert(metas@ =~= spec_burn_fixed_metas(*accounts));
    }
    metas
}

/// Appends the caller-supplied proof accounts to `metas`, in caller order,
/// each read-only and non-signer. An empty proof path leaves `metas`
/// unchanged.
pub fn append_proof_accounts(metas: &mut Vec<AccountMeta>, proof_accounts: &Vec<Address>)
    ensures
        final(metas)@ == old(metas)@ + spec_proof_metas(proof_accounts@),
{
    let keys = proof_accounts;
    let mut i: usize = 0;
    while i < keys.len()
        invariant
            i <= keys@.len(),
            metas@ == old(metas)@ + spec_proof_metas(keys@.subrange(0, i as int)),
        decreases keys@.len() - i,
    {
        metas.push(AccountMeta::readonly(keys[i], false));
        proof {
            assert(spec_proof_metas(keys@.subrange(0, i + 1)) =~= spec_proof_metas(
                keys@.subrange(0, i as int),
            ).push(spec_proof_meta(keys@[i as int])));
        }
        i = i + 1;
    }
    proof {
        assert(keys@.subrange(0, keys@.len() as int) =~= keys@);
    }
}

/// The account handles of `metas`, in the same order: the list the host
/// invocation is given beside the metadata list.
pub fn ordered_account_keys(metas: &Vec<AccountMeta>) -> (keys: Vec<Address>)
    ensures
        keys@.len() == metas@.len(),
        forall|i: int| 0 <= i < metas@.len() ==> keys@[i] == metas@[i].key,
{
    let mut keys: Vec<Address> = Vec::new();
    let mut i: usize = 0;
    while i < metas.len()
        invariant
            i <= metas@.len(),
            keys@.len() == i,
            forall|j: int| 0 <= j < i ==> keys@[j] == metas@[j].key,
        decreases metas@.len() - i,
    {
        keys.push(metas[i].key);
        i = i + 1;
    }
    keys
}

} // verus!
