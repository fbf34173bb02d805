//! The data the relay works on: account handles, capability-tagged account
//! references, the leaf commitment carried by both operations, the fixed
//! account sets each operation requires, and the finished instruction.

use vstd::prelude::*;

verus! {

/// An opaque account handle: the 32-byte address under which the host
/// execution environment resolves an account.
pub type Address = [u8; 32];

/// One account reference in an instruction, tagged with the capability flags
/// the ledger program requires of it: whether the account may be mutated and
/// whether it must have signed the enclosing transaction.
#[derive(Clone, Copy, PartialEq, Eq, Debug)]
pub struct AccountMeta {
    pub key: Address,
    pub is_signer: bool,
    pub is_writable: bool,
}

impl AccountMeta {
    /// A read-only, non-signer reference to `key`, with `is_signer` as given.
    pub fn readonly(key: Address, is_signer: bool) -> (m: AccountMeta)
        ensures
            m == (AccountMeta { key, is_signer, is_writable: false }),
    {
        AccountMeta { key, is_signer, is_writable: false }
    }

    /// A writable, non-signer reference to `key`.
    pub fn writable(key: Address) -> (m: AccountMeta)
        ensures
            m == (AccountMeta { key, is_signer: false, is_writable: true }),
    {
        AccountMeta { key, is_signer: false, is_writable: true }
    }
}

/// Which of the two relayed operations an instruction encodes.
#[derive(Clone, Copy, PartialEq, Eq, Debug)]
pub enum OperationKind {
    Transfer,
    Burn,
}

/// The provable state of one leaf: the merkle root the proof is checked
/// against, the two digests that commit to the leaf's content, and the
/// leaf's sequence number and tree position.
#[derive(Clone, Copy, PartialEq, Eq, Debug)]
pub struct LeafCommitment {
    pub root: Address,
    pub data_hash: Address,
    pub creator_hash: Address,
    pub nonce: u64,
    pub index: u32,
}

/// A finished instruction, ready for the host environment to forward: the
/// address of the program it is for, the ordered, capability-tagged account
/// list, and the encoded payload.
#[derive(PartialEq, Eq, Debug)]
pub struct Instruction {
    pub program_id: Address,
    pub accounts: Vec<AccountMeta>,
    pub data: Vec<u8>,
}

/// How a relayed operation can fail: the external ledger program rejected
/// the invocation, with the code it returned. The relay itself validates
/// nothing and so has no failure of its own.
#[derive(Clone, Copy, PartialEq, Eq, Debug)]
pub enum RelayError {
    ExternalProgram(u64),
}

} // verus!
