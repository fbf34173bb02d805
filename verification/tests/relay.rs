use cnft_transfer::accounts::burn_fixed_account_metas;
use cnft_transfer::accounts::ordered_account_keys;
use cnft_transfer::accounts::transfer_fixed_account_metas;
use cnft_transfer::accounts::BurnCompressedNft;
use cnft_transfer::accounts::TransferCompressedNft;
use cnft_transfer::encode::decode_payload;
use cnft_transfer::encode::encode_payload;
use cnft_transfer::relay::burn_compressed_nft;
use cnft_transfer::relay::surface_outcome;
use cnft_transfer::relay::transfer_compressed_nft;
use cnft_transfer::types::LeafCommitment;
use cnft_transfer::types::OperationKind;
use cnft_transfer::types::RelayError;

const TRANSFER_DISC: [u8; 8] = [163, 52, 200, 231, 140, 3, 69, 186];
const BURN_DISC: [u8; 8] = [116, 110, 29, 56, 107, 219, 42, 93];

fn transfer_accounts() -> TransferCompressedNft {
    TransferCompressedNft {
        leaf_owner: [1u8; 32],
        leaf_delegate: [2u8; 32],
        tree_authority: [3u8; 32],
        merkle_tree: [4u8; 32],
        new_leaf_owner: [5u8; 32],
        log_wrapper: [6u8; 32],
        compression_program: [7u8; 32],
        bubblegum_program: [8u8; 32],
        system_program: [9u8; 32],
    }
}

fn burn_accounts() -> BurnCompressedNft {
    BurnCompressedNft {
        leaf_owner: [1u8; 32],
        leaf_delegate: [2u8; 32],
        tree_authority: [3u8; 32],
        merkle_tree: [4u8; 32],
        log_wrapper: [6u8; 32],
        compression_program: [7u8; 32],
        bubblegum_program: [8u8; 32],
        system_program: [9u8; 32],
    }
}

fn sample_commitment() -> LeafCommitment {
    LeafCommitment {
        root: [0xAAu8; 32],
        data_hash: [0xBBu8; 32],
        creator_hash: [0xCCu8; 32],
        nonce: 0x0102030405060708,
        index: 0x0A0B0C0D,
    }
}

#[test]
fn transfer_account_list_length_tracks_proof_length() {
    let a = transfer_accounts();
    for proof_len in [0usize, 1, 3, 17] {
        let proof: Vec<[u8; 32]> = (0..proof_len).map(|i| [i as u8; 32]).collect();
        let ins = transfer_compressed_nft(&a, [0u8; 32], [0u8; 32], [0u8; 32], 1, 1, &proof);
        assert_eq!(ins.accounts.len(), 8 + proof_len);
    }
}

#[test]
fn burn_account_list_length_tracks_proof_length() {
    let a = burn_accounts();
    for proof_len in [0usize, 1, 3, 17] {
        let proof: Vec<[u8; 32]> = (0..proof_len).map(|i| [i as u8; 32]).collect();
        let ins = burn_compressed_nft(&a, [0u8; 32], [0u8; 32], [0u8; 32], 1, 1, &proof);
        assert_eq!(ins.accounts.len(), 7 + proof_len);
    }
}

#[test]
fn payload_starts_with_fixed_discriminator() {
    let c1 = sample_commitment();
    let c2 = LeafCommitment {
        root: [0u8; 32],
        data_hash: [1u8; 32],
        creator_hash: [2u8; 32],
        nonce: u64::MAX,
        index: u32::MAX,
    };
    let t1 = encode_payload(OperationKind::Transfer, &c1);
    let t2 = encode_payload(OperationKind::Transfer, &c2);
    assert_eq!(&t1[0..8], &TRANSFER_DISC);
    assert_eq!(&t2[0..8], &TRANSFER_DISC);
    assert_eq!(&t1[0..8], &t2[0..8]);
    let b1 = encode_payload(OperationKind::Burn, &c1);
    let b2 = encode_payload(OperationKind::Burn, &c2);
    assert_eq!(&b1[0..8], &BURN_DISC);
    assert_eq!(&b1[0..8], &b2[0..8]);
}

#[test]
fn payload_layout_is_exact() {
    let c = sample_commitment();
    let data = encode_payload(OperationKind::Transfer, &c);
    assert_eq!(data.len(), 116);
    assert_eq!(&data[0..8], &TRANSFER_DISC);
    assert_eq!(&data[8..40], &[0xAAu8; 32]);
    assert_eq!(&data[40..72], &[0xBBu8; 32]);
    assert_eq!(&data[72..104], &[0xCCu8; 32]);
    assert_eq!(&data[104..112], &[0x08, 0x07, 0x06, 0x05, 0x04, 0x03, 0x02, 0x01]);
    assert_eq!(&data[112..116], &[0x0D, 0x0C, 0x0B, 0x0A]);
}

#[test]
fn payload_round_trips_for_transfer() {
    let c = sample_commitment();
    let data = encode_payload(OperationKind::Transfer, &c);
    let decoded = decode_payload(&data).expect("a fresh encoding must decode");
    assert_eq!(decoded.0, OperationKind::Transfer);
    assert_eq!(decoded.1, c);
}

#[test]
fn payload_round_trips_for_burn() {
    let c = LeafCommitment {
        root: [0x10u8; 32],
        data_hash: [0x20u8; 32],
        creator_hash: [0x30u8; 32],
        nonce: u64::MAX,
        index: 0,
    };
    let data = encode_payload(OperationKind::Burn, &c);
    let decoded = decode_payload(&data).expect("a fresh encoding must decode");
    assert_eq!(decoded.0, OperationKind::Burn);
    assert_eq!(decoded.1, c);
}

#[test]
fn decode_rejects_wrong_length() {
    let c = sample_commitment();
    let mut data = encode_payload(OperationKind::Transfer, &c);
    data.pop();
    assert!(decode_payload(&data).is_none());
    assert!(decode_payload(&Vec::new()).is_none());
}

#[test]
fn decode_rejects_unknown_discriminator() {
    let c = sample_commitment();
    let mut data = encode_payload(OperationKind::Transfer, &c);
    data[0] = data[0].wrapping_add(1);
    assert!(decode_payload(&data).is_none());
}

#[test]
fn proof_accounts_keep_caller_order_and_are_readonly() {
    let a = transfer_accounts();
    let proof: Vec<[u8; 32]> = vec![[0x41u8; 32], [0x42u8; 32], [0x43u8; 32], [0x44u8; 32]];
    let ins = transfer_compressed_nft(&a, [0u8; 32], [0u8; 32], [0u8; 32], 9, 9, &proof);
    for (i, key) in proof.iter().enumerate() {
        let meta = &ins.accounts[8 + i];
        assert_eq!(&meta.key, key);
        assert!(!meta.is_signer);
        assert!(!meta.is_writable);
    }
}

#[test]
fn fixed_accounts_have_mandated_order_and_flags() {
    let a = transfer_accounts();
    let metas = transfer_fixed_account_metas(&a);
    let expected = [
        (a.tree_authority, false, true),
        (a.leaf_owner, true, false),
        (a.leaf_delegate, true, false),
        (a.new_leaf_owner, false, false),
        (a.merkle_tree, false, true),
        (a.log_wrapper, false, false),
        (a.compression_program, false, false),
        (a.system_program, false, false),
    ];
    assert_eq!(metas.len(), expected.len());
    for (meta, (key, is_signer, is_writable)) in metas.iter().zip(expected.iter()) {
        assert_eq!(&meta.key, key);
        assert_eq!(&meta.is_signer, is_signer);
        assert_eq!(&meta.is_writable, is_writable);
    }

    let b = burn_accounts();
    let metas = burn_fixed_account_metas(&b);
    let expected = [
        (b.tree_authority, false, true),
        (b.leaf_owner, true, false),
        (b.leaf_delegate, true, false),
        (b.merkle_tree, false, true),
        (b.log_wrapper, false, false),
        (b.compression_program, false, false),
        (b.system_program, false, false),
    ];
    assert_eq!(metas.len(), expected.len());
    for (meta, (key, is_signer, is_writable)) in metas.iter().zip(expected.iter()) {
        assert_eq!(&meta.key, key);
        assert_eq!(&meta.is_signer, is_signer);
        assert_eq!(&meta.is_writable, is_writable);
    }
}

#[test]
fn empty_proof_still_yields_well_formed_instruction() {
    let a = transfer_accounts();
    let proof: Vec<[u8; 32]> = Vec::new();
    let ins = transfer_compressed_nft(&a, [0u8; 32], [0u8; 32], [0u8; 32], 0, 0, &proof);
    assert_eq!(ins.accounts.len(), 8);
    assert_eq!(ins.data.len(), 116);
    assert!(decode_payload(&ins.data).is_some());

    let b = burn_accounts();
    let ins = burn_compressed_nft(&b, [0u8; 32], [0u8; 32], [0u8; 32], 0, 0, &proof);
    assert_eq!(ins.accounts.len(), 7);
    assert_eq!(ins.data.len(), 116);
}

#[test]
fn transfer_scenario_three_proof_accounts() {
    let a = transfer_accounts();
    let proof: Vec<[u8; 32]> = vec![[0x51u8; 32], [0x52u8; 32], [0x53u8; 32]];
    let ins = transfer_compressed_nft(&a, [0u8; 32], [0u8; 32], [0u8; 32], 5, 2, &proof);
    assert_eq!(ins.program_id, a.bubblegum_program);
    assert_eq!(ins.accounts.len(), 11);
    assert_eq!(ins.data.len(), 116);
    let mut expected: Vec<u8> = Vec::new();
    expected.extend(TRANSFER_DISC);
    expected.extend([0u8; 96]);
    expected.extend([0x05, 0x00, 0x00, 0x00, 0x00, 0x00, 0x00, 0x00]);
    expected.extend([0x02, 0x00, 0x00, 0x00]);
    assert_eq!(ins.data, expected);
}

#[test]
fn burn_scenario_no_proof_accounts() {
    let b = burn_accounts();
    let proof: Vec<[u8; 32]> = Vec::new();
    let ins = burn_compressed_nft(&b, [0u8; 32], [0u8; 32], [0u8; 32], 5, 2, &proof);
    assert_eq!(ins.program_id, b.bubblegum_program);
    assert_eq!(ins.accounts.len(), 7);
    let mut expected: Vec<u8> = Vec::new();
    expected.extend(BURN_DISC);
    expected.extend([0u8; 96]);
    expected.extend([0x05, 0x00, 0x00, 0x00, 0x00, 0x00, 0x00, 0x00]);
    expected.extend([0x02, 0x00, 0x00, 0x00]);
    assert_eq!(ins.data, expected);
}

#[test]
fn account_keys_follow_meta_order() {
    let a = transfer_accounts();
    let proof: Vec<[u8; 32]> = vec![[0x61u8; 32], [0x62u8; 32]];
    let ins = transfer_compressed_nft(&a, [0u8; 32], [0u8; 32], [0u8; 32], 3, 4, &proof);
    let keys = ordered_account_keys(&ins.accounts);
    assert_eq!(keys.len(), ins.accounts.len());
    for (key, meta) in keys.iter().zip(ins.accounts.iter()) {
        assert_eq!(key, &meta.key);
    }
}

#[test]
fn rejection_by_external_program_is_surfaced_unchanged() {
    // A stub external program that always rejects: every invocation comes
    // back as the same error code, and the relay must report exactly it.
    let always_reject = |_ins: &cnft_transfer::types::Instruction| -> Result<(), u64> { Err(77) };
    let a = transfer_accounts();
    let proof: Vec<[u8; 32]> = vec![[0x71u8; 32]];
    let ins = transfer_compressed_nft(&a, [0u8; 32], [0u8; 32], [0u8; 32], 1, 2, &proof);
    let outcome = surface_outcome(always_reject(&ins));
    assert_eq!(outcome, Err(RelayError::ExternalProgram(77)));
}

#[test]
fn success_is_surfaced_unchanged() {
    assert_eq!(surface_outcome(Ok(())), Ok(()));
    assert_eq!(surface_outcome(Err(0)), Err(RelayError::ExternalProgram(0)));
}
