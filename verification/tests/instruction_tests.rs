use durable_nonce::bytes::{bytes_eq, clone_bytes, copy_range, read_u32_le, read_u64_le};
use durable_nonce::instruction::{
    fits_key_budget, system_program_address, tip, with_tip, AccountMeta, Instruction,
};

use solana_sdk::pubkey::Pubkey;
use solana_sdk::system_instruction;
use solana_sdk::system_program;

#[test]
fn little_endian_readers_match_std() {
    let data = 0x1122334455667788u64.to_le_bytes().to_vec();
    assert_eq!(read_u64_le(&data, 0), 0x1122334455667788);
    assert_eq!(read_u32_le(&data, 0), 0x55667788);
    assert_eq!(read_u32_le(&data, 4), 0x11223344);
}

#[test]
fn byte_vector_utilities_work() {
    let data = vec![1u8, 2, 3, 4, 5];
    assert_eq!(copy_range(&data, 1, 3), vec![2u8, 3, 4]);
    assert_eq!(clone_bytes(&data), data);
    assert!(bytes_eq(&data, &vec![1u8, 2, 3, 4, 5]));
    assert!(!bytes_eq(&data, &vec![1u8, 2, 3, 4]));
    assert!(!bytes_eq(&data, &vec![1u8, 2, 3, 4, 6]));
}

#[test]
fn system_program_address_matches_the_ledger_constant() {
    assert_eq!(system_program_address(), system_program::id().to_bytes().to_vec());
}

#[test]
fn tip_matches_the_ledger_transfer_encoder() {
    let from = Pubkey::new_from_array([1u8; 32]);
    let to = Pubkey::new_from_array([2u8; 32]);
    let amount = 123_456_789_012u64;

    let ours = tip(&from.to_bytes().to_vec(), &to.to_bytes().to_vec(), amount);
    let theirs = system_instruction::transfer(&from, &to, amount);

    assert_eq!(ours.program_id, theirs.program_id.to_bytes().to_vec());
    assert_eq!(ours.data, theirs.data);
    assert_eq!(ours.accounts.len(), theirs.accounts.len());
    for (a, b) in ours.accounts.iter().zip(theirs.accounts.iter()) {
        assert_eq!(a.pubkey, b.pubkey.to_bytes().to_vec());
        assert_eq!(a.is_signer, b.is_signer);
        assert_eq!(a.is_writable, b.is_writable);
    }
}

#[test]
fn tip_data_is_tag_two_then_lamports() {
    let ix = tip(&vec![1u8; 32], &vec![2u8; 32], 7);
    let mut expected = vec![2u8, 0, 0, 0];
    expected.extend_from_slice(&7u64.to_le_bytes());
    assert_eq!(ix.data, expected);
    assert!(ix.accounts[0].is_signer && ix.accounts[0].is_writable);
    assert!(!ix.accounts[1].is_signer && ix.accounts[1].is_writable);
}

#[test]
fn with_tip_appends_and_keeps_the_rest() {
    let existing = Instruction {
        program_id: vec![5u8; 32],
        accounts: vec![AccountMeta { pubkey: vec![6u8; 32], is_signer: true, is_writable: false }],
        data: vec![1, 2, 3],
    };
    let tipped = with_tip(vec![existing], &vec![1u8; 32], &vec![2u8; 32], 99);
    assert_eq!(tipped.len(), 2);
    assert_eq!(tipped[0].program_id, vec![5u8; 32]);
    assert_eq!(tipped[0].data, vec![1, 2, 3]);
    assert_eq!(tipped[1].accounts[0].pubkey, vec![1u8; 32]);
    assert_eq!(tipped[1].accounts[1].pubkey, vec![2u8; 32]);
}

#[test]
fn key_budget_accepts_small_and_rejects_huge_lists() {
    let small = vec![tip(&vec![1u8; 32], &vec![2u8; 32], 1)];
    assert!(fits_key_budget(&small));

    let mut metas = Vec::new();
    for i in 0..300u16 {
        metas.push(AccountMeta {
            pubkey: vec![(i % 251) as u8; 32],
            is_signer: false,
            is_writable: false,
        });
    }
    let huge = vec![Instruction { program_id: vec![0u8; 32], accounts: metas, data: Vec::new() }];
    assert!(!fits_key_budget(&huge));
}
