//! Byte-exactness of the instruction builders and the layout arithmetic.

use stricter_abi_bug::instruction::TokenInstruction;
use stricter_abi_bug::instructions::reproduction1::demo_metadata;
use stricter_abi_bug::layout::{mint_space, ExtensionTag, Rent};
use stricter_abi_bug::pubkey::{Pubkey, TOKEN_2022_PROGRAM_ID};
use stricter_abi_bug::token2022::encode_instruction;

const A: Pubkey = [0x11; 32];
const B: Pubkey = [0x22; 32];
const C: Pubkey = [0x33; 32];
const D: Pubkey = [0x44; 32];
const E: Pubkey = [0x55; 32];

#[test]
fn initialize_mint2_encoding() {
    let ix = encode_instruction(&TokenInstruction::InitializeMint2 {
        mint: A,
        decimals: 9,
        mint_authority: B,
        freeze_authority: Some(C),
    });
    assert_eq!(ix.program_id, TOKEN_2022_PROGRAM_ID);
    let mut expected = vec![20u8, 9];
    expected.extend_from_slice(&B);
    expected.push(1);
    expected.extend_from_slice(&C);
    assert_eq!(ix.data, expected);
    assert_eq!(ix.accounts.len(), 1);
    assert_eq!(ix.accounts[0].pubkey, A);
    assert!(ix.accounts[0].is_signer);
    assert!(ix.accounts[0].is_writable);
}

#[test]
fn initialize_mint2_without_freeze_authority() {
    let ix = encode_instruction(&TokenInstruction::InitializeMint2 {
        mint: A,
        decimals: 0,
        mint_authority: B,
        freeze_authority: None,
    });
    let mut expected = vec![20u8, 0];
    expected.extend_from_slice(&B);
    expected.push(0);
    assert_eq!(ix.data, expected);
}

#[test]
fn initialize_metadata_pointer_encoding() {
    let ix = encode_instruction(&TokenInstruction::InitializeMetadataPointer {
        mint: A,
        authority: B,
        metadata_address: C,
    });
    let mut expected = vec![39u8];
    expected.extend_from_slice(&B);
    expected.extend_from_slice(&C);
    assert_eq!(ix.data, expected);
    assert_eq!(ix.accounts.len(), 1);
    assert_eq!(ix.accounts[0].pubkey, A);
}

#[test]
fn initialize_group_pointer_encoding() {
    let ix = encode_instruction(&TokenInstruction::InitializeGroupPointer {
        mint: A,
        authority: B,
        group_address: C,
    });
    let mut expected = vec![40u8];
    expected.extend_from_slice(&B);
    expected.extend_from_slice(&C);
    assert_eq!(ix.data, expected);
}

#[test]
fn initialize_group_member_pointer_encoding() {
    let ix = encode_instruction(&TokenInstruction::InitializeGroupMemberPointer {
        mint: A,
        authority: B,
        member_address: C,
    });
    let mut expected = vec![41u8];
    expected.extend_from_slice(&B);
    expected.extend_from_slice(&C);
    assert_eq!(ix.data, expected);
}

#[test]
fn initialize_metadata_encoding() {
    let ix = encode_instruction(&TokenInstruction::InitializeMetadata {
        metadata: A,
        mint: B,
        update_authority: C,
        mint_authority: D,
        metadata_data: demo_metadata(),
    });
    let mut expected = vec![210u8];
    expected.extend_from_slice(&demo_metadata());
    assert_eq!(ix.data, expected);
    assert_eq!(ix.accounts.len(), 4);
    assert_eq!(ix.accounts[0].pubkey, A);
    assert!(!ix.accounts[0].is_signer);
    assert!(ix.accounts[0].is_writable);
    assert_eq!(ix.accounts[1].pubkey, B);
    assert_eq!(ix.accounts[2].pubkey, C);
    assert_eq!(ix.accounts[3].pubkey, D);
    assert!(ix.accounts[3].is_signer);
    assert!(!ix.accounts[3].is_writable);
}

#[test]
fn initialize_group_encoding() {
    let ix = encode_instruction(&TokenInstruction::InitializeGroup {
        group: A,
        mint: B,
        mint_authority: C,
        update_authority: D,
        max_size: 100,
    });
    let mut expected = vec![121u8];
    expected.extend_from_slice(&D);
    expected.extend_from_slice(&[100, 0, 0, 0, 0, 0, 0, 0]);
    assert_eq!(ix.data, expected);
    assert_eq!(ix.accounts.len(), 3);
    assert_eq!(ix.accounts[0].pubkey, A);
    assert!(ix.accounts[0].is_writable);
    assert_eq!(ix.accounts[1].pubkey, B);
    assert_eq!(ix.accounts[2].pubkey, C);
    assert!(ix.accounts[2].is_signer);
}

#[test]
fn initialize_group_max_size_little_endian() {
    let ix = encode_instruction(&TokenInstruction::InitializeGroup {
        group: A,
        mint: B,
        mint_authority: C,
        update_authority: D,
        max_size: 0x0102030405060708,
    });
    assert_eq!(&ix.data[33..41], &[8, 7, 6, 5, 4, 3, 2, 1]);
}

#[test]
fn initialize_member_encoding() {
    let ix = encode_instruction(&TokenInstruction::InitializeMember {
        member: A,
        mint: B,
        mint_authority: C,
        group: D,
        group_update_authority: E,
    });
    assert_eq!(ix.data, vec![152u8]);
    assert_eq!(ix.accounts.len(), 5);
    assert_eq!(ix.accounts[0].pubkey, A);
    assert!(ix.accounts[0].is_writable);
    assert_eq!(ix.accounts[1].pubkey, B);
    assert_eq!(ix.accounts[2].pubkey, C);
    assert!(ix.accounts[2].is_signer);
    assert_eq!(ix.accounts[3].pubkey, D);
    assert!(ix.accounts[3].is_writable);
    // The group update authority signs the member initialization.
    assert_eq!(ix.accounts[4].pubkey, E);
    assert!(ix.accounts[4].is_signer);
    assert!(!ix.accounts[4].is_writable);
}

#[test]
fn demo_metadata_bytes() {
    // name "test", symbol "SRS", uri "test", each with a 4-byte length prefix.
    assert_eq!(
        demo_metadata(),
        vec![4, 0, 0, 0, 116, 101, 115, 116, 3, 0, 0, 0, 83, 82, 83, 4, 0, 0, 0, 116, 101, 115, 116]
    );
}

#[test]
fn mint_space_per_extension() {
    assert_eq!(mint_space(ExtensionTag::MetadataPointer), 234);
    assert_eq!(mint_space(ExtensionTag::GroupPointer), 234);
    assert_eq!(mint_space(ExtensionTag::GroupMemberPointer), 234);
}

#[test]
fn minimum_balance_formula() {
    let rent = Rent { lamports_per_byte_year: 3480 };
    // (128 + 337) * 3480 * 2
    assert_eq!(rent.minimum_balance(337), 3_236_400);
    // A zero-length account still pays for the storage overhead.
    assert_eq!(rent.minimum_balance(0), 128 * 3480 * 2);
}
