//! End-to-end runs of the three flows against the executable ledger.

use stricter_abi_bug::instruction::{FlowError, Step};
use stricter_abi_bug::layout::Rent;
use stricter_abi_bug::ledger::Account;
use stricter_abi_bug::pubkey::{Pubkey, SYSTEM_PROGRAM_ID, TOKEN_2022_PROGRAM_ID};
use stricter_abi_bug::process_instruction;
use stricter_abi_bug::sim::Ledger;

pub const PAYER: Pubkey = [0xaa; 32];
pub const MINT: Pubkey = [0xbb; 32];
pub const GROUP: Pubkey = [0xcc; 32];

const DEMO_METADATA: [u8; 23] = [
    4, 0, 0, 0, 116, 101, 115, 116, 3, 0, 0, 0, 83, 82, 83, 4, 0, 0, 0, 116, 101, 115, 116,
];

fn rent() -> Rent {
    Rent { lamports_per_byte_year: 3480 }
}

fn empty_account() -> Account {
    Account {
        owner: SYSTEM_PROGRAM_ID,
        lamports: 0,
        data_len: 0,
        metadata_pointer: None,
        group_pointer: None,
        member_pointer: None,
        mint: None,
        metadata: None,
        group: None,
        member: None,
    }
}

fn funded_payer() -> Account {
    let mut a = empty_account();
    a.lamports = 100_000_000_000u64;
    a
}

fn setup_ledger() -> Ledger {
    let mut l = Ledger::new();
    l.put(PAYER, funded_payer());
    l.put(MINT, empty_account());
    l.put(GROUP, empty_account());
    l
}

fn account(l: &Ledger, k: &Pubkey) -> Account {
    let i = l.find(k).expect("account should exist");
    let (_, ref a) = l.entries[i];
    Account {
        owner: a.owner,
        lamports: a.lamports,
        data_len: a.data_len,
        metadata_pointer: a.metadata_pointer,
        group_pointer: a.group_pointer,
        member_pointer: a.member_pointer,
        mint: a.mint,
        metadata: a.metadata.as_ref().map(|m| stricter_abi_bug::ledger::MetadataExt {
            update_authority: m.update_authority,
            data: m.data.clone(),
        }),
        group: a.group,
        member: a.member,
    }
}

fn run_flow(l: &mut Ledger, accounts: &Vec<Pubkey>, data: &Vec<u8>) -> Result<bool, FlowError> {
    let steps = process_instruction(accounts, data, &rent())?;
    Ok(l.run(&steps))
}

#[test]
fn mint_token() {
    let mut l = setup_ledger();
    let accounts = vec![MINT, PAYER, TOKEN_2022_PROGRAM_ID, SYSTEM_PROGRAM_ID];
    let ok = run_flow(&mut l, &accounts, &vec![0x01]).expect("flow selected");
    assert!(ok);

    let a = account(&l, &MINT);
    assert_eq!(a.owner, TOKEN_2022_PROGRAM_ID);
    assert_eq!(a.data_len, 234);
    // Funded for 234 + 80 + 23 = 337 bytes: (128 + 337) * 3480 * 2.
    assert_eq!(a.lamports, 3_236_400);
    let p = a.metadata_pointer.expect("metadata pointer placed");
    assert_eq!(p.authority, MINT);
    assert_eq!(p.target, MINT);
    let m = a.mint.expect("base mint written");
    assert_eq!(m.decimals, 0);
    assert_eq!(m.mint_authority, MINT);
    assert_eq!(m.freeze_authority, Some(MINT));
    let md = a.metadata.expect("metadata record written");
    assert_eq!(md.update_authority, MINT);
    assert_eq!(md.data, DEMO_METADATA.to_vec());
}

#[test]
fn mint_token_with_stricter_abi() {
    let mut l = setup_ledger();
    let accounts = vec![MINT, PAYER, TOKEN_2022_PROGRAM_ID, SYSTEM_PROGRAM_ID];
    let ok = run_flow(&mut l, &accounts, &vec![0x01]).expect("flow selected");
    assert!(ok);
    let a = account(&l, &MINT);
    assert_eq!(a.owner, TOKEN_2022_PROGRAM_ID);
    assert!(a.metadata.is_some());
}

#[test]
fn create_group() {
    let mut l = setup_ledger();
    let accounts = vec![MINT, PAYER, TOKEN_2022_PROGRAM_ID, SYSTEM_PROGRAM_ID];
    let ok = run_flow(&mut l, &accounts, &vec![0x02]).expect("flow selected");
    assert!(ok);

    let a = account(&l, &MINT);
    assert_eq!(a.owner, TOKEN_2022_PROGRAM_ID);
    assert_eq!(a.data_len, 234);
    // Funded for 234 + 84 = 318 bytes: (128 + 318) * 3480 * 2.
    assert_eq!(a.lamports, 3_104_160);
    let p = a.group_pointer.expect("group pointer placed");
    assert_eq!(p.authority, MINT);
    assert_eq!(p.target, MINT);
    let g = a.group.expect("group record written");
    assert_eq!(g.update_authority, MINT);
    assert_eq!(g.max_size, 100);
    assert_eq!(g.size, 0);
}

#[test]
fn create_group_with_stricter_abi() {
    let mut l = setup_ledger();
    let accounts = vec![MINT, PAYER, TOKEN_2022_PROGRAM_ID, SYSTEM_PROGRAM_ID];
    let ok = run_flow(&mut l, &accounts, &vec![0x02]).expect("flow selected");
    assert!(ok);
    let a = account(&l, &MINT);
    assert_eq!(a.owner, TOKEN_2022_PROGRAM_ID);
    assert!(a.group.is_some());
}

#[test]
fn create_member() {
    let mut l = setup_ledger();
    let accounts = vec![MINT, GROUP, PAYER, TOKEN_2022_PROGRAM_ID, SYSTEM_PROGRAM_ID];
    let ok = run_flow(&mut l, &accounts, &vec![0x03]).expect("flow selected");
    assert!(ok);

    let g = account(&l, &GROUP);
    assert_eq!(g.owner, TOKEN_2022_PROGRAM_ID);
    assert_eq!(g.data_len, 234);
    let gp = g.group_pointer.expect("group pointer placed");
    assert_eq!(gp.target, GROUP);
    let gr = g.group.expect("group record written");
    assert_eq!(gr.update_authority, GROUP);
    assert_eq!(gr.max_size, 100);
    assert_eq!(gr.size, 1);

    let m = account(&l, &MINT);
    assert_eq!(m.owner, TOKEN_2022_PROGRAM_ID);
    assert_eq!(m.data_len, 234);
    // Funded for 234 + 76 = 310 bytes: (128 + 310) * 3480 * 2.
    assert_eq!(m.lamports, 3_048_480);
    let mp = m.member_pointer.expect("member pointer placed");
    assert_eq!(mp.authority, MINT);
    assert_eq!(mp.target, MINT);
    let mr = m.member.expect("member record written");
    assert_eq!(mr.group, GROUP);
    assert_eq!(mr.member_number, 1);
}

#[test]
fn create_member_with_stricter_abi() {
    let mut l = setup_ledger();
    let accounts = vec![MINT, GROUP, PAYER, TOKEN_2022_PROGRAM_ID, SYSTEM_PROGRAM_ID];
    let ok = run_flow(&mut l, &accounts, &vec![0x03]).expect("flow selected");
    assert!(ok);
    let g = account(&l, &GROUP);
    assert!(g.group.is_some());
    let m = account(&l, &MINT);
    assert!(m.member.is_some());
}

#[test]
fn unknown_discriminator_rejected() {
    let accounts = vec![MINT, PAYER, TOKEN_2022_PROGRAM_ID, SYSTEM_PROGRAM_ID];
    let r = process_instruction(&accounts, &vec![0x09], &rent());
    assert!(matches!(r, Err(FlowError::InvalidDiscriminator)));
}

#[test]
fn empty_instruction_data_rejected() {
    let accounts = vec![MINT, PAYER, TOKEN_2022_PROGRAM_ID, SYSTEM_PROGRAM_ID];
    let r = process_instruction(&accounts, &vec![], &rent());
    assert!(matches!(r, Err(FlowError::InvalidDiscriminator)));
}

#[test]
fn too_few_accounts_rejected() {
    let accounts = vec![MINT, PAYER];
    let r = process_instruction(&accounts, &vec![0x01], &rent());
    assert!(matches!(r, Err(FlowError::MissingAccounts)));
}

#[test]
fn member_flow_needs_five_accounts() {
    let accounts = vec![MINT, PAYER, TOKEN_2022_PROGRAM_ID, SYSTEM_PROGRAM_ID];
    let r = process_instruction(&accounts, &vec![0x03], &rent());
    assert!(matches!(r, Err(FlowError::MissingAccounts)));
}

#[test]
fn replay_against_occupied_address_fails() {
    let mut l = setup_ledger();
    let accounts = vec![MINT, PAYER, TOKEN_2022_PROGRAM_ID, SYSTEM_PROGRAM_ID];
    let ok = run_flow(&mut l, &accounts, &vec![0x01]).expect("flow selected");
    assert!(ok);
    let replay = run_flow(&mut l, &accounts, &vec![0x01]).expect("flow selected");
    assert!(!replay);
}

#[test]
fn swapped_pointer_and_mint_steps_fail() {
    let mut l = setup_ledger();
    let accounts = vec![MINT, PAYER, TOKEN_2022_PROGRAM_ID, SYSTEM_PROGRAM_ID];
    let mut steps: Vec<Step> = process_instruction(&accounts, &vec![0x01], &rent()).expect("flow selected");
    steps.swap(1, 2);
    assert!(!l.run(&steps));
}

#[test]
fn underfunded_payer_fails() {
    let mut l = Ledger::new();
    let mut poor = empty_account();
    poor.lamports = 10;
    l.put(PAYER, poor);
    l.put(MINT, empty_account());
    let accounts = vec![MINT, PAYER, TOKEN_2022_PROGRAM_ID, SYSTEM_PROGRAM_ID];
    let ok = run_flow(&mut l, &accounts, &vec![0x01]).expect("flow selected");
    assert!(!ok);
}
