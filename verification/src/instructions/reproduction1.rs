//! The metadata flow: provision a mint that carries a metadata pointer to
//! itself and a fixed demonstration metadata record.
//!
//! The order is strict: create the account, place the metadata pointer,
//! write the base mint, write the metadata record.  The account is sized for
//! the fixed sections only; the metadata record's bytes and fixed overhead
//! enter the rent funding but not the allocation — keeping those two
//! quantities apart is the point of the exercise.

use vstd::prelude::*;
use crate::pubkey::{Pubkey, TOKEN_2022_PROGRAM_ID};
use crate::layout::{ExtensionTag, Rent, mint_space, spec_mint_space, TOKEN_2022_METADATA_LEN};
use crate::instruction::{FlowError, Step, StepView, TokenInstruction, TokenInstructionView};

verus! {

/// The demonstration metadata: name "test", symbol "SRS", uri "test", each
/// length-prefixed.
pub open spec fn spec_demo_metadata() -> Seq<u8> {
    seq![
        4u8, 0, 0, 0, 116, 101, 115, 116,
        3, 0, 0, 0, 83, 82, 83,
        4, 0, 0, 0, 116, 101, 115, 116,
    ]
}

/// Executable counterpart of [`spec_demo_metadata`].
pub fn demo_metadata() -> (r: Vec<u8>)
    ensures
        r@ == spec_demo_metadata(),
{
    let r: Vec<u8> = vec![
        4, 0, 0, 0, 116, 101, 115, 116,
        3, 0, 0, 0, 83, 82, 83,
        4, 0, 0, 0, 116, 101, 115, 116,
    ];
    proof {
        assert(r@ =~= spec_demo_metadata());
    }
    r
}

/// Byte length the mint account is allocated.
pub open spec fn spec_metadata_flow_space() -> u64 {
    spec_mint_space(ExtensionTag::MetadataPointer)
}

/// Byte length the mint account is funded for: the allocation plus the
/// metadata record's fixed overhead and the demonstration bytes that the
/// callee appends after creation.
pub open spec fn spec_metadata_flow_rent_len() -> u64 {
    (spec_metadata_flow_space() + TOKEN_2022_METADATA_LEN + spec_demo_metadata().len()) as u64
}

/// The four steps of the metadata flow.
pub open spec fn spec_metadata_plan(mint: Seq<u8>, payer: Seq<u8>, rent: Rent) -> Seq<StepView> {
    seq![
        StepView::CreateAccount {
            from: payer,
            to: mint,
            lamports: rent.spec_minimum_balance(spec_metadata_flow_rent_len()),
            space: spec_metadata_flow_space() as int,
            owner: TOKEN_2022_PROGRAM_ID@,
        },
        StepView::Invoke(TokenInstructionView::InitializeMetadataPointer {
            mint: mint,
            authority: mint,
            metadata_address: mint,
        }),
        StepView::Invoke(TokenInstructionView::InitializeMint2 {
            mint: mint,
            decimals: 0,
            mint_authority: mint,
            freeze_authority: Some(mint),
        }),
        StepView::Invoke(TokenInstructionView::InitializeMetadata {
            metadata: mint,
            mint: mint,
            update_authority: mint,
            mint_authority: mint,
            metadata_data: spec_demo_metadata(),
        }),
    ]
}

/// Builds the metadata flow's step list for the account list
/// `[mint, payer, token-extension program, system program]`.
pub fn process_instruction(accounts: &Vec<Pubkey>, rent: &Rent) -> (r: Result<Vec<Step>, FlowError>)
    requires
        rent.spec_minimum_balance(spec_metadata_flow_rent_len()) <= u64::MAX,
    ensures
        accounts@.len() == 4 ==> (r matches Ok(steps)
            && steps.deep_view() == spec_metadata_plan(accounts@[0]@, accounts@[1]@, *rent)),
        accounts@.len() != 4 ==> r == Result::<Vec<Step>, FlowError>::Err(FlowError::MissingAccounts),
{
    if accounts.len() != 4 {
        return Err(FlowError::MissingAccounts);
    }
    let mint: Pubkey = accounts[0];
    let payer: Pubkey = accounts[1];
    let metadata = demo_metadata();

    let space = mint_space(ExtensionTag::MetadataPointer);
    let rent_len: u64 = space + TOKEN_2022_METADATA_LEN + (metadata.len() as u64);
    let lamports = rent.minimum_balance(rent_len);

    let mut steps: Vec<Step> = Vec::new();
    steps.push(Step::CreateAccount {
        from: payer,
        to: mint,
        lamports,
        space,
        owner: TOKEN_2022_PROGRAM_ID,
    });
    steps.push(Step::Invoke(TokenInstruction::InitializeMetadataPointer {
        mint,
        authority: mint,
        metadata_address: mint,
    }));
    steps.push(Step::Invoke(TokenInstruction::InitializeMint2 {
        mint,
        decimals: 0,
        mint_authority: mint,
        freeze_authority: Some(mint),
    }));
    steps.push(Step::Invoke(TokenInstruction::InitializeMetadata {
        metadata: mint,
        mint,
        update_authority: mint,
        mint_authority: mint,
        metadata_data: metadata,
    }));
    proof {
        assert(steps.deep_view() =~= spec_metadata_plan(mint@, payer@, *rent));
    }
    Ok(steps)
}

} // verus!
