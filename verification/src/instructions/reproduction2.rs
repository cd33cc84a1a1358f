//! The group flow: provision a mint that carries a group pointer to itself
//! and becomes its own group with room for one hundred members.

use vstd::prelude::*;
use crate::pubkey::{Pubkey, TOKEN_2022_PROGRAM_ID};
use crate::layout::{ExtensionTag, Rent, mint_space, spec_mint_space, TOKEN_2022_GROUP_LEN};
use crate::instruction::{FlowError, Step, StepView, TokenInstruction, TokenInstructionView};

verus! {

/// Member capacity every group provisioned here is created with.
pub const GROUP_MAX_SIZE: u64 = 100;

/// Byte length the mint account is allocated.
pub open spec fn spec_group_flow_space() -> u64 {
    spec_mint_space(ExtensionTag::GroupPointer)
}

/// Byte length the mint account is funded for: the allocation plus the group
/// record the callee appends after creation.
pub open spec fn spec_group_flow_rent_len() -> u64 {
    (spec_group_flow_space() + TOKEN_2022_GROUP_LEN) as u64
}

/// The four steps of the group flow, provisioning `mint` as its own group.
pub open spec fn spec_group_plan(mint: Seq<u8>, payer: Seq<u8>, rent: Rent) -> Seq<StepView> {
    seq![
        StepView::CreateAccount {
            from: payer,
            to: mint,
            lamports: rent.spec_minimum_balance(spec_group_flow_rent_len()),
            space: spec_group_flow_space() as int,
            owner: TOKEN_2022_PROGRAM_ID@,
        },
        StepView::Invoke(TokenInstructionView::InitializeGroupPointer {
            mint: mint,
            authority: mint,
            group_address: mint,
        }),
        StepView::Invoke(TokenInstructionView::InitializeMint2 {
            mint: mint,
            decimals: 0,
            mint_authority: mint,
            freeze_authority: Some(mint),
        }),
        StepView::Invoke(TokenInstructionView::InitializeGroup {
            group: mint,
            mint: mint,
            mint_authority: mint,
            update_authority: mint,
            max_size: GROUP_MAX_SIZE,
        }),
    ]
}

/// Appends the group flow's steps for target `mint`, paid by `payer`.
pub fn push_group_plan(steps: &mut Vec<Step>, mint: Pubkey, payer: Pubkey, rent: &Rent)
    requires
        rent.spec_minimum_balance(spec_group_flow_rent_len()) <= u64::MAX,
    ensures
        final(steps).deep_view() == old(steps).deep_view() + spec_group_plan(mint@, payer@, *rent),
{
    let space = mint_space(ExtensionTag::GroupPointer);
    let rent_len: u64 = space + TOKEN_2022_GROUP_LEN;
    let lamports = rent.minimum_balance(rent_len);

    steps.push(Step::CreateAccount {
        from: payer,
        to: mint,
        lamports,
        space,
        owner: TOKEN_2022_PROGRAM_ID,
    });
    steps.push(Step::Invoke(TokenInstruction::InitializeGroupPointer {
        mint,
        authority: mint,
        group_address: mint,
    }));
    steps.push(Step::Invoke(TokenInstruction::InitializeMint2 {
        mint,
        decimals: 0,
        mint_authority: mint,
        freeze_authority: Some(mint),
    }));
    steps.push(Step::Invoke(TokenInstruction::InitializeGroup {
        group: mint,
        mint,
        mint_authority: mint,
        update_authority: mint,
        max_size: GROUP_MAX_SIZE,
    }));
    proof {
        assert(steps.deep_view()
            =~= old(steps).deep_view() + spec_group_plan(mint@, payer@, *rent));
    }
}

/// Builds the group flow's step list for the account list
/// `[mint, payer, token-extension program, system program]`.
pub fn process_instruction(accounts: &Vec<Pubkey>, rent: &Rent) -> (r: Result<Vec<Step>, FlowError>)
    requires
        rent.spec_minimum_balance(spec_group_flow_rent_len()) <= u64::MAX,
    ensures
        accounts@.len() == 4 ==> (r matches Ok(steps)
            && steps.deep_view() == spec_group_plan(accounts@[0]@, accounts@[1]@, *rent)),
        accounts@.len() != 4 ==> r == Result::<Vec<Step>, FlowError>::Err(FlowError::MissingAccounts),
{
    if accounts.len() != 4 {
        return Err(FlowError::MissingAccounts);
    }
    let mint: Pubkey = accounts[0];
    let payer: Pubkey = accounts[1];
    let mut steps: Vec<Step> = Vec::new();
    push_group_plan(&mut steps, mint, payer, rent);
    proof {
        assert(steps.deep_view() =~= spec_group_plan(mint@, payer@, *rent));
    }
    Ok(steps)
}

} // verus!
