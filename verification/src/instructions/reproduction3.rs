//! The group-and-member flow: provision the group account exactly as the
//! group flow does, then provision a member mint that carries a member
//! pointer to itself and joins that group — the group account itself acting
//! as the signing group update authority.

use vstd::prelude::*;
use crate::pubkey::{Pubkey, TOKEN_2022_PROGRAM_ID};
use crate::layout::{ExtensionTag, Rent, mint_space, spec_mint_space, TOKEN_2022_MEMBER_LEN};
use crate::instruction::{FlowError, Step, StepView, TokenInstruction, TokenInstructionView};
use crate::instructions::reproduction2::{spec_group_plan, spec_group_flow_rent_len, push_group_plan};

verus! {

/// Byte length the member mint account is allocated.
pub open spec fn spec_member_flow_space() -> u64 {
    spec_mint_space(ExtensionTag::GroupMemberPointer)
}

/// Byte length the member mint account is funded for: the allocation plus
/// the member record the callee appends after creation.
pub open spec fn spec_member_flow_rent_len() -> u64 {
    (spec_member_flow_space() + TOKEN_2022_MEMBER_LEN) as u64
}

/// The four member-side steps: create the member mint, place its member
/// pointer, write its base mint, and join `group`.
pub open spec fn spec_member_steps(mint: Seq<u8>, group: Seq<u8>, payer: Seq<u8>, rent: Rent) -> Seq<StepView> {
    seq![
        StepView::CreateAccount {
            from: payer,
            to: mint,
            lamports: rent.spec_minimum_balance(spec_member_flow_rent_len()),
            space: spec_member_flow_space() as int,
            owner: TOKEN_2022_PROGRAM_ID@,
        },
        StepView::Invoke(TokenInstructionView::InitializeGroupMemberPointer {
            mint: mint,
            authority: mint,
            member_address: mint,
        }),
        StepView::Invoke(TokenInstructionView::InitializeMint2 {
            mint: mint,
            decimals: 0,
            mint_authority: mint,
            freeze_authority: Some(mint),
        }),
        StepView::Invoke(TokenInstructionView::InitializeMember {
            member: mint,
            mint: mint,
            mint_authority: mint,
            group: group,
            group_update_authority: group,
        }),
    ]
}

/// The whole flow: the group plan against `group`, then the member steps.
pub open spec fn spec_member_plan(mint: Seq<u8>, group: Seq<u8>, payer: Seq<u8>, rent: Rent) -> Seq<StepView> {
    spec_group_plan(group, payer, rent) + spec_member_steps(mint, group, payer, rent)
}

/// Builds the flow's step list for the account list
/// `[member mint, group, payer, token-extension program, system program]`.
pub fn process_instruction(accounts: &Vec<Pubkey>, rent: &Rent) -> (r: Result<Vec<Step>, FlowError>)
    requires
        rent.spec_minimum_balance(spec_group_flow_rent_len()) <= u64::MAX,
        rent.spec_minimum_balance(spec_member_flow_rent_len()) <= u64::MAX,
    ensures
        accounts@.len() == 5 ==> (r matches Ok(steps)
            && steps.deep_view() == spec_member_plan(accounts@[0]@, accounts@[1]@, accounts@[2]@, *rent)),
        accounts@.len() != 5 ==> r == Result::<Vec<Step>, FlowError>::Err(FlowError::MissingAccounts),
{
    if accounts.len() != 5 {
        return Err(FlowError::MissingAccounts);
    }
    let mint: Pubkey = accounts[0];
    let group: Pubkey = accounts[1];
    let payer: Pubkey = accounts[2];

    let mut steps: Vec<Step> = Vec::new();
    push_group_plan(&mut steps, group, payer, rent);

    let space = mint_space(ExtensionTag::GroupMemberPointer);
    let rent_len: u64 = space + TOKEN_2022_MEMBER_LEN;
    let lamports = rent.minimum_balance(rent_len);

    steps.push(Step::CreateAccount {
        from: payer,
        to: mint,
        lamports,
        space,
        owner: TOKEN_2022_PROGRAM_ID,
    });
    steps.push(Step::Invoke(TokenInstruction::InitializeGroupMemberPointer {
        mint,
        authority: mint,
        member_address: mint,
    }));
    steps.push(Step::Invoke(TokenInstruction::InitializeMint2 {
        mint,
        decimals: 0,
        mint_authority: mint,
        freeze_authority: Some(mint),
    }));
    steps.push(Step::Invoke(TokenInstruction::InitializeMember {
        member: mint,
        mint,
        mint_authority: mint,
        group,
        group_update_authority: group,
    }));
    proof {
        assert(steps.deep_view() =~= spec_member_plan(mint@, group@, payer@, *rent));
    }
    Ok(steps)
}

} // verus!
