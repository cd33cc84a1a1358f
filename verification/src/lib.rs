//! Provisioning of extensible token-mint accounts: byte-exact instruction
//! builders for a token-extension program, an account-layout and rent
//! calculator, and three fixed provisioning flows (mint+metadata, mint+group,
//! group+member), together with a model of the hosting ledger against which
//! the flows are proved.

use vstd::prelude::*;

pub mod pubkey;
pub mod layout;
pub mod instruction;
pub mod token2022;
pub mod ledger;
pub mod sim;
pub mod instructions;
pub mod laws;

use crate::pubkey::Pubkey;
use crate::layout::Rent;
use crate::instruction::{FlowError, Step};
use crate::instructions::reproduction1::{spec_metadata_plan, spec_metadata_flow_rent_len};
use crate::instructions::reproduction2::{spec_group_plan, spec_group_flow_rent_len};
use crate::instructions::reproduction3::{spec_member_plan, spec_member_flow_rent_len};

verus! {

/// Selects a flow from the leading instruction byte and builds its step
/// list.  An empty payload or an unknown byte is rejected before anything
/// else; a flow rejects a wrongly shaped account list before any step is
/// built.  No other validation happens here: everything past this point is
/// the callee's to judge.
pub fn process_instruction(accounts: &Vec<Pubkey>, instruction_data: &Vec<u8>, rent: &Rent) -> (r: Result<
    Vec<Step>,
    FlowError,
>)
    requires
        rent.spec_minimum_balance(spec_metadata_flow_rent_len()) <= u64::MAX,
        rent.spec_minimum_balance(spec_group_flow_rent_len()) <= u64::MAX,
        rent.spec_minimum_balance(spec_member_flow_rent_len()) <= u64::MAX,
    ensures
        (instruction_data@.len() == 0 || !(1 <= instruction_data@[0] <= 3))
            ==> r == Result::<Vec<Step>, FlowError>::Err(FlowError::InvalidDiscriminator),
        instruction_data@.len() > 0 && instruction_data@[0] == 1 ==> (if accounts@.len() == 4 {
            r matches Ok(steps) && steps.deep_view() == spec_metadata_plan(
                accounts@[0]@,
                accounts@[1]@,
                *rent,
            )
        } else {
            r == Result::<Vec<Step>, FlowError>::Err(FlowError::MissingAccounts)
        }),
        instruction_data@.len() > 0 && instruction_data@[0] == 2 ==> (if accounts@.len() == 4 {
            r matches Ok(steps) && steps.deep_view() == spec_group_plan(
                accounts@[0]@,
                accounts@[1]@,
                *rent,
            )
        } else {
            r == Result::<Vec<Step>, FlowError>::Err(FlowError::MissingAccounts)
        }),
        instruction_data@.len() > 0 && instruction_data@[0] == 3 ==> (if accounts@.len() == 5 {
            r matches Ok(steps) && steps.deep_view() == spec_member_plan(
                accounts@[0]@,
                accounts@[1]@,
                accounts@[2]@,
                *rent,
            )
        } else {
            r == Result::<Vec<Step>, FlowError>::Err(FlowError::MissingAccounts)
        }),
{
    if instruction_data.len() == 0 {
        return Err(FlowError::InvalidDiscriminator);
    }
    let discriminator = instruction_data[0];
    match discriminator {
        1 => instructions::reproduction1::process_instruction(accounts, rent),
        2 => instructions::reproduction2::process_instruction(accounts, rent),
        3 => instructions::reproduction3::process_instruction(accounts, rent),
        _ => Err(FlowError::InvalidDiscriminator),
    }
}

} // verus!
