//! The properties the three flows are held to, proved once and for all
//! against the step semantics of [`crate::ledger`].

use vstd::prelude::*;
use crate::pubkey::TOKEN_2022_PROGRAM_ID;
use crate::layout::Rent;
use crate::instruction::StepView;
use crate::ledger::{
    LedgerModel, MetadataModel, MintModel, PointerModel, GroupModel, MemberModel,
    spec_vacant, spec_final_len, spec_step_effect, spec_run,
};
use crate::instructions::reproduction1::{
    spec_demo_metadata, spec_metadata_plan, spec_metadata_flow_space, spec_metadata_flow_rent_len,
};
use crate::instructions::reproduction2::{
    spec_group_plan, spec_group_flow_space, spec_group_flow_rent_len, GROUP_MAX_SIZE,
};
use crate::instructions::reproduction3::{
    spec_member_plan, spec_member_flow_space, spec_member_flow_rent_len,
};

verus! {

/// What a flow needs of the world before it starts: a target address not yet
/// in use, a payer distinct from it holding at least the flow's funding.
pub open spec fn spec_flow_ready(l: LedgerModel, target: Seq<u8>, payer: Seq<u8>, lamports: int) -> bool {
    &&& target != payer
    &&& l.contains_key(payer)
    &&& l[payer].lamports >= lamports
    &&& (!l.contains_key(target) || spec_vacant(l[target]))
}

/// On any ready ledger the metadata flow succeeds, and the mint account it
/// leaves behind is owned by the token-extension program, is exactly as long
/// as the layout calculator said, holds the rent-exempt minimum for its
/// final length with the appended metadata record included, carries a
/// metadata pointer aimed at itself, the base mint, and the demonstration
/// metadata record.
pub proof fn lemma_metadata_flow(l0: LedgerModel, mint: Seq<u8>, payer: Seq<u8>, rent: Rent)
    requires
        spec_flow_ready(l0, mint, payer, rent.spec_minimum_balance(spec_metadata_flow_rent_len())),
    ensures
        (spec_run(l0, spec_metadata_plan(mint, payer, rent)) matches Some(lf) && {
            let a = lf[mint];
            &&& lf.contains_key(mint)
            &&& a.owner == TOKEN_2022_PROGRAM_ID@
            &&& a.data_len == spec_metadata_flow_space()
            &&& spec_final_len(a) == spec_metadata_flow_rent_len()
            &&& a.lamports >= rent.spec_minimum_balance(spec_metadata_flow_rent_len())
            &&& a.metadata_pointer == Some(PointerModel { authority: mint, target: mint })
            &&& a.mint == Some(MintModel { decimals: 0, mint_authority: mint, freeze_authority: Some(mint) })
            &&& a.metadata == Some(MetadataModel { update_authority: mint, data: spec_demo_metadata() })
        }),
{
    let p = spec_metadata_plan(mint, payer, rent);
    let t1 = p.subrange(1, 4);
    let t2 = p.subrange(2, 4);
    let t3 = p.subrange(3, 4);
    let t4 = p.subrange(4, 4);
    assert(t1.subrange(1, 3) =~= t2);
    assert(t2.subrange(1, 2) =~= t3);
    assert(t3.subrange(1, 1) =~= t4);
    assert(t4 =~= Seq::<StepView>::empty());

    let l1 = spec_step_effect(l0, p[0])->Some_0;
    assert(spec_step_effect(l0, p[0]) is Some);
    assert(spec_run(l0, p) == spec_run(l1, t1));
    let l2 = spec_step_effect(l1, t1[0])->Some_0;
    assert(spec_step_effect(l1, t1[0]) is Some);
    assert(spec_run(l1, t1) == spec_run(l2, t2));
    let l3 = spec_step_effect(l2, t2[0])->Some_0;
    assert(spec_step_effect(l2, t2[0]) is Some);
    assert(spec_run(l2, t2) == spec_run(l3, t3));
    let l4 = spec_step_effect(l3, t3[0])->Some_0;
    assert(spec_step_effect(l3, t3[0]) is Some);
    assert(spec_run(l3, t3) == spec_run(l4, t4));
    assert(spec_run(l4, t4) == Some(l4));
}

/// On any ready ledger the group flow succeeds, and the mint account it
/// leaves behind is owned by the token-extension program, is exactly as long
/// as the layout calculator said, holds the rent-exempt minimum for its
/// final length with the appended group record included, and carries a group
/// pointer aimed at itself, the base mint, and an empty group record with
/// the fixed member capacity.
pub proof fn lemma_group_flow(l0: LedgerModel, mint: Seq<u8>, payer: Seq<u8>, rent: Rent)
    requires
        spec_flow_ready(l0, mint, payer, rent.spec_minimum_balance(spec_group_flow_rent_len())),
    ensures
        (spec_run(l0, spec_group_plan(mint, payer, rent)) matches Some(lf) && {
            let a = lf[mint];
            &&& lf.contains_key(mint)
            &&& a.owner == TOKEN_2022_PROGRAM_ID@
            &&& a.data_len == spec_group_flow_space()
            &&& spec_final_len(a) == spec_group_flow_rent_len()
            &&& a.lamports >= rent.spec_minimum_balance(spec_group_flow_rent_len())
            &&& a.group_pointer == Some(PointerModel { authority: mint, target: mint })
            &&& a.mint == Some(MintModel { decimals: 0, mint_authority: mint, freeze_authority: Some(mint) })
            &&& a.group == Some(GroupModel { update_authority: mint, max_size: GROUP_MAX_SIZE as int, size: 0 })
        }),
{
    let p = spec_group_plan(mint, payer, rent);
    let t1 = p.subrange(1, 4);
    let t2 = p.subrange(2, 4);
    let t3 = p.subrange(3, 4);
    let t4 = p.subrange(4, 4);
    assert(t1.subrange(1, 3) =~= t2);
    assert(t2.subrange(1, 2) =~= t3);
    assert(t3.subrange(1, 1) =~= t4);
    assert(t4 =~= Seq::<StepView>::empty());

    let l1 = spec_step_effect(l0, p[0])->Some_0;
    assert(spec_step_effect(l0, p[0]) is Some);
    assert(spec_run(l0, p) == spec_run(l1, t1));
    let l2 = spec_step_effect(l1, t1[0])->Some_0;
    assert(spec_step_effect(l1, t1[0]) is Some);
    assert(spec_run(l1, t1) == spec_run(l2, t2));
    let l3 = spec_step_effect(l2, t2[0])->Some_0;
    assert(spec_step_effect(l2, t2[0]) is Some);
    assert(spec_run(l2, t2) == spec_run(l3, t3));
    let l4 = spec_step_effect(l3, t3[0])->Some_0;
    assert(spec_step_effect(l3, t3[0]) is Some);
    assert(spec_run(l3, t3) == spec_run(l4, t4));
    assert(spec_run(l4, t4) == Some(l4));
}

/// On any ready ledger the group-and-member flow succeeds.  The group
/// account ends fully initialized — self-aimed group pointer, base mint, and
/// a group record whose size has grown to one — and the member mint ends
/// with a self-aimed member pointer, a base mint, and a member record whose
/// group reference is exactly the group account's address.  The member
/// record can only have been written after the group record existed: the
/// member step demands an initialized group, and no step past the group's
/// initialization precedes it.  Both accounts are sized by the layout
/// calculator and funded to the rent-exempt minimum of their final lengths.
pub proof fn lemma_member_flow(l0: LedgerModel, mint: Seq<u8>, group: Seq<u8>, payer: Seq<u8>, rent: Rent)
    requires
        mint != payer,
        group != payer,
        mint != group,
        l0.contains_key(payer),
        l0[payer].lamports >= rent.spec_minimum_balance(spec_group_flow_rent_len())
            + rent.spec_minimum_balance(spec_member_flow_rent_len()),
        !l0.contains_key(group) || spec_vacant(l0[group]),
        !l0.contains_key(mint) || spec_vacant(l0[mint]),
    ensures
        (spec_run(l0, spec_member_plan(mint, group, payer, rent)) matches Some(lf) && {
            let g = lf[group];
            let m = lf[mint];
            &&& lf.contains_key(group)
            &&& lf.contains_key(mint)
            &&& g.owner == TOKEN_2022_PROGRAM_ID@
            &&& g.data_len == spec_group_flow_space()
            &&& spec_final_len(g) == spec_group_flow_rent_len()
            &&& g.lamports >= rent.spec_minimum_balance(spec_group_flow_rent_len())
            &&& g.group_pointer == Some(PointerModel { authority: group, target: group })
            &&& g.mint == Some(MintModel { decimals: 0, mint_authority: group, freeze_authority: Some(group) })
            &&& g.group == Some(GroupModel { update_authority: group, max_size: GROUP_MAX_SIZE as int, size: 1 })
            &&& m.owner == TOKEN_2022_PROGRAM_ID@
            &&& m.data_len == spec_member_flow_space()
            &&& spec_final_len(m) == spec_member_flow_rent_len()
            &&& m.lamports >= rent.spec_minimum_balance(spec_member_flow_rent_len())
            &&& m.member_pointer == Some(PointerModel { authority: mint, target: mint })
            &&& m.mint == Some(MintModel { decimals: 0, mint_authority: mint, freeze_authority: Some(mint) })
            &&& m.member == Some(MemberModel { group: group, member_number: 1 })
        }),
{
    let p = spec_member_plan(mint, group, payer, rent);
    assert(p.len() == 8);
    let t1 = p.subrange(1, 8);
    let t2 = p.subrange(2, 8);
    let t3 = p.subrange(3, 8);
    let t4 = p.subrange(4, 8);
    let t5 = p.subrange(5, 8);
    let t6 = p.subrange(6, 8);
    let t7 = p.subrange(7, 8);
    let t8 = p.subrange(8, 8);
    assert(t1.subrange(1, 7) =~= t2);
    assert(t2.subrange(1, 6) =~= t3);
    assert(t3.subrange(1, 5) =~= t4);
    assert(t4.subrange(1, 4) =~= t5);
    assert(t5.subrange(1, 3) =~= t6);
    assert(t6.subrange(1, 2) =~= t7);
    assert(t7.subrange(1, 1) =~= t8);
    assert(t8 =~= Seq::<StepView>::empty());

    let l1 = spec_step_effect(l0, p[0])->Some_0;
    assert(spec_step_effect(l0, p[0]) is Some);
    assert(spec_run(l0, p) == spec_run(l1, t1));
    let l2 = spec_step_effect(l1, t1[0])->Some_0;
    assert(spec_step_effect(l1, t1[0]) is Some);
    assert(spec_run(l1, t1) == spec_run(l2, t2));
    let l3 = spec_step_effect(l2, t2[0])->Some_0;
    assert(spec_step_effect(l2, t2[0]) is Some);
    assert(spec_run(l2, t2) == spec_run(l3, t3));
    let l4 = spec_step_effect(l3, t3[0])->Some_0;
    assert(spec_step_effect(l3, t3[0]) is Some);
    assert(spec_run(l3, t3) == spec_run(l4, t4));
    let l5 = spec_step_effect(l4, t4[0])->Some_0;
    assert(spec_step_effect(l4, t4[0]) is Some);
    assert(spec_run(l4, t4) == spec_run(l5, t5));
    let l6 = spec_step_effect(l5, t5[0])->Some_0;
    assert(spec_step_effect(l5, t5[0]) is Some);
    assert(spec_run(l5, t5) == spec_run(l6, t6));
    let l7 = spec_step_effect(l6, t6[0])->Some_0;
    assert(spec_step_effect(l6, t6[0]) is Some);
    assert(spec_run(l6, t6) == spec_run(l7, t7));
    let l8 = spec_step_effect(l7, t7[0])->Some_0;
    assert(spec_step_effect(l7, t7[0]) is Some);
    assert(spec_run(l7, t7) == spec_run(l8, t8));
    assert(spec_run(l8, t8) == Some(l8));
}

/// Replaying the metadata flow against an address that already holds a
/// non-empty account fails outright — the creation step reports the address
/// in use, and a failed run mutates nothing.
pub proof fn lemma_metadata_replay_rejected(l0: LedgerModel, mint: Seq<u8>, payer: Seq<u8>, rent: Rent)
    requires
        l0.contains_key(mint),
        !spec_vacant(l0[mint]),
    ensures
        spec_run(l0, spec_metadata_plan(mint, payer, rent)) is None,
{
    let p = spec_metadata_plan(mint, payer, rent);
    assert(spec_step_effect(l0, p[0]) is None);
}

/// Replaying the group flow against an occupied address fails outright.
pub proof fn lemma_group_replay_rejected(l0: LedgerModel, mint: Seq<u8>, payer: Seq<u8>, rent: Rent)
    requires
        l0.contains_key(mint),
        !spec_vacant(l0[mint]),
    ensures
        spec_run(l0, spec_group_plan(mint, payer, rent)) is None,
{
    let p = spec_group_plan(mint, payer, rent);
    assert(spec_step_effect(l0, p[0]) is None);
}

/// Replaying the group-and-member flow against an occupied group address
/// fails outright.
pub proof fn lemma_member_replay_rejected_group(l0: LedgerModel, mint: Seq<u8>, group: Seq<u8>, payer: Seq<u8>, rent: Rent)
    requires
        l0.contains_key(group),
        !spec_vacant(l0[group]),
    ensures
        spec_run(l0, spec_member_plan(mint, group, payer, rent)) is None,
{
    let p = spec_member_plan(mint, group, payer, rent);
    assert(spec_step_effect(l0, p[0]) is None);
}

/// Replaying the group-and-member flow when the member-mint address is the
/// occupied one also fails: the group-side steps touch only the group and
/// the payer, so the occupied account is still in place when its creation is
/// attempted, whichever earlier step might have failed first.
pub proof fn lemma_member_replay_rejected_mint(l0: LedgerModel, mint: Seq<u8>, group: Seq<u8>, payer: Seq<u8>, rent: Rent)
    requires
        l0.contains_key(mint),
        !spec_vacant(l0[mint]),
        mint != payer,
        mint != group,
    ensures
        spec_run(l0, spec_member_plan(mint, group, payer, rent)) is None,
{
    let p = spec_member_plan(mint, group, payer, rent);
    assert(p.len() == 8);
    let t1 = p.subrange(1, 8);
    let t2 = p.subrange(2, 8);
    let t3 = p.subrange(3, 8);
    let t4 = p.subrange(4, 8);
    assert(t1.subrange(1, 7) =~= t2);
    assert(t2.subrange(1, 6) =~= t3);
    assert(t3.subrange(1, 5) =~= t4);
    if spec_step_effect(l0, p[0]) is Some {
        let l1 = spec_step_effect(l0, p[0])->Some_0;
        assert(spec_run(l0, p) == spec_run(l1, t1));
        assert(l1[mint] == l0[mint]);
        if spec_step_effect(l1, t1[0]) is Some {
            let l2 = spec_step_effect(l1, t1[0])->Some_0;
            assert(spec_run(l1, t1) == spec_run(l2, t2));
            assert(l2[mint] == l0[mint]);
            if spec_step_effect(l2, t2[0]) is Some {
                let l3 = spec_step_effect(l2, t2[0])->Some_0;
                assert(spec_run(l2, t2) == spec_run(l3, t3));
                assert(l3[mint] == l0[mint]);
                if spec_step_effect(l3, t3[0]) is Some {
                    let l4 = spec_step_effect(l3, t3[0])->Some_0;
                    assert(spec_run(l3, t3) == spec_run(l4, t4));
                    assert(l4[mint] == l0[mint]);
                    assert(spec_step_effect(l4, t4[0]) is None);
                }
            }
        }
    }
}

/// `p` with the entries at `i` and `j` exchanged.
pub open spec fn spec_swap_steps(p: Seq<StepView>, i: int, j: int) -> Seq<StepView> {
    p.update(i, p[j]).update(j, p[i])
}

/// Running the metadata flow with its pointer-initialization and
/// base-mint-initialization steps exchanged fails on any ledger: the freshly
/// created account is sized for the extended layout, and the callee refuses
/// a base mint of that length with no extension placed.
pub proof fn lemma_metadata_swapped_rejected(l0: LedgerModel, mint: Seq<u8>, payer: Seq<u8>, rent: Rent)
    ensures
        spec_run(l0, spec_swap_steps(spec_metadata_plan(mint, payer, rent), 1, 2)) is None,
{
    let p = spec_metadata_plan(mint, payer, rent);
    let q = spec_swap_steps(p, 1, 2);
    assert(q[0] == p[0]);
    assert(q[1] == p[2]);
    let u1 = q.subrange(1, 4);
    if spec_step_effect(l0, q[0]) is Some {
        let l1 = spec_step_effect(l0, q[0])->Some_0;
        assert(spec_run(l0, q) == spec_run(l1, u1));
        assert(spec_step_effect(l1, u1[0]) is None);
    }
}

/// The same exchange fails the group flow on any ledger.
pub proof fn lemma_group_swapped_rejected(l0: LedgerModel, mint: Seq<u8>, payer: Seq<u8>, rent: Rent)
    ensures
        spec_run(l0, spec_swap_steps(spec_group_plan(mint, payer, rent), 1, 2)) is None,
{
    let p = spec_group_plan(mint, payer, rent);
    let q = spec_swap_steps(p, 1, 2);
    assert(q[0] == p[0]);
    assert(q[1] == p[2]);
    let u1 = q.subrange(1, 4);
    if spec_step_effect(l0, q[0]) is Some {
        let l1 = spec_step_effect(l0, q[0])->Some_0;
        assert(spec_run(l0, q) == spec_run(l1, u1));
        assert(spec_step_effect(l1, u1[0]) is None);
    }
}

/// Exchanging the group-side pointer and base-mint steps fails the
/// group-and-member flow on any ledger.
pub proof fn lemma_member_swapped_rejected_group_side(l0: LedgerModel, mint: Seq<u8>, group: Seq<u8>, payer: Seq<u8>, rent: Rent)
    ensures
        spec_run(l0, spec_swap_steps(spec_member_plan(mint, group, payer, rent), 1, 2)) is None,
{
    let p = spec_member_plan(mint, group, payer, rent);
    let q = spec_swap_steps(p, 1, 2);
    assert(q[0] == p[0]);
    assert(q[1] == p[2]);
    let u1 = q.subrange(1, 8);
    if spec_step_effect(l0, q[0]) is Some {
        let l1 = spec_step_effect(l0, q[0])->Some_0;
        assert(spec_run(l0, q) == spec_run(l1, u1));
        assert(spec_step_effect(l1, u1[0]) is None);
    }
}

/// Exchanging the member-side pointer and base-mint steps fails the
/// group-and-member flow on any ledger: whatever became of the group-side
/// steps, the member mint is freshly created when the exchanged base-mint
/// step runs, and the callee refuses it.
pub proof fn lemma_member_swapped_rejected_member_side(l0: LedgerModel, mint: Seq<u8>, group: Seq<u8>, payer: Seq<u8>, rent: Rent)
    ensures
        spec_run(l0, spec_swap_steps(spec_member_plan(mint, group, payer, rent), 5, 6)) is None,
{
    let p = spec_member_plan(mint, group, payer, rent);
    let q = spec_swap_steps(p, 5, 6);
    assert(q[0] == p[0]);
    assert(q[1] == p[1]);
    assert(q[2] == p[2]);
    assert(q[3] == p[3]);
    assert(q[4] == p[4]);
    assert(q[5] == p[6]);
    let u1 = q.subrange(1, 8);
    let u2 = q.subrange(2, 8);
    let u3 = q.subrange(3, 8);
    let u4 = q.subrange(4, 8);
    let u5 = q.subrange(5, 8);
    let u6 = q.subrange(6, 8);
    assert(u1.subrange(1, 7) =~= u2);
    assert(u2.subrange(1, 6) =~= u3);
    assert(u3.subrange(1, 5) =~= u4);
    assert(u4.subrange(1, 4) =~= u5);
    assert(u5.subrange(1, 3) =~= u6);
    if spec_step_effect(l0, q[0]) is Some {
        let l1 = spec_step_effect(l0, q[0])->Some_0;
        assert(spec_run(l0, q) == spec_run(l1, u1));
        if spec_step_effect(l1, u1[0]) is Some {
            let l2 = spec_step_effect(l1, u1[0])->Some_0;
            assert(spec_run(l1, u1) == spec_run(l2, u2));
            if spec_step_effect(l2, u2[0]) is Some {
                let l3 = spec_step_effect(l2, u2[0])->Some_0;
                assert(spec_run(l2, u2) == spec_run(l3, u3));
                if spec_step_effect(l3, u3[0]) is Some {
                    let l4 = spec_step_effect(l3, u3[0])->Some_0;
                    assert(spec_run(l3, u3) == spec_run(l4, u4));
                    if spec_step_effect(l4, u4[0]) is Some {
                        let l5 = spec_step_effect(l4, u4[0])->Some_0;
                        assert(spec_run(l4, u4) == spec_run(l5, u5));
                        assert(spec_step_effect(l5, u5[0]) is None);
                    }
                }
            }
        }
    }
}

} // verus!
