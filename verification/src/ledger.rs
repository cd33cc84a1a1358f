//! A model of the hosting ledger and of the callee's initialization rules.
//!
//! The flows themselves only emit [`Step`]s; what those steps do to accounts
//! is the business of the surrounding execution environment and of the
//! token-extension program.  This module pins that behaviour down as a
//! mathematical transition function ([`spec_step_effect`]) — account creation
//! as the system program enforces it, and each initialization as the callee's
//! published rules describe it — and provides an executable ledger that is
//! proved to implement the same semantics, so that whole flows can be run and
//! examined off-chain.
//!
//! A failing step yields `None`: the environment discards every mutation of a
//! failed instruction as a unit, so no partial state is ever modelled.

use vstd::prelude::*;
use crate::pubkey::{Pubkey, SYSTEM_PROGRAM_ID, TOKEN_2022_PROGRAM_ID};
use crate::layout::{
    TOKEN_2022_MINT_LEN, TOKEN_2022_MINT_BASE_LEN, TOKEN_2022_METADATA_POINTER_LEN,
    TOKEN_2022_GROUP_POINTER_LEN, TOKEN_2022_MEMBER_POINTER_LEN, TOKEN_2022_METADATA_LEN,
    TOKEN_2022_GROUP_LEN, TOKEN_2022_MEMBER_LEN, MAX_ACCOUNT_DATA_LEN,
};
use crate::instruction::{StepView, TokenInstructionView};

verus! {

// ---------------------------------------------------------------------------
// The mathematical account model.
// ---------------------------------------------------------------------------

/// A pointer extension: who may retarget it, and where the extension data
/// lives.
pub ghost struct PointerModel {
    pub authority: Seq<u8>,
    pub target: Seq<u8>,
}

/// The base mint fields.
pub ghost struct MintModel {
    pub decimals: u8,
    pub mint_authority: Seq<u8>,
    pub freeze_authority: Option<Seq<u8>>,
}

/// A metadata record: its update authority and the encoded name, symbol and
/// uri bytes.
pub ghost struct MetadataModel {
    pub update_authority: Seq<u8>,
    pub data: Seq<u8>,
}

/// A group record.
pub ghost struct GroupModel {
    pub update_authority: Seq<u8>,
    pub max_size: int,
    pub size: int,
}

/// A member record: the group it belongs to and its one-based number.
pub ghost struct MemberModel {
    pub group: Seq<u8>,
    pub member_number: int,
}

/// One account as the model sees it.
pub ghost struct AccountModel {
    pub owner: Seq<u8>,
    pub lamports: int,
    pub data_len: int,
    pub metadata_pointer: Option<PointerModel>,
    pub group_pointer: Option<PointerModel>,
    pub member_pointer: Option<PointerModel>,
    pub mint: Option<MintModel>,
    pub metadata: Option<MetadataModel>,
    pub group: Option<GroupModel>,
    pub member: Option<MemberModel>,
}

/// The ledger: every known address and its account.
pub type LedgerModel = Map<Seq<u8>, AccountModel>;

/// An account indistinguishable from one that never existed: no funds, no
/// data, owned by the system program.
pub open spec fn spec_vacant(a: AccountModel) -> bool {
    &&& a.owner == SYSTEM_PROGRAM_ID@
    &&& a.lamports == 0
    &&& a.data_len == 0
    &&& a.metadata_pointer is None
    &&& a.group_pointer is None
    &&& a.member_pointer is None
    &&& a.mint is None
    &&& a.metadata is None
    &&& a.group is None
    &&& a.member is None
}

/// A just-created account: allocated, funded, assigned, nothing initialized.
pub open spec fn spec_fresh(owner: Seq<u8>, lamports: int, space: int) -> AccountModel {
    AccountModel {
        owner,
        lamports,
        data_len: space,
        metadata_pointer: None,
        group_pointer: None,
        member_pointer: None,
        mint: None,
        metadata: None,
        group: None,
        member: None,
    }
}

/// Total fixed size of the pointer extensions placed on `a` so far.
pub open spec fn spec_placed_len(a: AccountModel) -> int {
    (if a.metadata_pointer is Some { TOKEN_2022_METADATA_POINTER_LEN as int } else { 0 })
        + (if a.group_pointer is Some { TOKEN_2022_GROUP_POINTER_LEN as int } else { 0 })
        + (if a.member_pointer is Some { TOKEN_2022_MEMBER_POINTER_LEN as int } else { 0 })
}

/// Byte length of the records the callee has appended to `a` after its
/// creation: a metadata record is its fixed overhead plus the encoded bytes;
/// group and member records are fixed-size.  The allocated `data_len` never
/// changes, so this is tracked apart from it.
pub open spec fn spec_record_len(a: AccountModel) -> int {
    (match a.metadata {
        Some(m) => TOKEN_2022_METADATA_LEN + m.data.len(),
        None => 0,
    })
        + (if a.group is Some { TOKEN_2022_GROUP_LEN as int } else { 0 })
        + (if a.member is Some { TOKEN_2022_MEMBER_LEN as int } else { 0 })
}

/// The account's final byte length: the allocation fixed at creation plus
/// every record appended afterwards.  This is the length the rent-exemption
/// rule is measured against.
pub open spec fn spec_final_len(a: AccountModel) -> int {
    a.data_len + spec_record_len(a)
}

/// Whether one more pointer extension of fixed size `ext_len` may be placed
/// on `a`: the callee owns the account, the base mint is not yet written (an
/// extension cannot be declared after the mint exists), and the allocation
/// has room for the extended layout.
pub open spec fn spec_can_place_pointer(a: AccountModel, ext_len: int) -> bool {
    &&& a.owner == TOKEN_2022_PROGRAM_ID@
    &&& a.mint is None
    &&& TOKEN_2022_MINT_LEN + TOKEN_2022_MINT_BASE_LEN + spec_placed_len(a) + ext_len <= a.data_len
}

// ---------------------------------------------------------------------------
// Step semantics.
// ---------------------------------------------------------------------------

/// Account creation: fails when the target already holds a non-empty account,
/// the payer cannot cover the transfer, or the allocation exceeds the
/// environment's cap; otherwise debits the payer and installs a fresh account
/// of `space` bytes owned by `owner`.
pub open spec fn spec_create_effect(
    l: LedgerModel,
    from: Seq<u8>,
    to: Seq<u8>,
    lamports: int,
    space: int,
    owner: Seq<u8>,
) -> Option<LedgerModel> {
    if l.contains_key(from) && l[from].lamports >= lamports
        && 0 <= space <= MAX_ACCOUNT_DATA_LEN
        && (!l.contains_key(to) || spec_vacant(l[to])) {
        let payer = AccountModel { lamports: l[from].lamports - lamports, ..l[from] };
        Some(l.insert(from, payer).insert(to, spec_fresh(owner, lamports, space)))
    } else {
        None
    }
}

/// Places a metadata-pointer extension on `mint`.
pub open spec fn spec_metadata_pointer_effect(
    l: LedgerModel,
    mint: Seq<u8>,
    authority: Seq<u8>,
    target: Seq<u8>,
) -> Option<LedgerModel> {
    if l.contains_key(mint) && l[mint].metadata_pointer is None
        && spec_can_place_pointer(l[mint], TOKEN_2022_METADATA_POINTER_LEN as int) {
        Some(l.insert(mint, AccountModel {
            metadata_pointer: Some(PointerModel { authority, target }),
            ..l[mint]
        }))
    } else {
        None
    }
}

/// Places a group-pointer extension on `mint`.
pub open spec fn spec_group_pointer_effect(
    l: LedgerModel,
    mint: Seq<u8>,
    authority: Seq<u8>,
    target: Seq<u8>,
) -> Option<LedgerModel> {
    if l.contains_key(mint) && l[mint].group_pointer is None
        && spec_can_place_pointer(l[mint], TOKEN_2022_GROUP_POINTER_LEN as int) {
        Some(l.insert(mint, AccountModel {
            group_pointer: Some(PointerModel { authority, target }),
            ..l[mint]
        }))
    } else {
        None
    }
}

/// Places a group-member-pointer extension on `mint`.
pub open spec fn spec_member_pointer_effect(
    l: LedgerModel,
    mint: Seq<u8>,
    authority: Seq<u8>,
    target: Seq<u8>,
) -> Option<LedgerModel> {
    if l.contains_key(mint) && l[mint].member_pointer is None
        && spec_can_place_pointer(l[mint], TOKEN_2022_MEMBER_POINTER_LEN as int) {
        Some(l.insert(mint, AccountModel {
            member_pointer: Some(PointerModel { authority, target }),
            ..l[mint]
        }))
    } else {
        None
    }
}

/// Writes the base mint fields.  The callee accepts this only when the
/// account's length is exactly what the extensions placed so far call for: a
/// bare mint, or the extended layout plus every placed fixed section.  An
/// account sized for a pointer extension that was never placed is rejected —
/// this is what makes the initialization order strict.
pub open spec fn spec_mint2_effect(
    l: LedgerModel,
    mint: Seq<u8>,
    decimals: u8,
    mint_authority: Seq<u8>,
    freeze_authority: Option<Seq<u8>>,
) -> Option<LedgerModel> {
    if l.contains_key(mint) && l[mint].owner == TOKEN_2022_PROGRAM_ID@ && l[mint].mint is None
        && (if spec_placed_len(l[mint]) == 0 {
            l[mint].data_len == TOKEN_2022_MINT_LEN as int
        } else {
            l[mint].data_len == TOKEN_2022_MINT_LEN + TOKEN_2022_MINT_BASE_LEN
                + spec_placed_len(l[mint])
        }) {
        Some(l.insert(mint, AccountModel {
            mint: Some(MintModel { decimals, mint_authority, freeze_authority }),
            ..l[mint]
        }))
    } else {
        None
    }
}

/// Writes a metadata record where `mint`'s metadata pointer directs.  The
/// pointer and the base mint must both exist, and the mint authority must
/// match.  The record joins the account's appended data — counted by
/// [`spec_record_len`], not by the allocation — and the callee refuses it if
/// that would take the account past the environment's cap.
pub open spec fn spec_metadata_record_effect(
    l: LedgerModel,
    metadata: Seq<u8>,
    mint: Seq<u8>,
    update_authority: Seq<u8>,
    mint_authority: Seq<u8>,
    data: Seq<u8>,
) -> Option<LedgerModel> {
    if l.contains_key(mint)
        && (l[mint].metadata_pointer matches Some(p) && p.target == metadata)
        && (l[mint].mint matches Some(m) && m.mint_authority == mint_authority)
        && l.contains_key(metadata) && l[metadata].owner == TOKEN_2022_PROGRAM_ID@
        && l[metadata].metadata is None
        && l[metadata].data_len + TOKEN_2022_METADATA_LEN + data.len() <= MAX_ACCOUNT_DATA_LEN {
        Some(l.insert(metadata, AccountModel {
            metadata: Some(MetadataModel { update_authority, data }),
            ..l[metadata]
        }))
    } else {
        None
    }
}

/// Writes a group record where `mint`'s group pointer directs, under the
/// same appended-data accounting as the metadata record.
pub open spec fn spec_group_record_effect(
    l: LedgerModel,
    group: Seq<u8>,
    mint: Seq<u8>,
    mint_authority: Seq<u8>,
    update_authority: Seq<u8>,
    max_size: int,
) -> Option<LedgerModel> {
    if l.contains_key(mint)
        && (l[mint].group_pointer matches Some(p) && p.target == group)
        && (l[mint].mint matches Some(m) && m.mint_authority == mint_authority)
        && l.contains_key(group) && l[group].owner == TOKEN_2022_PROGRAM_ID@
        && l[group].group is None
        && l[group].data_len + TOKEN_2022_GROUP_LEN <= MAX_ACCOUNT_DATA_LEN {
        Some(l.insert(group, AccountModel {
            group: Some(GroupModel { update_authority, max_size, size: 0 }),
            ..l[group]
        }))
    } else {
        None
    }
}

/// Writes a member record where `mint`'s member pointer directs.  The group
/// account must already carry a fully initialized group record with room
/// left, and the given group update authority must be the one that record
/// names; it signs the call.  The group's size grows with the new member.
pub open spec fn spec_member_record_effect(
    l: LedgerModel,
    member: Seq<u8>,
    mint: Seq<u8>,
    mint_authority: Seq<u8>,
    group: Seq<u8>,
    group_update_authority: Seq<u8>,
) -> Option<LedgerModel> {
    if member != group
        && l.contains_key(mint)
        && (l[mint].member_pointer matches Some(p) && p.target == member)
        && (l[mint].mint matches Some(m) && m.mint_authority == mint_authority)
        && l.contains_key(member) && l[member].owner == TOKEN_2022_PROGRAM_ID@
        && l[member].member is None
        && l[member].data_len + TOKEN_2022_MEMBER_LEN <= MAX_ACCOUNT_DATA_LEN
        && l.contains_key(group)
        && (l[group].group matches Some(g)
            && g.size < g.max_size
            && g.update_authority == group_update_authority) {
        let g = l[group].group->Some_0;
        Some(l
            .insert(member, AccountModel {
                member: Some(MemberModel { group, member_number: g.size + 1 }),
                ..l[member]
            })
            .insert(group, AccountModel {
                group: Some(GroupModel { size: g.size + 1, ..g }),
                ..l[group]
            }))
    } else {
        None
    }
}

/// The callee's reaction to one instruction.
pub open spec fn spec_invoke_effect(l: LedgerModel, ix: TokenInstructionView) -> Option<LedgerModel> {
    match ix {
        TokenInstructionView::InitializeMint2 { mint, decimals, mint_authority, freeze_authority } =>
            spec_mint2_effect(l, mint, decimals, mint_authority, freeze_authority),
        TokenInstructionView::InitializeMetadataPointer { mint, authority, metadata_address } =>
            spec_metadata_pointer_effect(l, mint, authority, metadata_address),
        TokenInstructionView::InitializeMetadata { metadata, mint, update_authority, mint_authority, metadata_data } =>
            spec_metadata_record_effect(l, metadata, mint, update_authority, mint_authority, metadata_data),
        TokenInstructionView::InitializeGroupPointer { mint, authority, group_address } =>
            spec_group_pointer_effect(l, mint, authority, group_address),
        TokenInstructionView::InitializeGroup { group, mint, mint_authority, update_authority, max_size } =>
            spec_group_record_effect(l, group, mint, mint_authority, update_authority, max_size as int),
        TokenInstructionView::InitializeGroupMemberPointer { mint, authority, member_address } =>
            spec_member_pointer_effect(l, mint, authority, member_address),
        TokenInstructionView::InitializeMember { member, mint, mint_authority, group, group_update_authority } =>
            spec_member_record_effect(l, member, mint, mint_authority, group, group_update_authority),
    }
}

/// The effect of one provisioning step.
pub open spec fn spec_step_effect(l: LedgerModel, step: StepView) -> Option<LedgerModel> {
    match step {
        StepView::CreateAccount { from, to, lamports, space, owner } =>
            spec_create_effect(l, from, to, lamports, space, owner),
        StepView::Invoke(ix) => spec_invoke_effect(l, ix),
    }
}

/// Runs a sequence of steps in order; the first failure fails the whole run,
/// and a failed run leaves no state at all (the environment reverts every
/// mutation of a failed instruction as a unit).
pub open spec fn spec_run(l: LedgerModel, steps: Seq<StepView>) -> Option<LedgerModel>
    decreases steps.len(),
{
    if steps.len() == 0 {
        Some(l)
    } else {
        match spec_step_effect(l, steps[0]) {
            Some(l2) => spec_run(l2, steps.subrange(1, steps.len() as int)),
            None => None,
        }
    }
}

// ---------------------------------------------------------------------------
// The executable ledger.
// ---------------------------------------------------------------------------

/// Executable form of a pointer extension.
#[derive(Clone, Copy)]
pub struct PointerExt {
    pub authority: Pubkey,
    pub target: Pubkey,
}

/// Executable form of the base mint fields.
#[derive(Clone, Copy)]
pub struct MintExt {
    pub decimals: u8,
    pub mint_authority: Pubkey,
    pub freeze_authority: Option<Pubkey>,
}

/// Executable form of a metadata record.
pub struct MetadataExt {
    pub update_authority: Pubkey,
    pub data: Vec<u8>,
}

/// Executable form of a group record.
#[derive(Clone, Copy)]
pub struct GroupExt {
    pub update_authority: Pubkey,
    pub max_size: u64,
    pub size: u64,
}

/// Executable form of a member record.
#[derive(Clone, Copy)]
pub struct MemberExt {
    pub group: Pubkey,
    pub member_number: u64,
}

/// One executable account.
pub struct Account {
    pub owner: Pubkey,
    pub lamports: u64,
    pub data_len: u64,
    pub metadata_pointer: Option<PointerExt>,
    pub group_pointer: Option<PointerExt>,
    pub member_pointer: Option<PointerExt>,
    pub mint: Option<MintExt>,
    pub metadata: Option<MetadataExt>,
    pub group: Option<GroupExt>,
    pub member: Option<MemberExt>,
}

/// View of an optional pointer extension.
pub open spec fn opt_pointer_view(o: Option<PointerExt>) -> Option<PointerModel> {
    match o {
        Option::Some(p) => Some(PointerModel { authority: p.authority@, target: p.target@ }),
        Option::None => None,
    }
}

/// View of optional base mint fields.
pub open spec fn opt_mint_view(o: Option<MintExt>) -> Option<MintModel> {
    match o {
        Option::Some(m) => Some(MintModel {
            decimals: m.decimals,
            mint_authority: m.mint_authority@,
            freeze_authority: crate::instruction::opt_key_view(m.freeze_authority),
        }),
        Option::None => None,
    }
}

/// View of an optional metadata record.
pub open spec fn opt_metadata_view(o: Option<MetadataExt>) -> Option<MetadataModel> {
    match o {
        Option::Some(m) => Some(MetadataModel { update_authority: m.update_authority@, data: m.data@ }),
        Option::None => None,
    }
}

/// View of an optional group record.
pub open spec fn opt_group_view(o: Option<GroupExt>) -> Option<GroupModel> {
    match o {
        Option::Some(g) => Some(GroupModel {
            update_authority: g.update_authority@,
            max_size: g.max_size as int,
            size: g.size as int,
        }),
        Option::None => None,
    }
}

/// View of an optional member record.
pub open spec fn opt_member_view(o: Option<MemberExt>) -> Option<MemberModel> {
    match o {
        Option::Some(m) => Some(MemberModel { group: m.group@, member_number: m.member_number as int }),
        Option::None => None,
    }
}

impl View for Account {
    type V = AccountModel;

    open spec fn view(&self) -> AccountModel {
        AccountModel {
            owner: self.owner@,
            lamports: self.lamports as int,
            data_len: self.data_len as int,
            metadata_pointer: opt_pointer_view(self.metadata_pointer),
            group_pointer: opt_pointer_view(self.group_pointer),
            member_pointer: opt_pointer_view(self.member_pointer),
            mint: opt_mint_view(self.mint),
            metadata: opt_metadata_view(self.metadata),
            group: opt_group_view(self.group),
            member: opt_member_view(self.member),
        }
    }
}

} // verus!
