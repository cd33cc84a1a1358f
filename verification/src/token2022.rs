//! Byte-exact builders for the token-extension program's entry points.
//!
//! Every payload is one discriminator byte followed by fixed-width fields in
//! a fixed order: 32-byte raw addresses, unsigned little-endian integers, and
//! a presence byte before each optional field.  The account-reference list of
//! each operation, with its signer/writable flags, is likewise fixed.
//! Builders validate nothing: arguments are taken as given and the callee is
//! the sole judge of them.

use vstd::prelude::*;
use crate::pubkey::{Pubkey, TOKEN_2022_PROGRAM_ID};
use crate::instruction::{AccountMeta, AccountMetaView, Instruction, InstructionView, TokenInstruction, TokenInstructionView};

verus! {

/// Discriminator of the base-mint initialization.
pub const INITIALIZE_MINT2_DISCRIMINATOR: u8 = 20;

/// Discriminator of the metadata-pointer initialization.
pub const INITIALIZE_METADATA_POINTER_DISCRIMINATOR: u8 = 39;

/// Discriminator of the group-pointer initialization.
pub const INITIALIZE_GROUP_POINTER_DISCRIMINATOR: u8 = 40;

/// Discriminator of the group-member-pointer initialization.
pub const INITIALIZE_GROUP_MEMBER_POINTER_DISCRIMINATOR: u8 = 41;

/// Discriminator of the metadata-record initialization.
pub const INITIALIZE_METADATA_DISCRIMINATOR: u8 = 210;

/// Discriminator of the group-record initialization.
pub const INITIALIZE_GROUP_DISCRIMINATOR: u8 = 121;

/// Discriminator of the member-record initialization.
pub const INITIALIZE_MEMBER_DISCRIMINATOR: u8 = 152;

/// The eight bytes of `v`, least significant first.
pub open spec fn spec_u64_le(v: u64) -> Seq<u8> {
    seq![
        (v & 0xff) as u8,
        ((v >> 8) & 0xff) as u8,
        ((v >> 16) & 0xff) as u8,
        ((v >> 24) & 0xff) as u8,
        ((v >> 32) & 0xff) as u8,
        ((v >> 40) & 0xff) as u8,
        ((v >> 48) & 0xff) as u8,
        ((v >> 56) & 0xff) as u8,
    ]
}

/// Presence byte plus the address, or a lone zero byte.
pub open spec fn spec_optional_key(o: Option<Seq<u8>>) -> Seq<u8> {
    match o {
        Option::Some(k) => seq![1u8] + k,
        Option::None => seq![0u8],
    }
}

/// Payload of each operation.
pub open spec fn spec_instruction_data(ix: TokenInstructionView) -> Seq<u8> {
    match ix {
        TokenInstructionView::InitializeMint2 { mint: _, decimals, mint_authority, freeze_authority } =>
            seq![INITIALIZE_MINT2_DISCRIMINATOR, decimals] + mint_authority
                + spec_optional_key(freeze_authority),
        TokenInstructionView::InitializeMetadataPointer { mint: _, authority, metadata_address } =>
            seq![INITIALIZE_METADATA_POINTER_DISCRIMINATOR] + authority + metadata_address,
        TokenInstructionView::InitializeMetadata { metadata_data, .. } =>
            seq![INITIALIZE_METADATA_DISCRIMINATOR] + metadata_data,
        TokenInstructionView::InitializeGroupPointer { mint: _, authority, group_address } =>
            seq![INITIALIZE_GROUP_POINTER_DISCRIMINATOR] + authority + group_address,
        TokenInstructionView::InitializeGroup { group: _, mint: _, mint_authority: _, update_authority, max_size } =>
            seq![INITIALIZE_GROUP_DISCRIMINATOR] + update_authority + spec_u64_le(max_size),
        TokenInstructionView::InitializeGroupMemberPointer { mint: _, authority, member_address } =>
            seq![INITIALIZE_GROUP_MEMBER_POINTER_DISCRIMINATOR] + authority + member_address,
        TokenInstructionView::InitializeMember { .. } =>
            seq![INITIALIZE_MEMBER_DISCRIMINATOR],
    }
}

/// A writable signer reference.
pub open spec fn spec_meta_signer_writable(k: Seq<u8>) -> AccountMetaView {
    AccountMetaView { pubkey: k, is_signer: true, is_writable: true }
}

/// A writable, non-signing reference.
pub open spec fn spec_meta_writable(k: Seq<u8>) -> AccountMetaView {
    AccountMetaView { pubkey: k, is_signer: false, is_writable: true }
}

/// A read-only signer reference.
pub open spec fn spec_meta_signer(k: Seq<u8>) -> AccountMetaView {
    AccountMetaView { pubkey: k, is_signer: true, is_writable: false }
}

/// A read-only, non-signing reference.
pub open spec fn spec_meta_readonly(k: Seq<u8>) -> AccountMetaView {
    AccountMetaView { pubkey: k, is_signer: false, is_writable: false }
}

/// Ordered account-reference list of each operation.
pub open spec fn spec_instruction_accounts(ix: TokenInstructionView) -> Seq<AccountMetaView> {
    match ix {
        TokenInstructionView::InitializeMint2 { mint, .. } =>
            seq![spec_meta_signer_writable(mint)],
        TokenInstructionView::InitializeMetadataPointer { mint, .. } =>
            seq![spec_meta_signer_writable(mint)],
        TokenInstructionView::InitializeMetadata { metadata, mint, update_authority, mint_authority, .. } =>
            seq![
                spec_meta_writable(metadata),
                spec_meta_readonly(mint),
                spec_meta_readonly(update_authority),
                spec_meta_signer(mint_authority),
            ],
        TokenInstructionView::InitializeGroupPointer { mint, .. } =>
            seq![spec_meta_signer_writable(mint)],
        TokenInstructionView::InitializeGroup { group, mint, mint_authority, .. } =>
            seq![
                spec_meta_writable(group),
                spec_meta_readonly(mint),
                spec_meta_signer(mint_authority),
            ],
        TokenInstructionView::InitializeGroupMemberPointer { mint, .. } =>
            seq![spec_meta_signer_writable(mint)],
        TokenInstructionView::InitializeMember { member, mint, mint_authority, group, group_update_authority } =>
            seq![
                spec_meta_writable(member),
                spec_meta_readonly(mint),
                spec_meta_signer(mint_authority),
                spec_meta_writable(group),
                spec_meta_signer(group_update_authority),
            ],
    }
}

/// The complete wire form of one operation.
pub open spec fn spec_encode_instruction(ix: TokenInstructionView) -> InstructionView {
    InstructionView {
        program_id: TOKEN_2022_PROGRAM_ID@,
        accounts: spec_instruction_accounts(ix),
        data: spec_instruction_data(ix),
    }
}

/// Appends the 32 bytes of `k` to `out`.
fn push_pubkey(out: &mut Vec<u8>, k: &Pubkey)
    ensures
        final(out)@ == old(out)@ + k@,
{
    let mut i: usize = 0;
    while i < 32
        invariant
            0 <= i <= 32,
            out@ == old(out)@ + k@.subrange(0, i as int),
        decreases 32 - i,
    {
        out.push(k[i]);
        proof {
            assert(k@.subrange(0, i + 1 as int) =~= k@.subrange(0, i as int) + seq![k@[i as int]]);
        }
        i = i + 1;
    }
    proof {
        assert(k@.subrange(0, 32) =~= k@);
    }
}

/// Appends the eight little-endian bytes of `v` to `out`.
fn push_u64_le(out: &mut Vec<u8>, v: u64)
    ensures
        final(out)@ == old(out)@ + spec_u64_le(v),
{
    out.push((v & 0xff) as u8);
    out.push(((v >> 8) & 0xff) as u8);
    out.push(((v >> 16) & 0xff) as u8);
    out.push(((v >> 24) & 0xff) as u8);
    out.push(((v >> 32) & 0xff) as u8);
    out.push(((v >> 40) & 0xff) as u8);
    out.push(((v >> 48) & 0xff) as u8);
    out.push(((v >> 56) & 0xff) as u8);
    proof {
        assert(out@ =~= old(out)@ + spec_u64_le(v));
    }
}

/// Builds the byte-exact instruction for one operation of the
/// token-extension program.
pub fn encode_instruction(ix: &TokenInstruction) -> (r: Instruction)
    ensures
        r@ == spec_encode_instruction(ix@),
{
    let mut data: Vec<u8> = Vec::new();
    let mut accounts: Vec<AccountMeta> = Vec::new();
    match ix {
        TokenInstruction::InitializeMint2 { mint, decimals, mint_authority, freeze_authority } => {
            data.push(INITIALIZE_MINT2_DISCRIMINATOR);
            data.push(*decimals);
            push_pubkey(&mut data, mint_authority);
            match freeze_authority {
                Option::Some(k) => {
                    data.push(1);
                    push_pubkey(&mut data, k);
                },
                Option::None => {
                    data.push(0);
                },
            }
            accounts.push(AccountMeta { pubkey: *mint, is_signer: true, is_writable: true });
        },
        TokenInstruction::InitializeMetadataPointer { mint, authority, metadata_address } => {
            data.push(INITIALIZE_METADATA_POINTER_DISCRIMINATOR);
            push_pubkey(&mut data, authority);
            push_pubkey(&mut data, metadata_address);
            accounts.push(AccountMeta { pubkey: *mint, is_signer: true, is_writable: true });
        },
        TokenInstruction::InitializeMetadata { metadata, mint, update_authority, mint_authority, metadata_data } => {
            data.push(INITIALIZE_METADATA_DISCRIMINATOR);
            let mut i: usize = 0;
            while i < metadata_data.len()
                invariant
                    0 <= i <= metadata_data@.len(),
                    data@ == seq![INITIALIZE_METADATA_DISCRIMINATOR] + metadata_data@.subrange(0, i as int),
                decreases metadata_data@.len() - i,
            {
                data.push(metadata_data[i]);
                proof {
                    assert(metadata_data@.subrange(0, i + 1 as int)
                        =~= metadata_data@.subrange(0, i as int) + seq![metadata_data@[i as int]]);
                }
                i = i + 1;
            }
            proof {
                assert(metadata_data@.subrange(0, metadata_data@.len() as int) =~= metadata_data@);
            }
            accounts.push(AccountMeta { pubkey: *metadata, is_signer: false, is_writable: true });
            accounts.push(AccountMeta { pubkey: *mint, is_signer: false, is_writable: false });
            accounts.push(AccountMeta { pubkey: *update_authority, is_signer: false, is_writable: false });
            accounts.push(AccountMeta { pubkey: *mint_authority, is_signer: true, is_writable: false });
        },
        TokenInstruction::InitializeGroupPointer { mint, authority, group_address } => {
            data.push(INITIALIZE_GROUP_POINTER_DISCRIMINATOR);
            push_pubkey(&mut data, authority);
            push_pubkey(&mut data, group_address);
            accounts.push(AccountMeta { pubkey: *mint, is_signer: true, is_writable: true });
        },
        TokenInstruction::InitializeGroup { group, mint, mint_authority, update_authority, max_size } => {
            data.push(INITIALIZE_GROUP_DISCRIMINATOR);
            push_pubkey(&mut data, update_authority);
            push_u64_le(&mut data, *max_size);
            accounts.push(AccountMeta { pubkey: *group, is_signer: false, is_writable: true });
            accounts.push(AccountMeta { pubkey: *mint, is_signer: false, is_writable: false });
            accounts.push(AccountMeta { pubkey: *mint_authority, is_signer: true, is_writable: false });
        },
        TokenInstruction::InitializeGroupMemberPointer { mint, authority, member_address } => {
            data.push(INITIALIZE_GROUP_MEMBER_POINTER_DISCRIMINATOR);
            push_pubkey(&mut data, authority);
            push_pubkey(&mut data, member_address);
            accounts.push(AccountMeta { pubkey: *mint, is_signer: true, is_writable: true });
        },
        TokenInstruction::InitializeMember { member, mint, mint_authority, group, group_update_authority } => {
            data.push(INITIALIZE_MEMBER_DISCRIMINATOR);
            accounts.push(AccountMeta { pubkey: *member, is_signer: false, is_writable: true });
            accounts.push(AccountMeta { pubkey: *mint, is_signer: false, is_writable: false });
            accounts.push(AccountMeta { pubkey: *mint_authority, is_signer: true, is_writable: false });
            accounts.push(AccountMeta { pubkey: *group, is_signer: false, is_writable: true });
            accounts.push(AccountMeta { pubkey: *group_update_authority, is_signer: true, is_writable: false });
        },
    }
    let r = Instruction { program_id: TOKEN_2022_PROGRAM_ID, accounts, data };
    proof {
        assert(r.accounts.deep_view() =~= spec_instruction_accounts(ix@));
        assert(r.data@ =~= spec_instruction_data(ix@));
    }
    r
}

} // verus!
