//! Instructions, provisioning steps, and their mathematical views.
//!
//! A [`Step`] is one operation of a provisioning flow: either the system-level
//! account creation, or one call into the token-extension program described
//! structurally by a [`TokenInstruction`].  The byte-exact wire form of a
//! `TokenInstruction` is produced by [`crate::token2022::encode_instruction`].

use vstd::prelude::*;
use crate::pubkey::Pubkey;

verus! {

/// One reference of an instruction's ordered account list.
pub struct AccountMeta {
    pub pubkey: Pubkey,
    pub is_signer: bool,
    pub is_writable: bool,
}

/// Mathematical view of an [`AccountMeta`].
pub ghost struct AccountMetaView {
    pub pubkey: Seq<u8>,
    pub is_signer: bool,
    pub is_writable: bool,
}

impl View for AccountMeta {
    type V = AccountMetaView;

    open spec fn view(&self) -> AccountMetaView {
        AccountMetaView { pubkey: self.pubkey@, is_signer: self.is_signer, is_writable: self.is_writable }
    }
}

impl DeepView for AccountMeta {
    type V = AccountMetaView;

    open spec fn deep_view(&self) -> AccountMetaView {
        self.view()
    }
}

/// A fully built cross-program instruction: target program, ordered account
/// references, and the opaque byte payload.
pub struct Instruction {
    pub program_id: Pubkey,
    pub accounts: Vec<AccountMeta>,
    pub data: Vec<u8>,
}

/// Mathematical view of an [`Instruction`].
pub ghost struct InstructionView {
    pub program_id: Seq<u8>,
    pub accounts: Seq<AccountMetaView>,
    pub data: Seq<u8>,
}

impl View for Instruction {
    type V = InstructionView;

    open spec fn view(&self) -> InstructionView {
        InstructionView {
            program_id: self.program_id@,
            accounts: self.accounts.deep_view(),
            data: self.data@,
        }
    }
}

/// One operation of the token-extension program, in structural form.
pub enum TokenInstruction {
    InitializeMint2 {
        mint: Pubkey,
        decimals: u8,
        mint_authority: Pubkey,
        freeze_authority: Option<Pubkey>,
    },
    InitializeMetadataPointer {
        mint: Pubkey,
        authority: Pubkey,
        metadata_address: Pubkey,
    },
    InitializeMetadata {
        metadata: Pubkey,
        mint: Pubkey,
        update_authority: Pubkey,
        mint_authority: Pubkey,
        metadata_data: Vec<u8>,
    },
    InitializeGroupPointer {
        mint: Pubkey,
        authority: Pubkey,
        group_address: Pubkey,
    },
    InitializeGroup {
        group: Pubkey,
        mint: Pubkey,
        mint_authority: Pubkey,
        update_authority: Pubkey,
        max_size: u64,
    },
    InitializeGroupMemberPointer {
        mint: Pubkey,
        authority: Pubkey,
        member_address: Pubkey,
    },
    InitializeMember {
        member: Pubkey,
        mint: Pubkey,
        mint_authority: Pubkey,
        group: Pubkey,
        group_update_authority: Pubkey,
    },
}

/// Mathematical view of a [`TokenInstruction`].
pub ghost enum TokenInstructionView {
    InitializeMint2 {
        mint: Seq<u8>,
        decimals: u8,
        mint_authority: Seq<u8>,
        freeze_authority: Option<Seq<u8>>,
    },
    InitializeMetadataPointer {
        mint: Seq<u8>,
        authority: Seq<u8>,
        metadata_address: Seq<u8>,
    },
    InitializeMetadata {
        metadata: Seq<u8>,
        mint: Seq<u8>,
        update_authority: Seq<u8>,
        mint_authority: Seq<u8>,
        metadata_data: Seq<u8>,
    },
    InitializeGroupPointer {
        mint: Seq<u8>,
        authority: Seq<u8>,
        group_address: Seq<u8>,
    },
    InitializeGroup {
        group: Seq<u8>,
        mint: Seq<u8>,
        mint_authority: Seq<u8>,
        update_authority: Seq<u8>,
        max_size: u64,
    },
    InitializeGroupMemberPointer {
        mint: Seq<u8>,
        authority: Seq<u8>,
        member_address: Seq<u8>,
    },
    InitializeMember {
        member: Seq<u8>,
        mint: Seq<u8>,
        mint_authority: Seq<u8>,
        group: Seq<u8>,
        group_update_authority: Seq<u8>,
    },
}

/// View of an optional address.
pub open spec fn opt_key_view(o: Option<Pubkey>) -> Option<Seq<u8>> {
    match o {
        Option::Some(k) => Option::Some(k@),
        Option::None => Option::None,
    }
}

impl View for TokenInstruction {
    type V = TokenInstructionView;

    open spec fn view(&self) -> TokenInstructionView {
        match *self {
            TokenInstruction::InitializeMint2 { mint, decimals, mint_authority, freeze_authority } =>
                TokenInstructionView::InitializeMint2 {
                    mint: mint@,
                    decimals,
                    mint_authority: mint_authority@,
                    freeze_authority: opt_key_view(freeze_authority),
                },
            TokenInstruction::InitializeMetadataPointer { mint, authority, metadata_address } =>
                TokenInstructionView::InitializeMetadataPointer {
                    mint: mint@,
                    authority: authority@,
                    metadata_address: metadata_address@,
                },
            TokenInstruction::InitializeMetadata { metadata, mint, update_authority, mint_authority, metadata_data } =>
                TokenInstructionView::InitializeMetadata {
                    metadata: metadata@,
                    mint: mint@,
                    update_authority: update_authority@,
                    mint_authority: mint_authority@,
                    metadata_data: metadata_data@,
                },
            TokenInstruction::InitializeGroupPointer { mint, authority, group_address } =>
                TokenInstructionView::InitializeGroupPointer {
                    mint: mint@,
                    authority: authority@,
                    group_address: group_address@,
                },
            TokenInstruction::InitializeGroup { group, mint, mint_authority, update_authority, max_size } =>
                TokenInstructionView::InitializeGroup {
                    group: group@,
                    mint: mint@,
                    mint_authority: mint_authority@,
                    update_authority: update_authority@,
                    max_size,
                },
            TokenInstruction::InitializeGroupMemberPointer { mint, authority, member_address } =>
                TokenInstructionView::InitializeGroupMemberPointer {
                    mint: mint@,
                    authority: authority@,
                    member_address: member_address@,
                },
            TokenInstruction::InitializeMember { member, mint, mint_authority, group, group_update_authority } =>
                TokenInstructionView::InitializeMember {
                    member: member@,
                    mint: mint@,
                    mint_authority: mint_authority@,
                    group: group@,
                    group_update_authority: group_update_authority@,
                },
        }
    }
}

impl DeepView for TokenInstruction {
    type V = TokenInstructionView;

    open spec fn deep_view(&self) -> TokenInstructionView {
        self.view()
    }
}

/// One operation of a provisioning flow.
pub enum Step {
    /// The system-level account creation: transfer `lamports` from `from`,
    /// allocate `space` bytes at `to`, and set `to`'s owner to `owner`.
    CreateAccount {
        from: Pubkey,
        to: Pubkey,
        lamports: u64,
        space: u64,
        owner: Pubkey,
    },
    /// One synchronous call into the token-extension program.
    Invoke(TokenInstruction),
}

/// Mathematical view of a [`Step`].  Amounts are unbounded integers so the
/// environment model is free of machine arithmetic.
pub ghost enum StepView {
    CreateAccount {
        from: Seq<u8>,
        to: Seq<u8>,
        lamports: int,
        space: int,
        owner: Seq<u8>,
    },
    Invoke(TokenInstructionView),
}

impl View for Step {
    type V = StepView;

    open spec fn view(&self) -> StepView {
        match *self {
            Step::CreateAccount { from, to, lamports, space, owner } => StepView::CreateAccount {
                from: from@,
                to: to@,
                lamports: lamports as int,
                space: space as int,
                owner: owner@,
            },
            Step::Invoke(ix) => StepView::Invoke(ix@),
        }
    }
}

impl DeepView for Step {
    type V = StepView;

    open spec fn deep_view(&self) -> StepView {
        self.view()
    }
}

/// The errors this core raises itself.  Failures of the callee are not
/// reinterpreted: they abort a flow and are surfaced unchanged by the caller.
#[derive(Clone, Copy, PartialEq, Eq, Structural, Debug)]
pub enum FlowError {
    /// The account list does not have the shape the selected flow requires.
    MissingAccounts,
    /// The leading instruction byte selects no flow.
    InvalidDiscriminator,
}

} // verus!
