//! Account-layout and rent arithmetic.
//!
//! Every account provisioned here is a mint that carries exactly one pointer
//! extension.  Its allocated byte length is the sum of the fixed-size sections
//! that exist at creation time; record data appended by the callee after
//! creation (a metadata record, a group record, a member record) is sized
//! separately and enters only the rent computation.  The two quantities are
//! deliberately kept apart: the declared fixed overhead used for sizing and
//! the length actually written may differ, and both must stay observable.

use vstd::prelude::*;

verus! {

/// Byte length of the base mint fields.
pub const TOKEN_2022_MINT_LEN: u64 = 82;

/// Overhead that lifts a base mint to the extended layout (padding plus the
/// account-type byte).
pub const TOKEN_2022_MINT_BASE_LEN: u64 = 84;

/// Fixed size of a metadata-pointer extension, entry header included.
pub const TOKEN_2022_METADATA_POINTER_LEN: u64 = 68;

/// Fixed size of a group-pointer extension, entry header included.
pub const TOKEN_2022_GROUP_POINTER_LEN: u64 = 68;

/// Fixed size of a group-member-pointer extension, entry header included.
pub const TOKEN_2022_MEMBER_POINTER_LEN: u64 = 68;

/// Fixed overhead of a metadata record, excluding the variable name, symbol
/// and uri bytes that follow it.
pub const TOKEN_2022_METADATA_LEN: u64 = 80;

/// Byte length of a group record.
pub const TOKEN_2022_GROUP_LEN: u64 = 84;

/// Byte length of a member record.
pub const TOKEN_2022_MEMBER_LEN: u64 = 76;

/// Ledger-wide per-account storage overhead charged by the rent schedule.
pub const ACCOUNT_STORAGE_OVERHEAD: u64 = 128;

/// Largest data length the hosting environment permits an account, at
/// creation and after any growth (ten mebibytes).
pub const MAX_ACCOUNT_DATA_LEN: u64 = 10485760;

/// Number of years of rent an account must hold to persist indefinitely.
pub const RENT_EXEMPTION_YEARS: u64 = 2;

/// The extension tags an account provisioned by these flows can carry at
/// creation time.
#[derive(Clone, Copy, PartialEq, Eq, Structural)]
pub enum ExtensionTag {
    MetadataPointer,
    GroupPointer,
    GroupMemberPointer,
}

/// Fixed-size contribution of one pointer extension.
pub open spec fn spec_pointer_extension_len(tag: ExtensionTag) -> u64 {
    match tag {
        ExtensionTag::MetadataPointer => TOKEN_2022_METADATA_POINTER_LEN,
        ExtensionTag::GroupPointer => TOKEN_2022_GROUP_POINTER_LEN,
        ExtensionTag::GroupMemberPointer => TOKEN_2022_MEMBER_POINTER_LEN,
    }
}

/// Byte length to allocate for a mint carrying the given pointer extension:
/// base mint, extended-layout overhead, and the extension's fixed section.
/// Nothing of any record appended later enters this value.
pub open spec fn spec_mint_space(tag: ExtensionTag) -> u64 {
    (TOKEN_2022_MINT_LEN + TOKEN_2022_MINT_BASE_LEN + spec_pointer_extension_len(tag)) as u64
}

/// Executable counterpart of [`spec_mint_space`].
pub fn mint_space(tag: ExtensionTag) -> (r: u64)
    ensures
        r == spec_mint_space(tag),
{
    let ext: u64 = match tag {
        ExtensionTag::MetadataPointer => TOKEN_2022_METADATA_POINTER_LEN,
        ExtensionTag::GroupPointer => TOKEN_2022_GROUP_POINTER_LEN,
        ExtensionTag::GroupMemberPointer => TOKEN_2022_MEMBER_POINTER_LEN,
    };
    TOKEN_2022_MINT_LEN + TOKEN_2022_MINT_BASE_LEN + ext
}

/// The rent schedule of the hosting ledger, reduced to the one parameter the
/// minimum-balance rule reads.  The hosting environment supplies the value;
/// the flows only consume it.
#[derive(Clone, Copy)]
pub struct Rent {
    pub lamports_per_byte_year: u64,
}

impl Rent {
    /// Minimum balance for an account of `data_len` bytes to be exempt from
    /// rent collection: storage overhead plus the data length, charged per
    /// byte-year over the exemption horizon.
    pub open spec fn spec_minimum_balance(self, data_len: u64) -> int {
        (ACCOUNT_STORAGE_OVERHEAD + data_len) * self.lamports_per_byte_year * RENT_EXEMPTION_YEARS
    }

    /// Executable counterpart of [`Self::spec_minimum_balance`].
    pub fn minimum_balance(&self, data_len: u64) -> (r: u64)
        requires
            ACCOUNT_STORAGE_OVERHEAD + data_len <= u64::MAX,
            self.spec_minimum_balance(data_len) <= u64::MAX,
        ensures
            r == self.spec_minimum_balance(data_len),
    {
        let bytes: u64 = ACCOUNT_STORAGE_OVERHEAD + data_len;
        proof {
            assert(bytes * self.lamports_per_byte_year
                <= bytes * self.lamports_per_byte_year * RENT_EXEMPTION_YEARS)
                by (nonlinear_arith)
                requires
                    RENT_EXEMPTION_YEARS == 2,
                    bytes >= 0,
                    self.lamports_per_byte_year >= 0,
            ;
        }
        bytes * self.lamports_per_byte_year * RENT_EXEMPTION_YEARS
    }
}

} // verus!
