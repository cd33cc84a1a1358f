//! An executable ledger that implements the step semantics of
//! [`crate::ledger`] exactly, so that whole provisioning flows can be run and
//! their outcome inspected off-chain.
//!
//! The ledger is an append-only association list; the entry pushed last for
//! an address is the one in force.  Its mathematical view is the
//! [`LedgerModel`] map, and every operation's contract is stated against the
//! corresponding `spec_*_effect` function, so a run of the simulator is a
//! witness of the mathematical run.

use vstd::prelude::*;
use crate::pubkey::{Pubkey, pubkey_eq, SYSTEM_PROGRAM_ID, TOKEN_2022_PROGRAM_ID};
use crate::layout::{
    TOKEN_2022_MINT_LEN, TOKEN_2022_MINT_BASE_LEN, TOKEN_2022_METADATA_POINTER_LEN,
    TOKEN_2022_GROUP_POINTER_LEN, TOKEN_2022_MEMBER_POINTER_LEN, TOKEN_2022_METADATA_LEN,
    TOKEN_2022_GROUP_LEN, TOKEN_2022_MEMBER_LEN, MAX_ACCOUNT_DATA_LEN,
};
use crate::instruction::{Step, StepView, TokenInstruction};
use crate::ledger::{
    Account, AccountModel, LedgerModel, MetadataExt, MintExt, PointerExt, GroupExt, MemberExt,
    spec_vacant, spec_fresh, spec_placed_len, spec_step_effect, spec_run,
    spec_create_effect, spec_invoke_effect,
};

verus! {

/// The executable ledger.
pub struct Ledger {
    pub entries: Vec<(Pubkey, Account)>,
}

/// The map an association list denotes, later entries overriding earlier
/// ones.
pub open spec fn ledger_map(s: Seq<(Pubkey, Account)>) -> LedgerModel
    decreases s.len(),
{
    if s.len() == 0 {
        Map::empty()
    } else {
        ledger_map(s.drop_last()).insert(s.last().0@, s.last().1@)
    }
}

impl View for Ledger {
    type V = LedgerModel;

    open spec fn view(&self) -> LedgerModel {
        ledger_map(self.entries@)
    }
}

/// The entry in force for a key is the one at the highest index bearing it.
proof fn lemma_map_entry(s: Seq<(Pubkey, Account)>, k: Seq<u8>, i: int)
    requires
        0 <= i < s.len(),
        s[i].0@ == k,
        forall|j: int| i < j < s.len() ==> s[j].0@ != k,
    ensures
        ledger_map(s).contains_key(k),
        ledger_map(s)[k] == s[i].1@,
    decreases s.len(),
{
    if i == s.len() - 1 {
    } else {
        assert(s.drop_last()[i] == s[i]);
        lemma_map_entry(s.drop_last(), k, i);
    }
}

/// A key no entry bears is absent from the denoted map.
proof fn lemma_map_absent(s: Seq<(Pubkey, Account)>, k: Seq<u8>)
    requires
        forall|j: int| 0 <= j < s.len() ==> s[j].0@ != k,
    ensures
        !ledger_map(s).contains_key(k),
    decreases s.len(),
{
    if s.len() > 0 {
        lemma_map_absent(s.drop_last(), k);
    }
}

/// A byte-for-byte copy of `src`.
fn copy_bytes(src: &Vec<u8>) -> (r: Vec<u8>)
    ensures
        r@ == src@,
{
    let mut out: Vec<u8> = Vec::new();
    let mut i: usize = 0;
    while i < src.len()
        invariant
            0 <= i <= src@.len(),
            out@ == src@.subrange(0, i as int),
        decreases src@.len() - i,
    {
        out.push(src[i]);
        proof {
            assert(src@.subrange(0, i + 1 as int)
                =~= src@.subrange(0, i as int) + seq![src@[i as int]]);
        }
        i = i + 1;
    }
    proof {
        assert(src@.subrange(0, src@.len() as int) =~= src@);
    }
    out
}

/// An owned copy of an account with the same view.
fn copy_account(a: &Account) -> (r: Account)
    ensures
        r@ == a@,
{
    let metadata = match &a.metadata {
        Option::Some(m) => Option::Some(MetadataExt {
            update_authority: m.update_authority,
            data: copy_bytes(&m.data),
        }),
        Option::None => Option::None,
    };
    Account {
        owner: a.owner,
        lamports: a.lamports,
        data_len: a.data_len,
        metadata_pointer: a.metadata_pointer,
        group_pointer: a.group_pointer,
        member_pointer: a.member_pointer,
        mint: a.mint,
        metadata,
        group: a.group,
        member: a.member,
    }
}

/// Whether `a` is indistinguishable from a never-created account.
pub fn account_vacant(a: &Account) -> (r: bool)
    ensures
        r == spec_vacant(a@),
{
    pubkey_eq(&a.owner, &SYSTEM_PROGRAM_ID) && a.lamports == 0 && a.data_len == 0
        && a.metadata_pointer.is_none() && a.group_pointer.is_none()
        && a.member_pointer.is_none() && a.mint.is_none() && a.metadata.is_none()
        && a.group.is_none() && a.member.is_none()
}

/// Total fixed size of the pointer extensions placed on `a`.
fn placed_len(a: &Account) -> (r: u64)
    ensures
        r == spec_placed_len(a@),
{
    let mut n: u64 = 0;
    if a.metadata_pointer.is_some() {
        n = n + TOKEN_2022_METADATA_POINTER_LEN;
    }
    if a.group_pointer.is_some() {
        n = n + TOKEN_2022_GROUP_POINTER_LEN;
    }
    if a.member_pointer.is_some() {
        n = n + TOKEN_2022_MEMBER_POINTER_LEN;
    }
    n
}

impl Ledger {
    /// An empty ledger.
    pub fn new() -> (r: Ledger)
        ensures
            r@ == Map::<Seq<u8>, AccountModel>::empty(),
    {
        Ledger { entries: Vec::new() }
    }

    /// The index of the entry in force for `k`, if any.
    pub fn find(&self, k: &Pubkey) -> (r: Option<usize>)
        ensures
            (match r {
                Option::Some(i) => i < self.entries@.len() && self.entries@[i as int].0@ == k@
                    && self@.contains_key(k@) && self@[k@] == self.entries@[i as int].1@,
                Option::None => !self@.contains_key(k@),
            }),
    {
        let mut i: usize = self.entries.len();
        while i > 0
            invariant
                i <= self.entries@.len(),
                forall|j: int| i <= j < self.entries@.len() ==> self.entries@[j].0@ != k@,
            decreases i,
    {
            i = i - 1;
            if pubkey_eq(&self.entries[i].0, k) {
                proof {
                    lemma_map_entry(self.entries@, k@, i as int);
                }
                return Option::Some(i);
            }
        }
        proof {
            lemma_map_absent(self.entries@, k@);
        }
        Option::None
    }

    /// Installs `a` as the account in force for `k`.
    pub fn put(&mut self, k: Pubkey, a: Account)
        ensures
            final(self)@ == old(self)@.insert(k@, a@),
    {
        self.entries.push((k, a));
        proof {
            assert(self.entries@.drop_last() =~= old(self).entries@);
        }
    }

    /// Account creation, as [`spec_create_effect`] describes it.
    fn apply_create(&mut self, from: &Pubkey, to: &Pubkey, lamports: u64, space: u64, owner: &Pubkey) -> (r: bool)
        ensures
            (match spec_create_effect(old(self)@, from@, to@, lamports as int, space as int, owner@) {
                Option::Some(l2) => r && final(self)@ == l2,
                Option::None => !r && final(self)@ == old(self)@,
            }),
    {
        let fi = match self.find(from) {
            Option::Some(i) => i,
            Option::None => { return false; },
        };
        if self.entries[fi].1.lamports < lamports {
            return false;
        }
        if space > MAX_ACCOUNT_DATA_LEN {
            return false;
        }
        match self.find(to) {
            Option::Some(ti) => {
                if !account_vacant(&self.entries[ti].1) {
                    return false;
                }
            },
            Option::None => {},
        }
        let mut payer = copy_account(&self.entries[fi].1);
        payer.lamports = payer.lamports - lamports;
        let fresh = Account {
            owner: *owner,
            lamports,
            data_len: space,
            metadata_pointer: Option::None,
            group_pointer: Option::None,
            member_pointer: Option::None,
            mint: Option::None,
            metadata: Option::None,
            group: Option::None,
            member: Option::None,
        };
        proof {
            assert(fresh@ == spec_fresh(owner@, lamports as int, space as int));
        }
        self.put(*from, payer);
        self.put(*to, fresh);
        true
    }

    /// One call into the token-extension program, as [`spec_invoke_effect`]
    /// describes it.
    fn apply_invoke(&mut self, ix: &TokenInstruction) -> (r: bool)
        ensures
            (match spec_invoke_effect(old(self)@, ix@) {
                Option::Some(l2) => r && final(self)@ == l2,
                Option::None => !r && final(self)@ == old(self)@,
            }),
    {
        match ix {
            TokenInstruction::InitializeMetadataPointer { mint, authority, metadata_address } => {
                let mi = match self.find(mint) {
                    Option::Some(i) => i,
                    Option::None => { return false; },
                };
                if self.entries[mi].1.metadata_pointer.is_some() {
                    return false;
                }
                if !self.can_place(mi, TOKEN_2022_METADATA_POINTER_LEN) {
                    return false;
                }
                let mut b = copy_account(&self.entries[mi].1);
                b.metadata_pointer = Option::Some(PointerExt { authority: *authority, target: *metadata_address });
                self.put(*mint, b);
                true
            },
            TokenInstruction::InitializeGroupPointer { mint, authority, group_address } => {
                let mi = match self.find(mint) {
                    Option::Some(i) => i,
                    Option::None => { return false; },
                };
                if self.entries[mi].1.group_pointer.is_some() {
                    return false;
                }
                if !self.can_place(mi, TOKEN_2022_GROUP_POINTER_LEN) {
                    return false;
                }
                let mut b = copy_account(&self.entries[mi].1);
                b.group_pointer = Option::Some(PointerExt { authority: *authority, target: *group_address });
                self.put(*mint, b);
                true
            },
            TokenInstruction::InitializeGroupMemberPointer { mint, authority, member_address } => {
                let mi = match self.find(mint) {
                    Option::Some(i) => i,
                    Option::None => { return false; },
                };
                if self.entries[mi].1.member_pointer.is_some() {
                    return false;
                }
                if !self.can_place(mi, TOKEN_2022_MEMBER_POINTER_LEN) {
                    return false;
                }
                let mut b = copy_account(&self.entries[mi].1);
                b.member_pointer = Option::Some(PointerExt { authority: *authority, target: *member_address });
                self.put(*mint, b);
                true
            },
            TokenInstruction::InitializeMint2 { mint, decimals, mint_authority, freeze_authority } => {
                let mi = match self.find(mint) {
                    Option::Some(i) => i,
                    Option::None => { return false; },
                };
                if !pubkey_eq(&self.entries[mi].1.owner, &TOKEN_2022_PROGRAM_ID) {
                    return false;
                }
                if self.entries[mi].1.mint.is_some() {
                    return false;
                }
                let placed = placed_len(&self.entries[mi].1);
                let expected: u64 = if placed == 0 {
                    TOKEN_2022_MINT_LEN
                } else {
                    TOKEN_2022_MINT_LEN + TOKEN_2022_MINT_BASE_LEN + placed
                };
                if self.entries[mi].1.data_len != expected {
                    return false;
                }
                let mut b = copy_account(&self.entries[mi].1);
                b.mint = Option::Some(MintExt {
                    decimals: *decimals,
                    mint_authority: *mint_authority,
                    freeze_authority: *freeze_authority,
                });
                self.put(*mint, b);
                true
            },
            TokenInstruction::InitializeMetadata { metadata, mint, update_authority, mint_authority, metadata_data } => {
                let mi = match self.find(mint) {
                    Option::Some(i) => i,
                    Option::None => { return false; },
                };
                let pointer_ok = match &self.entries[mi].1.metadata_pointer {
                    Option::Some(p) => pubkey_eq(&p.target, metadata),
                    Option::None => false,
                };
                if !pointer_ok {
                    return false;
                }
                let authority_ok = match &self.entries[mi].1.mint {
                    Option::Some(m) => pubkey_eq(&m.mint_authority, mint_authority),
                    Option::None => false,
                };
                if !authority_ok {
                    return false;
                }
                let di = match self.find(metadata) {
                    Option::Some(i) => i,
                    Option::None => { return false; },
                };
                if !pubkey_eq(&self.entries[di].1.owner, &TOKEN_2022_PROGRAM_ID) {
                    return false;
                }
                if self.entries[di].1.metadata.is_some() {
                    return false;
                }
                if self.entries[di].1.data_len > MAX_ACCOUNT_DATA_LEN {
                    return false;
                }
                let added: u64 = metadata_data.len() as u64;
                if added > MAX_ACCOUNT_DATA_LEN {
                    return false;
                }
                let new_len: u64 = self.entries[di].1.data_len + TOKEN_2022_METADATA_LEN + added;
                if new_len > MAX_ACCOUNT_DATA_LEN {
                    return false;
                }
                let mut b = copy_account(&self.entries[di].1);
                b.metadata = Option::Some(MetadataExt {
                    update_authority: *update_authority,
                    data: copy_bytes(metadata_data),
                });
                self.put(*metadata, b);
                true
            },
            TokenInstruction::InitializeGroup { group, mint, mint_authority, update_authority, max_size } => {
                let mi = match self.find(mint) {
                    Option::Some(i) => i,
                    Option::None => { return false; },
                };
                let pointer_ok = match &self.entries[mi].1.group_pointer {
                    Option::Some(p) => pubkey_eq(&p.target, group),
                    Option::None => false,
                };
                if !pointer_ok {
                    return false;
                }
                let authority_ok = match &self.entries[mi].1.mint {
                    Option::Some(m) => pubkey_eq(&m.mint_authority, mint_authority),
                    Option::None => false,
                };
                if !authority_ok {
                    return false;
                }
                let gi = match self.find(group) {
                    Option::Some(i) => i,
                    Option::None => { return false; },
                };
                if !pubkey_eq(&self.entries[gi].1.owner, &TOKEN_2022_PROGRAM_ID) {
                    return false;
                }
                if self.entries[gi].1.group.is_some() {
                    return false;
                }
                if self.entries[gi].1.data_len > MAX_ACCOUNT_DATA_LEN {
                    return false;
                }
                let new_len: u64 = self.entries[gi].1.data_len + TOKEN_2022_GROUP_LEN;
                if new_len > MAX_ACCOUNT_DATA_LEN {
                    return false;
                }
                let mut b = copy_account(&self.entries[gi].1);
                b.group = Option::Some(GroupExt {
                    update_authority: *update_authority,
                    max_size: *max_size,
                    size: 0,
                });
                self.put(*group, b);
                true
            },
            TokenInstruction::InitializeMember { member, mint, mint_authority, group, group_update_authority } => {
                if pubkey_eq(member, group) {
                    return false;
                }
                let mi = match self.find(mint) {
                    Option::Some(i) => i,
                    Option::None => { return false; },
                };
                let pointer_ok = match &self.entries[mi].1.member_pointer {
                    Option::Some(p) => pubkey_eq(&p.target, member),
                    Option::None => false,
                };
                if !pointer_ok {
                    return false;
                }
                let authority_ok = match &self.entries[mi].1.mint {
                    Option::Some(m) => pubkey_eq(&m.mint_authority, mint_authority),
                    Option::None => false,
                };
                if !authority_ok {
                    return false;
                }
                let ei = match self.find(member) {
                    Option::Some(i) => i,
                    Option::None => { return false; },
                };
                if !pubkey_eq(&self.entries[ei].1.owner, &TOKEN_2022_PROGRAM_ID) {
                    return false;
                }
                if self.entries[ei].1.member.is_some() {
                    return false;
                }
                if self.entries[ei].1.data_len > MAX_ACCOUNT_DATA_LEN {
                    return false;
                }
                let new_len: u64 = self.entries[ei].1.data_len + TOKEN_2022_MEMBER_LEN;
                if new_len > MAX_ACCOUNT_DATA_LEN {
                    return false;
                }
                let gi = match self.find(group) {
                    Option::Some(i) => i,
                    Option::None => { return false; },
                };
                let g = match &self.entries[gi].1.group {
                    Option::Some(g) => *g,
                    Option::None => { return false; },
                };
                if !(g.size < g.max_size) {
                    return false;
                }
                if !pubkey_eq(&g.update_authority, group_update_authority) {
                    return false;
                }
                let mut bm = copy_account(&self.entries[ei].1);
                bm.member = Option::Some(MemberExt { group: *group, member_number: g.size + 1 });
                let mut bg = copy_account(&self.entries[gi].1);
                bg.group = Option::Some(GroupExt { size: g.size + 1, ..g });
                self.put(*member, bm);
                self.put(*group, bg);
                true
            },
        }
    }

    /// Whether the account at entry `i` can take one more pointer extension
    /// of fixed size `ext_len`.
    fn can_place(&self, i: usize, ext_len: u64) -> (r: bool)
        requires
            i < self.entries@.len(),
            ext_len <= TOKEN_2022_METADATA_POINTER_LEN,
        ensures
            r == crate::ledger::spec_can_place_pointer(self.entries@[i as int].1@, ext_len as int),
    {
        let a = &self.entries[i].1;
        if !pubkey_eq(&a.owner, &TOKEN_2022_PROGRAM_ID) {
            return false;
        }
        if a.mint.is_some() {
            return false;
        }
        let placed = placed_len(a);
        TOKEN_2022_MINT_LEN + TOKEN_2022_MINT_BASE_LEN + placed + ext_len <= a.data_len
    }

    /// One provisioning step, as [`spec_step_effect`] describes it.
    pub fn apply_step(&mut self, step: &Step) -> (r: bool)
        ensures
            (match spec_step_effect(old(self)@, step@) {
                Option::Some(l2) => r && final(self)@ == l2,
                Option::None => !r && final(self)@ == old(self)@,
            }),
    {
        match step {
            Step::CreateAccount { from, to, lamports, space, owner } =>
                self.apply_create(from, to, *lamports, *space, owner),
            Step::Invoke(ix) => self.apply_invoke(ix),
        }
    }

    /// Runs the steps in order and reports whether every one succeeded.  A
    /// successful run realizes [`spec_run`]; after a failed run the ledger's
    /// contents are meaningless — the environment this models reverts every
    /// mutation of a failed instruction, so only the verdict is significant.
    pub fn run(&mut self, steps: &Vec<Step>) -> (r: bool)
        ensures
            r == (spec_run(old(self)@, steps.deep_view()) is Some),
            r ==> Option::Some(final(self)@) == spec_run(old(self)@, steps.deep_view()),
    {
        let n = steps.len();
        proof {
            assert(steps.deep_view().subrange(0, n as int) =~= steps.deep_view());
        }
        let mut i: usize = 0;
        while i < n
            invariant
                0 <= i <= n,
                n == steps@.len(),
                spec_run(old(self)@, steps.deep_view())
                    == spec_run(self@, steps.deep_view().subrange(i as int, n as int)),
            decreases n - i,
        {
            let ghost pre = self@;
            let ghost sv = steps.deep_view();
            let ok = self.apply_step(&steps[i]);
            proof {
                assert(sv.subrange(i as int, n as int)[0] == sv[i as int]);
                assert(sv[i as int] == steps@[i as int]@);
                assert(sv.subrange(i as int, n as int).subrange(1, (n - i) as int)
                    =~= sv.subrange(i + 1, n as int));
            }
            if !ok {
                return false;
            }
            i = i + 1;
        }
        proof {
            assert(steps.deep_view().subrange(n as int, n as int) =~= Seq::<StepView>::empty());
        }
        true
    }
}

} // verus!
