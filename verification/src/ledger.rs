//! An explicit content-addressed store for the ledger's records.
//!
//! The operations in `initialize` and `stake` take the records an
//! invocation touches as arguments; this module supplies the collaborator
//! that finds those records. It keeps the singleton global configuration
//! record and a table of stake record slots keyed by derived address, looks
//! a caller's record up through `derive_stake_address`, and creates the
//! record lazily on the caller's first deposit. Records are never
//! destroyed: a fully withdrawn record persists with its owner.

use crate::address::{derive_stake_address, RecordAddress};
use crate::error::CustomError;
use crate::event::{init_message, InitializeEvent, StakeEvent};
use crate::identity::Identity;
use crate::initialize::{spec_initialize_checked, Initialize};
use crate::stake::{deposit_sol, spec_deposit, spec_withdraw, withdraw_sol, Stake};
use crate::state::{spec_default_global, spec_default_stake, GlobalState, UserStake};
use vstd::prelude::*;

verus! {

/// One storage slot: a stake record at its derived address, together with
/// the native currency backing it.
#[derive(Clone, Copy, Debug, PartialEq, Eq, Structural)]
pub struct StakeSlot {
    /// The derived address the slot lives at.
    pub address: RecordAddress,
    /// The stake record stored in the slot.
    pub user_stake: UserStake,
    /// The backing value: the native currency held at this address.
    pub lamports: u64,
}

/// The store itself: the singleton global configuration record plus one
/// slot per stake record that some deposit has created.
pub struct Ledger {
    /// The global configuration record, at its singleton derived address.
    pub global_state: GlobalState,
    /// The stake record slots, one per derived address, in creation order.
    pub slots: Vec<StakeSlot>,
}

impl Ledger {
    /// The stored stake slots, in order of creation.
    pub open spec fn slots_view(self) -> Seq<StakeSlot> {
        self.slots@
    }

    /// Well-formedness of the store: at most one slot per derived address.
    pub open spec fn wf(self) -> bool {
        forall|i: int, j: int|
            0 <= i < j < self.slots_view().len() ==> self.slots_view()[i].address
                != self.slots_view()[j].address
    }

    /// Whether a stake record for `owner` exists.
    pub open spec fn has_record(self, owner: Identity) -> bool {
        exists|i: int|
            0 <= i < self.slots_view().len() && self.slots_view()[i].address
                == RecordAddress::StakeFor(owner)
    }

    /// The slot of `owner`'s stake record, meaningful when `has_record`.
    pub open spec fn record_of(self, owner: Identity) -> StakeSlot {
        self.slots_view()[choose|i: int|
            0 <= i < self.slots_view().len() && self.slots_view()[i].address
                == RecordAddress::StakeFor(owner)]
    }

    /// The records a deposit or withdrawal by `caller` operates on: the
    /// caller's stake record if one exists, and otherwise a freshly
    /// allocated one with nothing behind it.
    pub open spec fn stake_ctx(self, caller: Identity, wallet: u64) -> Stake {
        Stake {
            staker: caller,
            staker_lamports: wallet,
            global_state: self.global_state,
            user_stake: if self.has_record(caller) {
                self.record_of(caller).user_stake
            } else {
                spec_default_stake()
            },
            user_stake_lamports: if self.has_record(caller) {
                self.record_of(caller).lamports
            } else {
                0u64
            },
        }
    }

    /// An empty store: an uninitialized global configuration record and no
    /// stake records at all.
    pub fn new() -> (l: Ledger)
        ensures
            l.wf(),
            l.global_state == spec_default_global(),
            forall|o: Identity| !l.has_record(o),
    {
        Ledger { global_state: GlobalState::default(), slots: Vec::new() }
    }

    /// Looks up the slot at `address`.
    fn find_slot(&self, address: RecordAddress) -> (r: Option<usize>)
        ensures
            match r {
                Some(i) => i < self.slots_view().len() && self.slots_view()[i as int].address
                    == address,
                None => forall|j: int|
                    0 <= j < self.slots_view().len() ==> self.slots_view()[j].address != address,
            },
    {
        let mut i: usize = 0;
        while i < self.slots.len()
            invariant
                i <= self.slots@.len(),
                forall|j: int| 0 <= j < i ==> self.slots@[j].address != address,
            decreases self.slots@.len() - i,
        {
            if self.slots[i].address == address {
                return Some(i);
            }
            i += 1;
        }
        None
    }

    /// The externally invoked initialization, against the stored global
    /// configuration record; the stake slots are never touched.
    pub fn initialize(&mut self, signer: Identity, mint: Identity) -> (r: Result<
        InitializeEvent,
        CustomError,
    >)
        ensures
            final(self).slots_view() == old(self).slots_view(),
            old(self).wf() ==> final(self).wf(),
            ({
                let (c1, r1) = spec_initialize_checked(
                    Initialize { signer, global_state: old(self).global_state },
                    mint,
                );
                &&& final(self).global_state == c1.global_state
                &&& (match r {
                    Ok(ev) => r1 is Ok && ev.signer == signer && ev.mint == mint && ev.message@
                        == init_message(),
                    Err(e) => r1 == Err::<(), CustomError>(e),
                })
            }),
    {
        let mut ctx = Initialize { signer, global_state: self.global_state };
        let r = crate::initialize(&mut ctx, mint);
        self.global_state = ctx.global_state;
        r
    }

    /// A deposit by `caller`, whose liquid balance is behind `wallet`: the
    /// caller's record is looked up at its derived address, created fresh
    /// if absent, and the deposit transition of `deposit_sol` is applied to
    /// it. On failure nothing is stored, not even a freshly created record;
    /// records of other owners are never touched.
    pub fn deposit(&mut self, caller: Identity, wallet: &mut u64, amount: u64) -> (r: Result<
        StakeEvent,
        CustomError,
    >)
        requires
            old(self).wf(),
        ensures
            final(self).wf(),
            final(self).global_state == old(self).global_state,
            ({
                let (c1, r1) = spec_deposit(old(self).stake_ctx(caller, *old(wallet)), amount);
                &&& r == r1
                &&& *final(wallet) == c1.staker_lamports
                &&& (r is Ok ==> final(self).has_record(caller) && final(self).record_of(
                    caller,
                ).user_stake == c1.user_stake && final(self).record_of(caller).lamports
                    == c1.user_stake_lamports)
            }),
            r is Err ==> *final(self) == *old(self) && *final(wallet) == *old(wallet),
            forall|o: Identity|
                o != caller ==> ((final(self).has_record(o) <==> old(self).has_record(o)) && (old(
                    self,
                ).has_record(o) ==> final(self).record_of(o) == old(self).record_of(o))),
    {
        let addr = derive_stake_address(caller);
        let found = self.find_slot(addr);
        let mut ctx = match found {
            Some(i) => {
                proof {
                    lemma_slot_at(*self, caller, i as int);
                }
                Stake {
                    staker: caller,
                    staker_lamports: *wallet,
                    global_state: self.global_state,
                    user_stake: self.slots[i].user_stake,
                    user_stake_lamports: self.slots[i].lamports,
                }
            },
            None => Stake {
                staker: caller,
                staker_lamports: *wallet,
                global_state: self.global_state,
                user_stake: UserStake::default(),
                user_stake_lamports: 0,
            },
        };
        let r = deposit_sol(&mut ctx, amount);
        if r.is_err() {
            return r;
        }
        *wallet = ctx.staker_lamports;
        let slot = StakeSlot {
            address: addr,
            user_stake: ctx.user_stake,
            lamports: ctx.user_stake_lamports,
        };
        match found {
            Some(i) => {
                self.slots[i] = slot;
                proof {
                    lemma_store_frame(*old(self), *self, caller, i as int, slot);
                }
            },
            None => {
                let ghost n = self.slots@.len();
                self.slots.push(slot);
                proof {
                    assert(self.slots@ == old(self).slots@.push(slot));
                    lemma_push_frame(*old(self), *self, caller, slot);
                }
            },
        }
        r
    }

    /// A withdrawal by `caller`, whose liquid balance is behind `wallet`:
    /// the caller's record is looked up at its derived address and the
    /// withdrawal transition of `withdraw_sol` is applied to it. A caller
    /// without a record gets the failure a freshly created record gives,
    /// and no record is stored; records of other owners are never touched.
    pub fn withdraw(&mut self, caller: Identity, wallet: &mut u64, amount: u64) -> (r: Result<
        (),
        CustomError,
    >)
        requires
            old(self).wf(),
        ensures
            final(self).wf(),
            final(self).global_state == old(self).global_state,
            ({
                let (c1, r1) = spec_withdraw(old(self).stake_ctx(caller, *old(wallet)), amount);
                &&& r == r1
                &&& *final(wallet) == c1.staker_lamports
                &&& (r is Ok ==> final(self).has_record(caller) && final(self).record_of(
                    caller,
                ).user_stake == c1.user_stake && final(self).record_of(caller).lamports
                    == c1.user_stake_lamports)
            }),
            r is Err ==> *final(self) == *old(self) && *final(wallet) == *old(wallet),
            forall|o: Identity|
                o != caller ==> ((final(self).has_record(o) <==> old(self).has_record(o)) && (old(
                    self,
                ).has_record(o) ==> final(self).record_of(o) == old(self).record_of(o))),
    {
        let addr = derive_stake_address(caller);
        let found = self.find_slot(addr);
        match found {
            Some(i) => {
                proof {
                    lemma_slot_at(*self, caller, i as int);
                }
                let mut ctx = Stake {
                    staker: caller,
                    staker_lamports: *wallet,
                    global_state: self.global_state,
                    user_stake: self.slots[i].user_stake,
                    user_stake_lamports: self.slots[i].lamports,
                };
                let r = withdraw_sol(&mut ctx, amount);
                if r.is_err() {
                    return r;
                }
                *wallet = ctx.staker_lamports;
                let slot = StakeSlot {
                    address: addr,
                    user_stake: ctx.user_stake,
                    lamports: ctx.user_stake_lamports,
                };
                self.slots[i] = slot;
                proof {
                    lemma_store_frame(*old(self), *self, caller, i as int, slot);
                }
                r
            },
            None => {
                // A caller without a record withdraws from a freshly
                // allocated, unclaimed one, which turns every withdrawal
                // away; the failure discards the fresh record.
                let mut ctx = Stake {
                    staker: caller,
                    staker_lamports: *wallet,
                    global_state: self.global_state,
                    user_stake: UserStake::default(),
                    user_stake_lamports: 0,
                };
                withdraw_sol(&mut ctx, amount)
            },
        }
    }

    /// The stake record of `owner` and its backing value, if any deposit
    /// ever created one.
    pub fn stake_record(&self, owner: Identity) -> (r: Option<(UserStake, u64)>)
        requires
            self.wf(),
        ensures
            match r {
                Some(p) => self.has_record(owner) && p.0 == self.record_of(owner).user_stake
                    && p.1 == self.record_of(owner).lamports,
                None => !self.has_record(owner),
            },
    {
        let addr = derive_stake_address(owner);
        match self.find_slot(addr) {
            Some(i) => {
                proof {
                    lemma_slot_at(*self, owner, i as int);
                }
                Some((self.slots[i].user_stake, self.slots[i].lamports))
            },
            None => None,
        }
    }
}

/// If slot `i` carries `owner`'s derived address in a well-formed store,
/// it is the slot every lookup for `owner` answers with.
proof fn lemma_slot_at(l: Ledger, owner: Identity, i: int)
    requires
        l.wf(),
        0 <= i < l.slots_view().len(),
        l.slots_view()[i].address == RecordAddress::StakeFor(owner),
    ensures
        l.has_record(owner),
        l.record_of(owner) == l.slots_view()[i],
{
    assert(l.has_record(owner));
    let j = choose|j: int|
        0 <= j < l.slots_view().len() && l.slots_view()[j].address == RecordAddress::StakeFor(
            owner,
        );
    if i < j {
        assert(l.slots_view()[i].address != l.slots_view()[j].address);
    } else if j < i {
        assert(l.slots_view()[j].address != l.slots_view()[i].address);
    }
}

/// Overwriting `caller`'s slot in place keeps the store well formed, makes
/// the new slot the one lookups answer with, and leaves every other
/// owner's record as it was.
proof fn lemma_store_frame(pre: Ledger, post: Ledger, caller: Identity, i: int, slot: StakeSlot)
    requires
        pre.wf(),
        0 <= i < pre.slots_view().len(),
        pre.slots_view()[i].address == RecordAddress::StakeFor(caller),
        slot.address == RecordAddress::StakeFor(caller),
        post.slots_view() == pre.slots_view().update(i, slot),
    ensures
        post.wf(),
        post.has_record(caller),
        post.record_of(caller) == slot,
        forall|o: Identity|
            o != caller ==> ((post.has_record(o) <==> pre.has_record(o)) && (pre.has_record(o)
                ==> post.record_of(o) == pre.record_of(o))),
{
    assert forall|a: int, b: int|
        0 <= a < b < post.slots_view().len() implies post.slots_view()[a].address
        != post.slots_view()[b].address by {
        assert(pre.slots_view()[a].address != pre.slots_view()[b].address);
    }
    lemma_slot_at(post, caller, i);
    assert forall|o: Identity| o != caller implies ((post.has_record(o) <==> pre.has_record(o))
        && (pre.has_record(o) ==> post.record_of(o) == pre.record_of(o))) by {
        if pre.has_record(o) {
            let j = choose|j: int|
                0 <= j < pre.slots_view().len() && pre.slots_view()[j].address
                    == RecordAddress::StakeFor(o);
            assert(j != i);
            assert(post.slots_view()[j].address == RecordAddress::StakeFor(o));
            lemma_slot_at(pre, o, j);
            lemma_slot_at(post, o, j);
        }
        if post.has_record(o) {
            let j = choose|j: int|
                0 <= j < post.slots_view().len() && post.slots_view()[j].address
                    == RecordAddress::StakeFor(o);
            assert(j != i);
            assert(pre.slots_view()[j].address == RecordAddress::StakeFor(o));
        }
    }
}

/// Appending a slot at a fresh derived address keeps the store well
/// formed, makes the new slot the one lookups answer with, and leaves
/// every other owner's record as it was.
proof fn lemma_push_frame(pre: Ledger, post: Ledger, caller: Identity, slot: StakeSlot)
    requires
        pre.wf(),
        forall|j: int|
            0 <= j < pre.slots_view().len() ==> pre.slots_view()[j].address
                != RecordAddress::StakeFor(caller),
        slot.address == RecordAddress::StakeFor(caller),
        post.slots_view() == pre.slots_view().push(slot),
    ensures
        post.wf(),
        post.has_record(caller),
        post.record_of(caller) == slot,
        forall|o: Identity|
            o != caller ==> ((post.has_record(o) <==> pre.has_record(o)) && (pre.has_record(o)
                ==> post.record_of(o) == pre.record_of(o))),
{
    let n = pre.slots_view().len() as int;
    assert forall|a: int, b: int|
        0 <= a < b < post.slots_view().len() implies post.slots_view()[a].address
        != post.slots_view()[b].address by {
        if b < n {
            assert(pre.slots_view()[a].address != pre.slots_view()[b].address);
        } else {
            assert(post.slots_view()[b] == slot);
            assert(pre.slots_view()[a].address != RecordAddress::StakeFor(caller));
        }
    }
    lemma_slot_at(post, caller, n);
    assert forall|o: Identity| o != caller implies ((post.has_record(o) <==> pre.has_record(o))
        && (pre.has_record(o) ==> post.record_of(o) == pre.record_of(o))) by {
        if pre.has_record(o) {
            let j = choose|j: int|
                0 <= j < pre.slots_view().len() && pre.slots_view()[j].address
                    == RecordAddress::StakeFor(o);
            assert(post.slots_view()[j].address == RecordAddress::StakeFor(o));
            lemma_slot_at(pre, o, j);
            lemma_slot_at(post, o, j);
        }
        if post.has_record(o) {
            let j = choose|j: int|
                0 <= j < post.slots_view().len() && post.slots_view()[j].address
                    == RecordAddress::StakeFor(o);
            assert(j != n);
            assert(pre.slots_view()[j].address == RecordAddress::StakeFor(o));
        }
    }
}

} // verus!
