//! The collateral registry as the other components use it: a collateral is
//! locked while an escrow holds it, and unlocked when the escrow ends.
//! Both operations can be repeated without harm.

use vstd::prelude::*;
use crate::escrow::{Effect, EscrowManager};

verus! {

/// What one effect of the escrow manager does to the set of locked
/// collaterals: a lock adds one, an unlock takes one out, the others change
/// nothing.
pub open spec fn spec_apply_one(locked: Set<u64>, effect: Effect) -> Set<u64> {
    match effect {
        Effect::LockCollateral { collateral_id, .. } => locked.insert(collateral_id),
        Effect::UnlockCollateral { collateral_id, .. } => locked.remove(collateral_id),
        _ => locked,
    }
}

/// What a list of effects does to the set of locked collaterals, taken in
/// order.
pub open spec fn spec_apply(locked: Set<u64>, effects: Seq<Effect>) -> Set<u64>
    decreases effects.len(),
{
    if effects.len() == 0 {
        locked
    } else {
        spec_apply_one(spec_apply(locked, effects.drop_last()), effects.last())
    }
}

/// Which collaterals are locked.
#[derive(Debug)]
pub struct CollateralRegistry {
    /// The ids of the locked collaterals, each once.
    pub locked: Vec<u64>,
}

impl View for CollateralRegistry {
    type V = Set<u64>;

    /// The set of the locked collaterals.
    open spec fn view(&self) -> Set<u64> {
        self.locked@.to_set()
    }
}

impl CollateralRegistry {
    /// The registry's invariant: no id is listed twice.
    pub open spec fn wf(self) -> bool {
        self.locked@.no_duplicates()
    }

    /// A registry without locked collateral.
    pub fn new() -> (res: CollateralRegistry)
        ensures
            res.wf(),
            res@ == Set::<u64>::empty(),
    {
        let res = CollateralRegistry { locked: Vec::new() };
        proof {
            assert(res@ =~= Set::<u64>::empty());
        }
        res
    }

    /// The place of a collateral in the list, if it is locked.
    fn position(&self, collateral_id: u64) -> (res: Option<usize>)
        ensures
            match res {
                Some(i) => i < self.locked@.len() && self.locked@[i as int] == collateral_id,
                None => !self@.contains(collateral_id),
            },
    {
        let mut i: usize = 0;
        while i < self.locked.len()
            invariant
                i <= self.locked@.len(),
                forall|j: int| 0 <= j < i ==> self.locked@[j] != collateral_id,
            decreases self.locked@.len() - i,
        {
            if self.locked[i] == collateral_id {
                return Some(i);
            }
            i += 1;
        }
        proof {
            assert(!self.locked@.contains(collateral_id));
        }
        None
    }

    /// Whether the collateral is locked.
    pub fn is_locked(&self, collateral_id: u64) -> (res: bool)
        ensures
            res == self@.contains(collateral_id),
    {
        match self.position(collateral_id) {
            Some(i) => {
                proof {
                    assert(self.locked@.contains(self.locked@[i as int]));
                }
                true
            },
            None => false,
        }
    }

    /// Locks the collateral. Locking a locked collateral changes nothing.
    pub fn lock_collateral(&mut self, collateral_id: u64)
        requires
            old(self).wf(),
        ensures
            final(self).wf(),
            final(self)@ == old(self)@.insert(collateral_id),
    {
        match self.position(collateral_id) {
            Some(i) => {
                proof {
                    assert(self.locked@.contains(self.locked@[i as int]));
                    assert(self@ =~= self@.insert(collateral_id));
                }
            },
            None => {
                let ghost before = self.locked@;
                self.locked.push(collateral_id);
                proof {
                    assert(!before.contains(collateral_id));
                    assert forall|x: u64| self.locked@.contains(x) <==> (before.contains(x) || x
                        == collateral_id) by {
                        if before.contains(x) {
                            let k = before.index_of(x);
                            assert(self.locked@[k] == x);
                        }
                        if x == collateral_id {
                            assert(self.locked@[before.len() as int] == x);
                        }
                        if self.locked@.contains(x) {
                            let k = self.locked@.index_of(x);
                            if k < before.len() {
                                assert(before[k] == x);
                            }
                        }
                    }
                    assert(self@ =~= before.to_set().insert(collateral_id));
                }
            },
        }
    }

    /// Unlocks the collateral. Unlocking a collateral that is not locked
    /// changes nothing.
    pub fn unlock_collateral(&mut self, collateral_id: u64)
        requires
            old(self).wf(),
        ensures
            final(self).wf(),
            final(self)@ == old(self)@.remove(collateral_id),
    {
        match self.position(collateral_id) {
            None => {
                proof {
                    assert(self@ =~= self@.remove(collateral_id));
                }
            },
            Some(i) => {
                let ghost before = self.locked@;
                self.locked.remove(i);
                proof {
                    let after = self.locked@;
                    assert(after =~= before.remove(i as int));
                    assert forall|x: u64| after.contains(x) <==> (before.contains(x) && x
                        != collateral_id) by {
                        if after.contains(x) {
                            let k = after.index_of(x);
                            if k < i {
                                assert(before[k] == x);
                            } else {
                                assert(before[k + 1] == x);
                            }
                        }
                        if before.contains(x) && x != collateral_id {
                            let k = before.index_of(x);
                            if k < i {
                                assert(after[k] == x);
                            } else {
                                assert(after[k - 1] == x);
                            }
                        }
                    }
                    assert(self@ =~= before.to_set().remove(collateral_id));
                }
            },
        }
    }

    /// Carries out the collateral calls among the effects of a transition,
    /// in order.
    pub fn apply(&mut self, effects: &Vec<Effect>)
        requires
            old(self).wf(),
        ensures
            final(self).wf(),
            final(self)@ == spec_apply(old(self)@, effects@),
    {
        let mut i: usize = 0;
        while i < effects.len()
            invariant
                i <= effects@.len(),
                self.wf(),
                self@ == spec_apply(old(self)@, effects@.take(i as int)),
            decreases effects@.len() - i,
        {
            proof {
                let next = effects@.take(i + 1);
                assert(next.drop_last() =~= effects@.take(i as int));
                assert(next.last() == effects@[i as int]);
            }
            match effects[i] {
                Effect::LockCollateral { registry: _, collateral_id } => {
                    self.lock_collateral(collateral_id);
                },
                Effect::UnlockCollateral { registry: _, collateral_id } => {
                    self.unlock_collateral(collateral_id);
                },
                _ => {},
            }
            i += 1;
        }
        proof {
            assert(effects@.take(effects@.len() as int) =~= effects@);
        }
    }
}

/// Applying a list of effects with one more at its end is applying the
/// list and then the one.
pub proof fn apply_then_one(locked: Set<u64>, effects: Seq<Effect>, effect: Effect)
    ensures
        spec_apply(locked, effects.push(effect)) == spec_apply_one(
            spec_apply(locked, effects),
            effect,
        ),
{
    assert(effects.push(effect).drop_last() =~= effects);
    assert(effects.push(effect).last() == effect);
}

/// Creating an escrow locks its collateral, and nothing else.
pub proof fn creation_locks_collateral(
    locked: Set<u64>,
    registry: crate::address::Address,
    escrow: crate::escrow::Escrow,
)
    ensures
        spec_apply(locked, EscrowManager::creation_effects(registry, escrow)) == locked.insert(
            escrow.collateral_id,
        ),
{
    let effects = EscrowManager::creation_effects(registry, escrow);
    let none = Seq::<Effect>::empty();
    assert(effects =~= none.push(effects[0]).push(effects[1]).push(effects[2]));
    apply_then_one(locked, none, effects[0]);
    apply_then_one(locked, none.push(effects[0]), effects[1]);
    apply_then_one(locked, none.push(effects[0]).push(effects[1]), effects[2]);
}

/// Releasing an escrow, like refunding it, unlocks its collateral, and
/// nothing else.
pub proof fn settlement_unlocks_collateral(
    locked: Set<u64>,
    manager: EscrowManager,
    escrow_id: u64,
    fee_bps: u32,
)
    ensures
        spec_apply(locked, manager.release_effects(escrow_id, fee_bps)) == locked.remove(
            manager.escrow(escrow_id).collateral_id,
        ),
        spec_apply(locked, manager.refund_effects(escrow_id)) == locked.remove(
            manager.escrow(escrow_id).collateral_id,
        ),
{
    let none = Seq::<Effect>::empty();
    let refund = manager.refund_effects(escrow_id);
    assert(refund =~= none.push(refund[0]).push(refund[1]).push(refund[2]));
    apply_then_one(locked, none, refund[0]);
    apply_then_one(locked, none.push(refund[0]), refund[1]);
    apply_then_one(locked, none.push(refund[0]).push(refund[1]), refund[2]);

    let e = manager.escrow(escrow_id);
    let fee = crate::arith::spec_fee(e.amount as int, fee_bps as int)->Some_0;
    let estimate = crate::arith::spec_estimate(e.amount as int, manager.rate() as int)->Some_0;
    let pay = Effect::TransferOut { asset: e.asset, to: e.seller, amount: e.amount };
    let paid = seq![pay];
    assert(paid =~= none.push(pay));
    apply_then_one(locked, none, pay);
    let path = Effect::PathPayment {
        escrow_id,
        source_amount: e.amount,
        estimated_destination: estimate as i128,
    };
    let announced = if e.converts() {
        paid.push(path)
    } else {
        paid
    };
    apply_then_one(locked, paid, path);
    let deposit = Effect::DepositFee {
        treasury: manager.treasury->Some_0,
        asset: e.asset,
        amount: fee as i128,
    };
    let collected = Effect::FeeCollected { escrow_id, fee: fee as i128, asset: e.asset };
    let charged = if manager.treasury is Some && fee > 0 {
        announced.push(deposit).push(collected)
    } else {
        announced
    };
    apply_then_one(locked, announced, deposit);
    apply_then_one(locked, announced.push(deposit), collected);
    let unlock = Effect::UnlockCollateral {
        registry: manager.collateral_registry->Some_0,
        collateral_id: e.collateral_id,
    };
    apply_then_one(locked, charged, unlock);
    apply_then_one(locked, charged.push(unlock), Effect::EscrowReleased { escrow_id });
}

/// Locking twice is locking once, unlocking twice is unlocking once, and
/// unlocking undoes locking for a collateral that was not locked before.
pub proof fn lock_and_unlock_are_idempotent(locked: Set<u64>, collateral_id: u64)
    ensures
        locked.insert(collateral_id).insert(collateral_id) == locked.insert(collateral_id),
        locked.remove(collateral_id).remove(collateral_id) == locked.remove(collateral_id),
        !locked.contains(collateral_id) ==> locked.insert(collateral_id).remove(collateral_id)
            == locked,
{
    assert(locked.insert(collateral_id).insert(collateral_id) =~= locked.insert(collateral_id));
    assert(locked.remove(collateral_id).remove(collateral_id) =~= locked.remove(collateral_id));
    if !locked.contains(collateral_id) {
        assert(locked.insert(collateral_id).remove(collateral_id) =~= locked);
    }
}

} // verus!
