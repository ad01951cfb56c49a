//! A health counter: a natural number that blows lower, never below zero,
//! and that healing raises.

use vstd::prelude::*;

verus! {

/// The health left when a blow of `amount` lands on `health`: what remains of
/// the difference above zero.
pub open spec fn after_blow(health: nat, amount: nat) -> nat {
    if health <= amount {
        0
    } else {
        (health - amount) as nat
    }
}

/// The health after `amount` points are given back to `health`.
pub open spec fn after_heal(health: nat, amount: nat) -> nat {
    health + amount
}

/// The health left after the blows of `amounts` have landed one by one, the
/// first of them first.
pub open spec fn after_blows(health: nat, amounts: Seq<nat>) -> nat
    decreases amounts.len(),
{
    if amounts.len() == 0 {
        health
    } else {
        after_blow(after_blows(health, amounts.drop_last()), amounts.last())
    }
}

/// An entity is alive while it has health left.
pub open spec fn alive(health: nat) -> bool {
    health > 0
}

/// The health of one entity. Its view is the number of points left.
///
/// Every change goes through `&mut self`: whoever shares the counter among
/// several owners guards it, and each change is then one step that no other
/// change can come between.
#[derive(Debug)]
pub struct HealthComponent {
    points: usize,
}

impl View for HealthComponent {
    type V = nat;

    closed spec fn view(&self) -> nat {
        self.points as nat
    }
}

impl HealthComponent {
    /// A counter that starts at `initial`.
    pub fn new(initial: usize) -> (component: HealthComponent)
        ensures
            component@ == initial,
    {
        HealthComponent { points: initial }
    }

    /// The health left.
    pub fn get_health(&self) -> (health: usize)
        ensures
            health == self@,
    {
        self.points
    }

    /// Lands a blow of `value` and returns the health left: the difference,
    /// or zero where the blow is at least as large as the health.
    pub fn subtract(&mut self, value: usize) -> (left: usize)
        ensures
            final(self)@ == after_blow(old(self)@, value as nat),
            left == final(self)@,
    {
        let left: usize = if self.points < value {
            0
        } else {
            self.points - value
        };
        self.points = left;
        left
    }

    /// Gives `value` points back and returns the health after it. The sum has
    /// to fit the machine's word.
    pub fn heal(&mut self, value: usize) -> (raised: usize)
        requires
            old(self)@ + value <= usize::MAX,
        ensures
            final(self)@ == after_heal(old(self)@, value as nat),
            raised == final(self)@,
    {
        let raised: usize = self.points + value;
        self.points = raised;
        raised
    }
}

/// A blow on a fresh counter leaves the larger of the difference and zero:
/// for all `v` and `n`, the health after a blow of `n` on `v` is
/// `max(v - n, 0)`.
pub proof fn blow_leaves_clamped_difference(v: nat, n: nat)
    ensures
        after_blow(v, n) == vstd::math::max(v - n, 0),
{
}

/// Healing adds exactly what it is given, with no bound from above: for all
/// `v` and `n`, the health after `n` points are given back to `v` is `v + n`.
pub proof fn heal_adds(v: nat, n: nat)
    ensures
        after_heal(v, n) == v + n,
{
}

/// Once at zero, a counter stays there under blows: whatever their number and
/// their sizes, the health after them is zero.
pub proof fn blows_on_zero_leave_zero(amounts: Seq<nat>)
    ensures
        after_blows(0, amounts) == 0,
    decreases amounts.len(),
{
    if amounts.len() > 0 {
        blows_on_zero_leave_zero(amounts.drop_last());
    }
}

} // verus!
