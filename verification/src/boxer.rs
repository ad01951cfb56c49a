//! Two buttons and one health counter: what a press of either button does to
//! the counter, and which message answers it.

use crate::health::{after_blow, after_heal, alive, HealthComponent};
use vstd::prelude::*;

verus! {

/// The points that one press of the hit button takes.
pub const HIT_DAMAGE: usize = 1;

/// The points that one press of the heal button gives back.
pub const HEAL_AMOUNT: usize = 5;

/// The answers that the window can give to a press.
#[derive(Clone, Copy, Debug, PartialEq, Eq, Structural)]
pub enum Message {
    /// A blow landed and left some health.
    Hit,
    /// A blow landed and left none.
    Dead,
    /// Health was given back.
    Heal,
}

impl Message {
    /// The words of this message.
    pub open spec fn words(self) -> Seq<char> {
        match self {
            Message::Hit => "Ой! Ты ударил меня!"@,
            Message::Dead => "..."@,
            Message::Heal => "Спасибо!"@,
        }
    }

    /// The words to show for this message.
    pub fn text(self) -> (text: &'static str)
        ensures
            text@ == self.words(),
    {
        match self {
            Message::Hit => "Ой! Ты ударил меня!",
            Message::Dead => "...",
            Message::Heal => "Спасибо!",
        }
    }
}

/// The answer to a blow that left `left` points: `Dead` where none is left,
/// `Hit` otherwise.
pub open spec fn answer_to_blow(left: nat) -> Message {
    if alive(left) {
        Message::Hit
    } else {
        Message::Dead
    }
}

/// Chooses the answer to a blow that left `left` points.
pub fn message_for_blow(left: usize) -> (message: Message)
    ensures
        message == answer_to_blow(left as nat),
{
    if left == 0 {
        Message::Dead
    } else {
        Message::Hit
    }
}

/// What the window shows after a press: the message and the health.
#[derive(Clone, Copy, Debug, PartialEq, Eq, Structural)]
pub struct Report {
    pub message: Message,
    pub health: usize,
}

/// A press of the hit button: the counter loses `HIT_DAMAGE` points, as far
/// as it has them, and the report tells whether any are left.
pub fn hit(health: &mut HealthComponent) -> (report: Report)
    ensures
        final(health)@ == after_blow(old(health)@, HIT_DAMAGE as nat),
        report.health == final(health)@,
        report.message == answer_to_blow(final(health)@),
{
    let left: usize = health.subtract(HIT_DAMAGE);
    Report { message: message_for_blow(left), health: left }
}

/// A press of the heal button: the counter gains `HEAL_AMOUNT` points, which
/// have to fit the machine's word, and the report thanks for them.
pub fn heal(health: &mut HealthComponent) -> (report: Report)
    requires
        old(health)@ + HEAL_AMOUNT <= usize::MAX,
    ensures
        final(health)@ == after_heal(old(health)@, HEAL_AMOUNT as nat),
        report.health == final(health)@,
        report.message == Message::Heal,
{
    let raised: usize = health.heal(HEAL_AMOUNT);
    Report { message: Message::Heal, health: raised }
}

/// The hit button kills exactly where at most its damage is left: the answer
/// to a blow of `HIT_DAMAGE` on `health` is `Dead` if and only if `health` is
/// at most `HIT_DAMAGE`.
pub proof fn blow_kills_the_weak(health: nat)
    ensures
        answer_to_blow(after_blow(health, HIT_DAMAGE as nat)) == Message::Dead <==> health
            <= HIT_DAMAGE,
{
}

/// The heal button brings the dead back: whatever the health before, the
/// entity is alive after it.
pub proof fn healing_revives(health: nat)
    ensures
        alive(after_heal(health, HEAL_AMOUNT as nat)),
{
}

} // verus!
