use crate::unit::{blow_of, roll_fits, Blow, Unit, UnitView};
use vstd::prelude::*;

verus! {

/// Outcome code: nobody was killed.
pub const NO_KILL: i32 = 0;

/// Outcome code: the defender was killed by the attack.
pub const DEFENDER_KILLED: i32 = 1;

/// Outcome code: the attacker was killed by the counterattack.
pub const ATTACKER_KILLED: i32 = 2;

/// One step of an exchange, in the order in which it happens.
#[derive(Clone, Copy, Debug, PartialEq, Eq, Structural)]
pub enum CombatEvent {
    /// The attacker prepares to attack.
    AttackDeclared,
    /// The attacker's blow on the defender.
    Attack(Blow),
    /// The defender prepares to counterattack.
    CounterDeclared,
    /// The defender's blow on the attacker.
    Counter(Blow),
    /// The defender survived but may not strike back.
    NoCounter,
    DefenderKilled,
    AttackerKilled,
    CombatEnds,
}

/// A defender that took a blow of `attack_roll` lives and strikes back.
pub open spec fn counter_follows(defender: UnitView, range: int, attack_roll: int) -> bool {
    defender.struck(attack_roll).live() && defender.struck(attack_roll).can_counter(range)
}

/// The states of attacker and defender after an exchange with the given
/// rolls (`-1` is a miss), and its outcome code.
pub open spec fn exchange(
    attacker: UnitView,
    defender: UnitView,
    range: int,
    attack_roll: int,
    counter_roll: int,
) -> (UnitView, UnitView, int) {
    let hit = defender.struck(attack_roll);
    if !hit.live() {
        (attacker, hit.reconciled(), DEFENDER_KILLED as int)
    } else if !hit.can_counter(range) || counter_roll == -1 {
        (attacker, hit, NO_KILL as int)
    } else {
        let countered = attacker.struck(counter_roll);
        (
            countered.reconciled(),
            hit,
            if countered.live() {
                NO_KILL as int
            } else {
                ATTACKER_KILLED as int
            },
        )
    }
}

/// The events of an exchange with the given rolls.
pub open spec fn narration(
    attacker: UnitView,
    defender: UnitView,
    range: int,
    attack_roll: int,
    counter_roll: int,
) -> Seq<CombatEvent> {
    let hit = defender.struck(attack_roll);
    let opening = seq![CombatEvent::AttackDeclared, CombatEvent::Attack(blow_of(attack_roll, defender))];
    if !hit.live() {
        opening + seq![CombatEvent::DefenderKilled, CombatEvent::CombatEnds]
    } else if !hit.can_counter(range) {
        opening + seq![CombatEvent::NoCounter, CombatEvent::CombatEnds]
    } else {
        let riposte = opening + seq![
            CombatEvent::CounterDeclared,
            CombatEvent::Counter(blow_of(counter_roll, attacker)),
        ];
        if counter_roll != -1 && !attacker.struck(counter_roll).live() {
            riposte.push(CombatEvent::AttackerKilled)
        } else {
            riposte.push(CombatEvent::CombatEnds)
        }
    }
}

/// A roll that [`Unit::get_damage`] can give for a unit `u`.
pub open spec fn possible_roll(u: UnitView, roll: int) -> bool {
    ||| roll == -1 && u.basehit < 99
    ||| u.may_hit() && u.mindamage <= roll < u.maxdamage
}

/// The exchange with given rolls: the attacker's blow lands on the defender;
/// a defender that then lives, and may counter at `range`, strikes back with
/// `counter_roll`. The liveness of the defender, and after a landed counter
/// that of the attacker, is queried (and reconciled) on the way. Returns the
/// outcome code and appends the events to `log`.
pub fn resolve(
    unit: &mut Unit,
    unit2: &mut Unit,
    range: i32,
    attack_roll: i32,
    counter_roll: i32,
    log: &mut Vec<CombatEvent>,
) -> (r: i32)
    requires
        roll_fits(attack_roll as int, old(unit2)@),
        roll_fits(counter_roll as int, old(unit)@),
    ensures
        (final(unit)@, final(unit2)@, r as int) == exchange(
            old(unit)@,
            old(unit2)@,
            range as int,
            attack_roll as int,
            counter_roll as int,
        ),
        final(log)@ == old(log)@ + narration(
            old(unit)@,
            old(unit2)@,
            range as int,
            attack_roll as int,
            counter_roll as int,
        ),
{
    log.push(CombatEvent::AttackDeclared);
    let blow = unit2.take_blow(attack_roll);
    log.push(CombatEvent::Attack(blow));
    if !unit2.is_alive() {
        log.push(CombatEvent::DefenderKilled);
        log.push(CombatEvent::CombatEnds);
        return DEFENDER_KILLED;
    }
    if !unit2.can_counter(range) {
        log.push(CombatEvent::NoCounter);
        log.push(CombatEvent::CombatEnds);
        return NO_KILL;
    }
    log.push(CombatEvent::CounterDeclared);
    let riposte = unit.take_blow(counter_roll);
    log.push(CombatEvent::Counter(riposte));
    if counter_roll == -1 {
        log.push(CombatEvent::CombatEnds);
        return NO_KILL;
    }
    if unit.is_alive() {
        log.push(CombatEvent::CombatEnds);
        NO_KILL
    } else {
        log.push(CombatEvent::AttackerKilled);
        ATTACKER_KILLED
    }
}

/// One attack-and-counter exchange between two living units, with rolls
/// drawn at random: the attacker always rolls, the defender only when it
/// survives and may counter. Returns the outcome code ([`NO_KILL`],
/// [`DEFENDER_KILLED`] or [`ATTACKER_KILLED`]) and appends the events to `log`;
/// the result is that of [`resolve`] for some rolls the units can make.
pub fn combat(unit: &mut Unit, unit2: &mut Unit, range: i32, log: &mut Vec<CombatEvent>) -> (r: i32)
    requires
        old(unit)@.live(),
        old(unit2)@.live(),
        old(unit)@.roll_defined(),
        old(unit)@.blow_fits(old(unit2)@),
        old(unit2)@.can_counter(range as int) ==> old(unit2)@.roll_defined(),
        old(unit2)@.can_counter(range as int) ==> old(unit2)@.blow_fits(old(unit)@),
    ensures
        exists|attack_roll: int, counter_roll: int|
            {
                &&& possible_roll(old(unit)@, attack_roll)
                &&& counter_follows(old(unit2)@, range as int, attack_roll) ==> possible_roll(
                    old(unit2)@,
                    counter_roll,
                )
                &&& (final(unit)@, final(unit2)@, r as int) == exchange(
                    old(unit)@,
                    old(unit2)@,
                    range as int,
                    attack_roll,
                    counter_roll,
                )
                &&& final(log)@ == old(log)@ + narration(
                    old(unit)@,
                    old(unit2)@,
                    range as int,
                    attack_roll,
                    counter_roll,
                )
            },
{
    let attack_roll = unit.get_damage();
    let counter_roll = if unit2.survives(attack_roll) && unit2.can_counter(range) {
        unit2.get_damage()
    } else {
        -1
    };
    let r = resolve(unit, unit2, range, attack_roll, counter_roll, log);
    assert(possible_roll(old(unit)@, attack_roll as int));
    r
}

/// An attack whose damage through the armor reaches the defender's health
/// kills the defender: the outcome is "defender killed", the attacker is
/// untouched and no counterattack is declared, whatever the counter roll.
pub proof fn lemma_lethal_attack_prevents_counter(
    attacker: UnitView,
    defender: UnitView,
    range: int,
    attack_roll: int,
    counter_roll: int,
)
    requires
        attack_roll != -1,
        attack_roll - defender.armor >= defender.health,
    ensures
        ({
            let (a, d, outcome) = exchange(attacker, defender, range, attack_roll, counter_roll);
            &&& outcome == DEFENDER_KILLED
            &&& a == attacker
            &&& !d.live()
            &&& !d.alive
        }),
        !narration(attacker, defender, range, attack_roll, counter_roll).contains(
            CombatEvent::CounterDeclared,
        ),
{
    let events = narration(attacker, defender, range, attack_roll, counter_roll);
    assert(events[0] != CombatEvent::CounterDeclared);
    assert(events[1] != CombatEvent::CounterDeclared);
    assert(events[2] != CombatEvent::CounterDeclared);
    assert(events[3] != CombatEvent::CounterDeclared);
}

/// A defender without the counter capability that survives the attack never
/// strikes back, at any range: nobody is killed and the attacker is untouched.
pub proof fn lemma_no_counter_without_capability(
    attacker: UnitView,
    defender: UnitView,
    range: int,
    attack_roll: int,
    counter_roll: int,
)
    requires
        !defender.counter,
        defender.struck(attack_roll).live(),
    ensures
        ({
            let (a, d, outcome) = exchange(attacker, defender, range, attack_roll, counter_roll);
            &&& outcome == NO_KILL
            &&& a == attacker
            &&& d == defender.struck(attack_roll)
        }),
        narration(attacker, defender, range, attack_roll, counter_roll) == seq![
            CombatEvent::AttackDeclared,
            CombatEvent::Attack(blow_of(attack_roll, defender)),
            CombatEvent::NoCounter,
            CombatEvent::CombatEnds,
        ],
{
    assert(narration(attacker, defender, range, attack_roll, counter_roll) =~= seq![
        CombatEvent::AttackDeclared,
        CombatEvent::Attack(blow_of(attack_roll, defender)),
        CombatEvent::NoCounter,
        CombatEvent::CombatEnds,
    ]);
}

/// A closed range of values, `low` to `high`.
#[derive(Clone, Copy, Debug, PartialEq, Eq, Structural)]
pub struct Band {
    pub low: i64,
    pub high: i64,
}

/// The best and worst case of an exchange, without any roll.
#[derive(Clone, Copy, Debug, PartialEq, Eq, Structural)]
pub struct CombatPreview {
    /// Damage the attack may deal.
    pub attack_damage: Band,
    /// Health the defender may be left with.
    pub defender_health: Band,
    /// Damage the counterattack may deal; `None` when the defender may not
    /// strike back.
    pub counter_damage: Option<Band>,
    /// Health the attacker may be left with.
    pub attacker_health: Band,
}

pub open spec fn clamp_non_negative(x: int) -> int {
    if x < 0 {
        0
    } else {
        x
    }
}

/// The damage band of `striker` on `target`: its damage bounds less the
/// target's armor, each raised to zero.
pub open spec fn damage_band(striker: UnitView, target: UnitView) -> Band {
    Band {
        low: clamp_non_negative(striker.mindamage - target.armor) as i64,
        high: clamp_non_negative(striker.maxdamage - target.armor) as i64,
    }
}

/// The health band of `target` after a blow within `damage`.
pub open spec fn health_band(target: UnitView, damage: Band) -> Band {
    Band { low: (target.health - damage.high) as i64, high: (target.health - damage.low) as i64 }
}

/// The preview of an exchange between `attacker` and `defender` at `range`.
pub open spec fn preview_of(attacker: UnitView, defender: UnitView, range: int) -> CombatPreview {
    let attack = damage_band(attacker, defender);
    if defender.can_counter(range) {
        let riposte = damage_band(defender, attacker);
        CombatPreview {
            attack_damage: attack,
            defender_health: health_band(defender, attack),
            counter_damage: Some(riposte),
            attacker_health: health_band(attacker, riposte),
        }
    } else {
        CombatPreview {
            attack_damage: attack,
            defender_health: health_band(defender, attack),
            counter_damage: None,
            attacker_health: Band { low: attacker.health as i64, high: attacker.health as i64 },
        }
    }
}

fn band_of(striker: &Unit, target: &Unit) -> (r: Band)
    ensures
        r == damage_band(striker@, target@),
        0 <= r.low <= 0x1_0000_0000,
        0 <= r.high <= 0x1_0000_0000,
{
    let mut low: i64 = striker.mindamage() as i64 - target.armor() as i64;
    let mut high: i64 = striker.maxdamage() as i64 - target.armor() as i64;
    if low < 0 {
        low = 0;
    }
    if high < 0 {
        high = 0;
    }
    Band { low, high }
}

fn remaining(target: &Unit, damage: Band) -> (r: Band)
    requires
        0 <= damage.low <= 0x1_0000_0000,
        0 <= damage.high <= 0x1_0000_0000,
    ensures
        r == health_band(target@, damage),
{
    Band { low: target.health() as i64 - damage.high, high: target.health() as i64 - damage.low }
}

/// The best and worst case of an exchange between two living units at
/// `range`, computed from the damage bounds and armor alone. Neither unit is
/// changed.
pub fn possible_combat_results(unit: &Unit, unit2: &Unit, range: i32) -> (r: CombatPreview)
    requires
        unit@.live(),
        unit2@.live(),
    ensures
        r == preview_of(unit@, unit2@, range as int),
{
    let attack = band_of(unit, unit2);
    let defender_health = remaining(unit2, attack);
    if unit2.can_counter(range) {
        let riposte = band_of(unit2, unit);
        CombatPreview {
            attack_damage: attack,
            defender_health,
            counter_damage: Some(riposte),
            attacker_health: remaining(unit, riposte),
        }
    } else {
        CombatPreview {
            attack_damage: attack,
            defender_health,
            counter_damage: None,
            attacker_health: Band { low: unit.health() as i64, high: unit.health() as i64 },
        }
    }
}

} // verus!
