use rand::Rng;
use vstd::prelude::*;

verus! {

/// Number of animation frames each unit type owns in the asset table.
pub const FRAMES_PER_UNIT: i32 = 4;

/// The mathematical model of a [`Unit`].
pub struct UnitView {
    pub id: int,
    pub currentframe: int,
    pub name: Seq<char>,
    pub x: int,
    pub y: int,
    pub player_owned: bool,
    pub alive: bool,
    pub counter: bool,
    pub health: int,
    pub maxhealth: int,
    pub moverange: int,
    pub attackrange: int,
    pub armor: int,
    pub maxdamage: int,
    pub mindamage: int,
    pub basehit: int,
}

/// Health lost by a target with the given armor to a roll (`-1` is a miss).
/// Armor absorbs the whole blow when it is at least the roll.
pub open spec fn damage_taken(roll: int, armor: int) -> int {
    if roll != -1 && roll - armor > 0 {
        roll - armor
    } else {
        0
    }
}

impl UnitView {
    /// The unit is alive: not marked dead and with positive health.
    pub open spec fn live(self) -> bool {
        self.alive && self.health > 0
    }

    /// The state after a liveness query: a unit still marked alive whose
    /// health is not positive becomes dead; any other state is kept.
    pub open spec fn reconciled(self) -> UnitView {
        if self.alive && self.health <= 0 {
            UnitView { alive: false, ..self }
        } else {
            self
        }
    }

    /// The state after taking a blow of the given roll.
    pub open spec fn struck(self, roll: int) -> UnitView {
        UnitView { health: self.health - damage_taken(roll, self.armor), ..self }
    }

    /// A hit is possible (some draw in `1..100` is at most `basehit`).
    pub open spec fn may_hit(self) -> bool {
        self.basehit >= 1
    }

    /// A damage roll can be made without an empty damage range.
    pub open spec fn roll_defined(self) -> bool {
        self.may_hit() ==> self.mindamage < self.maxdamage
    }

    /// The strongest blow this unit can roll against `target` leaves the
    /// damage and the target's health within `i32`.
    pub open spec fn blow_fits(self, target: UnitView) -> bool {
        let strongest = self.maxdamage - 1 - target.armor;
        self.may_hit() && strongest > 0 ==> {
            &&& strongest <= i32::MAX
            &&& target.health - strongest >= i32::MIN
        }
    }

    /// This unit may strike back at an attacker standing at `range`.
    pub open spec fn can_counter(self, range: int) -> bool {
        range <= self.attackrange && self.counter
    }
}

/// The damage of `roll` on `target`, and the health it leaves, fit in `i32`.
pub open spec fn roll_fits(roll: int, target: UnitView) -> bool {
    roll != -1 && roll - target.armor > 0 ==> {
        &&& roll - target.armor <= i32::MAX
        &&& target.health - (roll - target.armor) >= i32::MIN
    }
}

/// A liveness query on a unit marked alive with non-positive health reports
/// it dead and marks it dead; a second query reports dead again and changes
/// nothing. A living unit is reported alive and left unchanged.
pub proof fn lemma_liveness_reconciliation(u: UnitView)
    ensures
        u.reconciled().live() == u.live(),
        u.reconciled().reconciled() == u.reconciled(),
        u.live() ==> u.reconciled() == u,
        u.alive && u.health <= 0 ==> !u.reconciled().alive,
{
}

/// Armor at least as large as the roll absorbs the whole blow: the target's
/// health is unchanged, never raised.
pub proof fn lemma_armor_absorbs(target: UnitView, roll: int)
    requires
        roll <= target.armor,
    ensures
        target.struck(roll) == target,
        blow_of(roll, target) is Miss || blow_of(roll, target) is Absorbed,
{
    assert(target.struck(roll) =~= target);
}

/// What a single blow did to its target.
#[derive(Clone, Copy, Debug, PartialEq, Eq, Structural)]
pub enum Blow {
    /// The hit roll failed.
    Miss,
    /// The blow got through the armor.
    Hit { damage: i32, remaining: i32 },
    /// The armor absorbed the whole blow.
    Absorbed,
}

/// The report of a blow of `roll` on `target`.
pub open spec fn blow_of(roll: int, target: UnitView) -> Blow {
    if roll == -1 {
        Blow::Miss
    } else if roll - target.armor > 0 {
        Blow::Hit {
            damage: (roll - target.armor) as i32,
            remaining: (target.health - (roll - target.armor)) as i32,
        }
    } else {
        Blow::Absorbed
    }
}

/// Where a unit is drawn: an index into the asset table and a position.
#[derive(Clone, Copy, Debug, PartialEq, Eq, Structural)]
pub struct Sprite {
    pub image: usize,
    pub x: i32,
    pub y: i32,
}

/// One combatant: identity, position and combat statistics.
#[derive(Clone, Debug)]
pub struct Unit {
    id: i32,
    currentframe: i32,
    name: String,
    pub x: i32,
    pub y: i32,
    pub player_owned: bool,
    alive: bool,
    counter: bool,
    health: i32,
    maxhealth: i32,
    pub moverange: i32,
    pub attackrange: i32,
    armor: i32,
    maxdamage: i32,
    mindamage: i32,
    basehit: i32,
}

impl View for Unit {
    type V = UnitView;

    closed spec fn view(&self) -> UnitView {
        UnitView {
            id: self.id as int,
            currentframe: self.currentframe as int,
            name: self.name@,
            x: self.x as int,
            y: self.y as int,
            player_owned: self.player_owned,
            alive: self.alive,
            counter: self.counter,
            health: self.health as int,
            maxhealth: self.maxhealth as int,
            moverange: self.moverange as int,
            attackrange: self.attackrange as int,
            armor: self.armor as int,
            maxdamage: self.maxdamage as int,
            mindamage: self.mindamage as int,
            basehit: self.basehit as int,
        }
    }
}

/// Relies on rand's `thread_rng().gen_range(low, high)`: a uniform draw in
/// `[low, high)`; it panics when `low >= high`, which `requires` rules out.
#[verifier::external_body]
fn draw_between(low: i32, high: i32) -> (r: i32)
    requires
        low < high,
    ensures
        low <= r < high,
{
    rand::thread_rng().gen_range(low, high)
}

impl Unit {
    /// A unit with zero statistics, alive, able to counter, named "Default".
    pub fn new(player_owned: bool) -> (r: Unit)
        ensures
            r@ == (UnitView {
                id: 0,
                currentframe: 0,
                name: "Default"@,
                x: 0,
                y: 0,
                player_owned,
                alive: true,
                counter: true,
                health: 0,
                maxhealth: 0,
                moverange: 0,
                attackrange: 0,
                armor: 0,
                maxdamage: 0,
                mindamage: 0,
                basehit: 0,
            }),
    {
        Unit {
            id: 0,
            currentframe: 0,
            name: "Default".to_owned(),
            x: 0,
            y: 0,
            player_owned,
            alive: true,
            counter: true,
            health: 0,
            maxhealth: 0,
            moverange: 0,
            attackrange: 0,
            armor: 0,
            maxdamage: 0,
            mindamage: 0,
            basehit: 0,
        }
    }

    /// A unit with the given statistics, at the origin, on its first frame.
    pub fn new_custom(
        id: i32,
        name: &str,
        player_owned: bool,
        alive: bool,
        counter: bool,
        maxhealth: i32,
        health: i32,
        moverange: i32,
        attackrange: i32,
        armor: i32,
        maxdamage: i32,
        mindamage: i32,
        basehit: i32,
    ) -> (r: Unit)
        ensures
            r@ == (UnitView {
                id: id as int,
                currentframe: 0,
                name: name@,
                x: 0,
                y: 0,
                player_owned,
                alive,
                counter,
                health: health as int,
                maxhealth: maxhealth as int,
                moverange: moverange as int,
                attackrange: attackrange as int,
                armor: armor as int,
                maxdamage: maxdamage as int,
                mindamage: mindamage as int,
                basehit: basehit as int,
            }),
    {
        Unit {
            id,
            currentframe: 0,
            name: name.to_owned(),
            x: 0,
            y: 0,
            player_owned,
            alive,
            counter,
            health,
            maxhealth,
            moverange,
            attackrange,
            armor,
            maxdamage,
            mindamage,
            basehit,
        }
    }

    /// The liveness query. Reports whether the unit is alive and reconciles
    /// its state: a unit still marked alive whose health has dropped to zero
    /// or below is marked dead, for good.
    pub fn is_alive(&mut self) -> (r: bool)
        ensures
            r == old(self)@.live(),
            final(self)@ == old(self)@.reconciled(),
    {
        if self.alive && self.health > 0 {
            return true;
        }
        if !self.alive {
            return false;
        }
        self.alive = false;
        false
    }

    /// Whether the unit is dead, without reconciling its state.
    pub fn is_dead(&self) -> (r: bool)
        ensures
            r == !self@.live(),
    {
        !(self.alive && self.health > 0)
    }

    /// The damage roll: a draw in `1..100` hits when it is at most `basehit`,
    /// and a hit rolls its damage in `[mindamage, maxdamage)`; a miss gives `-1`.
    /// The damage range is kept half-open, so `maxdamage` itself is never
    /// rolled, and a unit that may hit needs `mindamage < maxdamage`.
    pub fn get_damage(&self) -> (r: i32)
        requires
            self@.roll_defined(),
        ensures
            r == -1 || self@.mindamage <= r < self@.maxdamage,
            !self@.may_hit() ==> r == -1,
            self@.basehit >= 99 ==> self@.mindamage <= r < self@.maxdamage,
    {
        let draw = draw_between(1, 100);
        if draw <= self.basehit {
            draw_between(self.mindamage, self.maxdamage)
        } else {
            -1
        }
    }

    /// Takes a blow of `roll` (`-1` is a miss): health drops by what gets
    /// through the armor, with no floor; `alive` is left as it is. Health is
    /// never capped at `maxhealth`.
    pub fn take_blow(&mut self, roll: i32) -> (r: Blow)
        requires
            roll_fits(roll as int, old(self)@),
        ensures
            final(self)@ == old(self)@.struck(roll as int),
            r == blow_of(roll as int, old(self)@),
    {
        if roll == -1 {
            return Blow::Miss;
        }
        let damage: i64 = roll as i64 - self.armor as i64;
        if damage > 0 {
            self.health = (self.health as i64 - damage) as i32;
            Blow::Hit { damage: damage as i32, remaining: self.health }
        } else {
            Blow::Absorbed
        }
    }

    /// Whether the unit would still be alive after a blow of `roll`.
    pub fn survives(&self, roll: i32) -> (r: bool)
        requires
            roll_fits(roll as int, self@),
        ensures
            r == self@.struck(roll as int).live(),
    {
        let mut damage: i64 = 0;
        if roll != -1 && roll as i64 - self.armor as i64 > 0 {
            damage = roll as i64 - self.armor as i64;
        }
        self.alive && self.health as i64 - damage > 0
    }

    /// Whether the unit may strike back at an attacker standing at `range`.
    pub fn can_counter(&self, range: i32) -> (r: bool)
        ensures
            r == self@.can_counter(range as int),
    {
        range <= self.attackrange && self.counter
    }

    pub fn id(&self) -> (r: i32)
        ensures
            r == self@.id,
    {
        self.id
    }

    pub fn currentframe(&self) -> (r: i32)
        ensures
            r == self@.currentframe,
    {
        self.currentframe
    }

    pub fn name(&self) -> (r: &str)
        ensures
            r@ == self@.name,
    {
        self.name.as_str()
    }

    /// The stored `alive` flag, as it is (no reconciliation).
    pub fn alive(&self) -> (r: bool)
        ensures
            r == self@.alive,
    {
        self.alive
    }

    pub fn counter(&self) -> (r: bool)
        ensures
            r == self@.counter,
    {
        self.counter
    }

    pub fn health(&self) -> (r: i32)
        ensures
            r == self@.health,
    {
        self.health
    }

    pub fn maxhealth(&self) -> (r: i32)
        ensures
            r == self@.maxhealth,
    {
        self.maxhealth
    }

    pub fn armor(&self) -> (r: i32)
        ensures
            r == self@.armor,
    {
        self.armor
    }

    pub fn maxdamage(&self) -> (r: i32)
        ensures
            r == self@.maxdamage,
    {
        self.maxdamage
    }

    pub fn mindamage(&self) -> (r: i32)
        ensures
            r == self@.mindamage,
    {
        self.mindamage
    }

    pub fn basehit(&self) -> (r: i32)
        ensures
            r == self@.basehit,
    {
        self.basehit
    }

    /// Where to draw the unit: the asset at `id * FRAMES_PER_UNIT +
    /// currentframe`, or `None` when that index is not below `image_count`.
    pub fn draw(&self, image_count: usize) -> (r: Option<Sprite>)
        ensures
            ({
                let i = self@.id * FRAMES_PER_UNIT + self@.currentframe;
                if 0 <= i < image_count {
                    r == Some(Sprite { image: i as usize, x: self@.x as i32, y: self@.y as i32 })
                } else {
                    r is None
                }
            }),
    {
        let frames: i64 = FRAMES_PER_UNIT as i64;
        assert(-0x8000_0000 * 4 <= self.id as i64 * frames <= 0x7fff_ffff * 4) by (nonlinear_arith)
            requires
                frames == 4,
                i32::MIN <= self.id <= i32::MAX,
        ;
        let i: i64 = self.id as i64 * frames + self.currentframe as i64;
        if 0 <= i && (i as u64) < image_count as u64 {
            Some(Sprite { image: i as usize, x: self.x, y: self.y })
        } else {
            None
        }
    }
}

} // verus!
