//! Locations, the player, and the things that float down the river.

use vstd::prelude::*;

verus! {

/// Why the player died.
#[derive(Clone, Copy, PartialEq, Eq, Structural, Debug)]
pub enum DeathCause {
    /// Collided with an enemy.
    Enemy,
    /// Left the river channel.
    Ground,
    /// Ran out of fuel.
    Fuel,
}

/// The player's terminal state machine: `Alive` until death or quit.
#[derive(Clone, Copy, PartialEq, Eq, Structural, Debug)]
pub enum PlayerStatus {
    Dead(DeathCause),
    Alive,
    Quit,
}

/// One-way per-tick progression of an entity: alive, then a one-tick
/// corpse, then gone.
#[derive(Clone, Copy, PartialEq, Eq, Structural, Debug)]
pub enum EntityStatus {
    Alive,
    DeadBody,
    Dead,
}

/// A screen position: column across, line down.
#[derive(Clone, Copy, PartialEq, Eq, Structural, Debug)]
pub struct Location {
    pub column: u16,
    pub line: u16,
}

/// Whether `a` lies within the given rectangular margin around `b`:
/// at most `top` lines above it, `bottom` lines below it, `left` columns
/// left of it and `right` columns right of it.
pub open spec fn hits_with_margin_spec(
    a: Location,
    b: Location,
    top: u16,
    right: u16,
    bottom: u16,
    left: u16,
) -> bool {
    &&& (b.line > a.line || a.line - b.line <= bottom)
    &&& (a.line > b.line || b.line - a.line <= top)
    &&& (b.column > a.column || a.column - b.column <= left)
    &&& (a.column > b.column || b.column - a.column <= right)
}

impl Location {
    /// Builds a location from a `(column, line)` pair.
    pub fn from_loc_tuple(loc: (u16, u16)) -> (r: Self)
        ensures
            r.column == loc.0,
            r.line == loc.1,
    {
        Location { column: loc.0, line: loc.1 }
    }

    /// Builds a location from its coordinates.
    pub fn new(column: u16, line: u16) -> (r: Self)
        ensures
            r == (Location { column, line }),
    {
        Location { column, line }
    }

    /// Moves one line up, stopping at the top border.
    pub fn go_up(&mut self)
        ensures
            final(self).column == old(self).column,
            final(self).line == if old(self).line > 0 {
                (old(self).line - 1) as u16
            } else {
                0u16
            },
    {
        self.line = if self.line > 0 {
            self.line - 1
        } else {
            0
        };
    }

    /// Moves one line down.
    pub fn go_down(&mut self)
        requires
            old(self).line < u16::MAX,
        ensures
            final(self).column == old(self).column,
            final(self).line == old(self).line + 1,
    {
        self.line = self.line + 1;
    }

    /// Moves one column left, stopping at the left border.
    pub fn go_left(&mut self)
        ensures
            final(self).line == old(self).line,
            final(self).column == if old(self).column > 0 {
                (old(self).column - 1) as u16
            } else {
                0u16
            },
    {
        self.column = if self.column > 0 {
            self.column - 1
        } else {
            0
        };
    }

    /// Moves one column right.
    pub fn go_right(&mut self)
        requires
            old(self).column < u16::MAX,
        ensures
            final(self).line == old(self).line,
            final(self).column == old(self).column + 1,
    {
        self.column = self.column + 1;
    }

    /// The location one line up, clamped at the top border.
    pub fn up(&self) -> (r: Self)
        ensures
            r.column == self.column,
            r.line == if self.line > 0 {
                (self.line - 1) as u16
            } else {
                0u16
            },
    {
        let mut r = *self;
        r.go_up();
        r
    }

    /// The location one line down.
    pub fn down(&self) -> (r: Self)
        requires
            self.line < u16::MAX,
        ensures
            r.column == self.column,
            r.line == self.line + 1,
    {
        let mut r = *self;
        r.go_down();
        r
    }

    /// The location one column left, clamped at the left border.
    pub fn left(&self) -> (r: Self)
        ensures
            r.line == self.line,
            r.column == if self.column > 0 {
                (self.column - 1) as u16
            } else {
                0u16
            },
    {
        let mut r = *self;
        r.go_left();
        r
    }

    /// The location one column right.
    pub fn right(&self) -> (r: Self)
        requires
            self.column < u16::MAX,
        ensures
            r.line == self.line,
            r.column == self.column + 1,
    {
        let mut r = *self;
        r.go_right();
        r
    }

    /// Whether `other` lies within the given rectangular margin of `self`.
    pub fn hit_with_margin(
        &self,
        other: &Location,
        top: u16,
        right: u16,
        bottom: u16,
        left: u16,
    ) -> (r: bool)
        ensures
            r == hits_with_margin_spec(*self, *other, top, right, bottom, left),
    {
        (other.line > self.line || self.line - other.line <= bottom)
            && (self.line > other.line || other.line - self.line <= top)
            && (other.column > self.column || self.column - other.column <= left)
            && (self.column > other.column || other.column - self.column <= right)
    }

    /// Whether the two locations coincide exactly.
    pub fn hit(&self, other: &Location) -> (r: bool)
        ensures
            r == (self.column == other.column && self.line == other.line),
    {
        self.hit_with_margin(other, 0, 0, 0, 0)
    }
}

/// The armored obstacle kind.
#[derive(Clone, Copy, PartialEq, Eq, Structural, Debug)]
pub struct Enemy {
    /// Bullet hits left before the enemy dies.
    pub armor: u16,
}

impl Enemy {
    /// Builds an enemy with the given armor.
    pub fn new(armor: u16) -> (r: Enemy)
        ensures
            r.armor == armor,
    {
        Enemy { armor }
    }
}

/// A pickup that refuels the player on contact.
#[derive(Clone, Copy, PartialEq, Eq, Structural, Debug)]
pub struct Fuel;

/// What kind of thing an entity is.
#[derive(Clone, Copy, PartialEq, Eq, Structural, Debug)]
pub enum EntityType {
    Enemy(Enemy),
    Fuel(Fuel),
}

impl EntityType {
    /// Whether this is the fuel kind.
    pub fn is_fuel(&self) -> (r: bool)
        ensures
            r == self is Fuel,
    {
        match self {
            EntityType::Fuel(..) => true,
            _ => false,
        }
    }

    /// Whether this is the enemy kind.
    pub fn is_enemy(&self) -> (r: bool)
        ensures
            r == self is Enemy,
    {
        match self {
            EntityType::Enemy(..) => true,
            _ => false,
        }
    }

    /// The fuel payload, if this is the fuel kind.
    pub fn as_fuel(&self) -> (r: Option<&Fuel>)
        ensures
            r is Some <==> self is Fuel,
    {
        if let EntityType::Fuel(v) = self {
            Some(v)
        } else {
            None
        }
    }

    /// The enemy payload, if this is the enemy kind.
    pub fn as_enemy(&self) -> (r: Option<&Enemy>)
        ensures
            r is Some <==> self is Enemy,
            self is Enemy ==> *r->Some_0 == self->Enemy_0,
    {
        if let EntityType::Enemy(v) = self {
            Some(v)
        } else {
            None
        }
    }
}

/// A thing floating down the river: its position, lifecycle status and kind.
#[derive(Clone, Copy, PartialEq, Eq, Structural, Debug)]
pub struct Entity {
    pub location: Location,
    pub status: EntityStatus,
    pub entity_type: EntityType,
}

impl Entity {
    /// Builds a live entity of the given kind at the given spot.
    pub fn new(loc: (u16, u16), entity_type: EntityType) -> (r: Self)
        ensures
            r.location.column == loc.0,
            r.location.line == loc.1,
            r.status == EntityStatus::Alive,
            r.entity_type == entity_type,
    {
        Entity { status: EntityStatus::Alive, location: Location::from_loc_tuple(loc), entity_type }
    }
}

/// A shot fired by the player, moving up the screen.
#[derive(Clone, Copy, PartialEq, Eq, Structural, Debug)]
pub struct Bullet {
    /// Remaining lifetime in ticks.
    pub energy: u16,
    pub location: Location,
}

impl Bullet {
    /// Builds a bullet at the given spot with the given lifetime.
    pub fn new(loc: (u16, u16), energy: u16) -> (r: Self)
        ensures
            r.location.column == loc.0,
            r.location.line == loc.1,
            r.energy == energy,
    {
        Bullet { energy, location: Location::from_loc_tuple(loc) }
    }
}

/// The player: position, terminal status, resources and in-flight bullets.
pub struct Player {
    pub location: Location,
    pub status: PlayerStatus,
    pub fuel: u16,
    pub score: u16,
    pub traveled: u16,
    pub bullets: Vec<Bullet>,
}

impl Player {
    /// Builds a live player at the given spot with the given fuel, no score,
    /// no distance traveled and no bullets.
    pub fn new(loc: (u16, u16), fuel: u16) -> (r: Self)
        ensures
            r.location.column == loc.0,
            r.location.line == loc.1,
            r.status == PlayerStatus::Alive,
            r.fuel == fuel,
            r.score == 0,
            r.traveled == 0,
            r.bullets@ == Seq::<Bullet>::empty(),
    {
        Player {
            location: Location::from_loc_tuple(loc),
            status: PlayerStatus::Alive,
            fuel,
            score: 0,
            traveled: 0,
            bullets: Vec::new(),
        }
    }

    /// Moves one line up (clamped at the top) and counts the line as
    /// distance traveled, saturating at the largest count.
    pub fn go_up(&mut self)
        ensures
            final(self).location == old(self).location.up_spec(),
            final(self).traveled == if old(self).traveled < u16::MAX {
                (old(self).traveled + 1) as u16
            } else {
                u16::MAX
            },
            final(self).status == old(self).status,
            final(self).fuel == old(self).fuel,
            final(self).score == old(self).score,
            final(self).bullets == old(self).bullets,
    {
        if self.traveled < u16::MAX {
            self.traveled = self.traveled + 1;
        }
        self.location.go_up();
    }

    /// Moves one line down and uncounts one line of distance, stopping both
    /// at their borders.
    pub fn go_down(&mut self)
        requires
            old(self).location.line < u16::MAX,
        ensures
            final(self).location == old(self).location.down_spec(),
            final(self).traveled == if old(self).traveled > 0 {
                (old(self).traveled - 1) as u16
            } else {
                0u16
            },
            final(self).status == old(self).status,
            final(self).fuel == old(self).fuel,
            final(self).score == old(self).score,
            final(self).bullets == old(self).bullets,
    {
        if self.traveled > 0 {
            self.traveled = self.traveled - 1;
        }
        self.location.go_down();
    }

    /// Moves one column left, stopping at the left border.
    pub fn go_left(&mut self)
        ensures
            final(self).location == old(self).location.left_spec(),
            final(self).traveled == old(self).traveled,
            final(self).status == old(self).status,
            final(self).fuel == old(self).fuel,
            final(self).score == old(self).score,
            final(self).bullets == old(self).bullets,
    {
        self.location.go_left();
    }

    /// Moves one column right.
    pub fn go_right(&mut self)
        requires
            old(self).location.column < u16::MAX,
        ensures
            final(self).location == old(self).location.right_spec(),
            final(self).traveled == old(self).traveled,
            final(self).status == old(self).status,
            final(self).fuel == old(self).fuel,
            final(self).score == old(self).score,
            final(self).bullets == old(self).bullets,
    {
        self.location.go_right();
    }
}

impl Location {
    /// The location one line up, clamped at the top border.
    pub open spec fn up_spec(self) -> Location {
        Location {
            column: self.column,
            line: if self.line > 0 {
                (self.line - 1) as u16
            } else {
                0u16
            },
        }
    }

    /// The location one line down.
    pub open spec fn down_spec(self) -> Location {
        Location { column: self.column, line: (self.line + 1) as u16 }
    }

    /// The location one column left, clamped at the left border.
    pub open spec fn left_spec(self) -> Location {
        Location {
            line: self.line,
            column: if self.column > 0 {
                (self.column - 1) as u16
            } else {
                0u16
            },
        }
    }

    /// The location one column right.
    pub open spec fn right_spec(self) -> Location {
        Location { line: self.line, column: (self.column + 1) as u16 }
    }
}

} // verus!
