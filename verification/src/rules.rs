//! The per-tick simulation rules: player death, entity lifecycle and
//! collision resolution, movement, and probabilistic spawning.
//!
//! Each rule is an `Always`-triggered handler in the running game. The
//! collision resolver is specified by a pure fold (`resolve_pass`) over the
//! entity list: every entity takes at most one status step per pass, and
//! the player's fuel, score and death cause follow exactly from contacts
//! and bullet hits.

use vstd::prelude::*;
use crate::entities::{
    hits_with_margin_spec, Bullet, DeathCause, Enemy, Entity, EntityStatus, EntityType, Fuel,
    Location, Player, PlayerStatus,
};
use crate::map::RiverMap;
use crate::rng::rand_in_range;
use crate::world::World;

verus! {

/// `a + b` capped at the largest `u16`.
pub open spec fn sat_add(a: u16, b: u16) -> u16 {
    if a + b > u16::MAX {
        u16::MAX
    } else {
        (a + b) as u16
    }
}

/// Whether a bullet's tolerance box covers an entity: one line above or
/// below it, same column.
pub open spec fn bullet_hits(b: Bullet, e: Entity) -> bool {
    hits_with_margin_spec(b.location, e.location, 1, 0, 1, 0)
}

/// What one qualifying bullet hit does: an enemy with more than one armor
/// loses one; an enemy with its last armor becomes a corpse and scores 10;
/// a fuel pickup becomes a corpse and scores 20.
pub open spec fn hit_outcome(e: Entity, p: Player) -> (Entity, Player) {
    match e.entity_type {
        EntityType::Enemy(en) => if en.armor <= 1 {
            (
                Entity {
                    location: e.location,
                    status: EntityStatus::DeadBody,
                    entity_type: EntityType::Enemy(Enemy { armor: 0 }),
                },
                Player { score: sat_add(p.score, 10), ..p },
            )
        } else {
            (
                Entity {
                    location: e.location,
                    status: e.status,
                    entity_type: EntityType::Enemy(Enemy { armor: (en.armor - 1) as u16 }),
                },
                p,
            )
        },
        EntityType::Fuel(_) => (
            Entity { location: e.location, status: EntityStatus::DeadBody, entity_type: e.entity_type },
            Player { score: sat_add(p.score, 20), ..p },
        ),
    }
}

/// The contact-and-advance step of one entity: a live entity on the
/// player's square kills the player (enemy) or refuels them and dies
/// (fuel); a corpse advances to gone; anything else is untouched.
pub open spec fn contact_step(e: Entity, p: Player) -> (Entity, Player) {
    if e.status == EntityStatus::Alive && p.location == e.location {
        match e.entity_type {
            EntityType::Enemy(_) => (
                e,
                Player { status: PlayerStatus::Dead(DeathCause::Enemy), ..p },
            ),
            EntityType::Fuel(_) => (
                Entity {
                    location: e.location,
                    status: EntityStatus::DeadBody,
                    entity_type: e.entity_type,
                },
                Player { fuel: sat_add(p.fuel, 200), ..p },
            ),
        }
    } else if e.status == EntityStatus::DeadBody {
        (
            Entity { location: e.location, status: EntityStatus::Dead, entity_type: e.entity_type },
            p,
        )
    } else {
        (e, p)
    }
}

/// Folds the given bullets, in order, over one entity: every qualifying
/// hit applies `hit_outcome`, and the fold stops acting as soon as the
/// entity is no longer alive, so an entity takes at most one status step.
pub open spec fn resolve_bullets(e: Entity, p: Player, bullets: Seq<Bullet>) -> (Entity, Player)
    decreases bullets.len(),
{
    if bullets.len() == 0 {
        (e, p)
    } else {
        let prev = resolve_bullets(e, p, bullets.drop_last());
        if prev.0.status == EntityStatus::Alive && bullet_hits(bullets.last(), prev.0) {
            hit_outcome(prev.0, prev.1)
        } else {
            prev
        }
    }
}

/// One entity's full resolution: the contact-and-advance step, then the
/// bullet fold.
pub open spec fn resolve_entity(e: Entity, p: Player) -> (Entity, Player) {
    let c = contact_step(e, p);
    resolve_bullets(c.0, c.1, p.bullets@)
}

/// The whole resolver pass over a purged entity list: entities are
/// resolved left to right, the player's fuel, score and status
/// accumulating through the pass.
pub open spec fn resolve_pass(entities: Seq<Entity>, p: Player) -> (Seq<Entity>, Player)
    decreases entities.len(),
{
    if entities.len() == 0 {
        (Seq::empty(), p)
    } else {
        let prev = resolve_pass(entities.drop_last(), p);
        let r = resolve_entity(entities.last(), prev.1);
        (prev.0.push(r.0), r.1)
    }
}

/// An entity that is not yet purged.
pub open spec fn not_dead(e: Entity) -> bool {
    e.status != EntityStatus::Dead
}

/// If the fold over a prefix has left the entity dead or a corpse, folding
/// any longer prefix gives the same outcome.
proof fn lemma_resolve_bullets_extend_stuck(
    e: Entity,
    p: Player,
    bullets: Seq<Bullet>,
    j: int,
    j2: int,
)
    requires
        0 <= j <= j2 <= bullets.len(),
        resolve_bullets(e, p, bullets.take(j)).0.status != EntityStatus::Alive,
    ensures
        resolve_bullets(e, p, bullets.take(j2)) == resolve_bullets(e, p, bullets.take(j)),
    decreases j2 - j,
{
    if j2 > j {
        lemma_resolve_bullets_extend_stuck(e, p, bullets, j, j2 - 1);
        assert(bullets.take(j2).drop_last() =~= bullets.take(j2 - 1));
    }
}

/// The resolver never moves an entity.
proof fn lemma_resolve_bullets_location(e: Entity, p: Player, bullets: Seq<Bullet>)
    ensures
        resolve_bullets(e, p, bullets).0.location == e.location,
        resolve_bullets(e, p, bullets).1.location == p.location,
        resolve_bullets(e, p, bullets).1.bullets == p.bullets,
    decreases bullets.len(),
{
    if bullets.len() > 0 {
        lemma_resolve_bullets_location(e, p, bullets.drop_last());
    }
}

impl World {
    /// Kills the player with cause `Ground` when it sits outside the river
    /// channel of its line, else with cause `Fuel` when its tank is empty;
    /// otherwise leaves it alone.
    pub fn update_player_status(&mut self)
        requires
            old(self).wf(),
        ensures
            final(self).wf(),
            final(self).player.status == (if !old(self).map.in_river_spec(
                old(self).player.location,
            ) {
                PlayerStatus::Dead(DeathCause::Ground)
            } else if old(self).player.fuel == 0 {
                PlayerStatus::Dead(DeathCause::Fuel)
            } else {
                old(self).player.status
            }),
            final(self).player.location == old(self).player.location,
            final(self).player.fuel == old(self).player.fuel,
            final(self).player.score == old(self).player.score,
            final(self).player.traveled == old(self).player.traveled,
            final(self).player.bullets == old(self).player.bullets,
            *final(self) == (World { player: final(self).player, ..*old(self) }),
    {
        if !self.map.is_in_river(&self.player.location) {
            self.player.status = PlayerStatus::Dead(DeathCause::Ground);
        } else if self.player.fuel == 0 {
            self.player.status = PlayerStatus::Dead(DeathCause::Fuel);
        }
    }

    /// One resolver pass: purges entities that are gone, then resolves
    /// player contact, corpse advancement and bullet hits for each
    /// remaining entity in order, exactly as `resolve_pass` states.
    pub fn update_entities_status(&mut self)
        requires
            old(self).wf(),
        ensures
            final(self).wf(),
            ({
                let r = resolve_pass(old(self).entities@.filter(|e: Entity| not_dead(e)), old(self).player);
                final(self).entities@ == r.0 && final(self).player == r.1
            }),
            *final(self) == (World {
                player: final(self).player,
                entities: final(self).entities,
                ..*old(self)
            }),
    {
        let ghost p0 = self.player;
        // Purge entities that are gone.
        let mut ents: Vec<Entity> = Vec::new();
        core::mem::swap(&mut ents, &mut self.entities);
        let mut purged: Vec<Entity> = Vec::new();
        let mut i: usize = 0;
        proof {
            assert(ents@.take(0) =~= Seq::<Entity>::empty());
            reveal(Seq::filter);
        }
        while i < ents.len()
            invariant
                i <= ents@.len(),
                old(self).wf(),
                ents@ == old(self).entities@,
                self.map == old(self).map,
                purged@ == ents@.take(i as int).filter(|e: Entity| not_dead(e)),
                forall|k: int|
                    0 <= k < purged@.len() ==> (#[trigger] purged@[k]).location.line
                        < old(self).map.max_l,
            decreases ents@.len() - i,
        {
            let e = ents[i];
            proof {
                reveal(Seq::filter);
                assert(ents@.take(i + 1).drop_last() =~= ents@.take(i as int));
                assert(ents@.take(i + 1).last() == e);
            }
            if !matches!(e.status, EntityStatus::Dead) {
                purged.push(e);
            }
            i = i + 1;
        }
        proof {
            assert(ents@.take(ents@.len() as int) =~= ents@);
        }
        // Resolve each remaining entity in order.
        let ghost pu = purged@;
        let mut result: Vec<Entity> = Vec::new();
        let mut i: usize = 0;
        proof {
            assert(pu.take(0) =~= Seq::<Entity>::empty());
        }
        while i < purged.len()
            invariant
                i <= pu.len(),
                purged@ == pu,
                old(self).wf(),
                forall|k: int|
                    0 <= k < pu.len() ==> (#[trigger] pu[k]).location.line < old(self).map.max_l,
                self.player.bullets == p0.bullets,
                self.player.location == p0.location,
                result@.len() == i,
                (result@, self.player) == resolve_pass(pu.take(i as int), p0),
                *self == (World { player: self.player, entities: self.entities, ..*old(self) }),
                self.entities@.len() == 0,
                forall|k: int|
                    0 <= k < result@.len() ==> (#[trigger] result@[k]).location == pu[k].location,
            decreases pu.len() - i,
        {
            let ghost p_before = self.player;
            let ghost r_before = result@;
            let mut e = purged[i];
            let ghost e0 = e;
            // Contact with the player, and corpse advancement.
            if e.status == EntityStatus::Alive && self.player.location.hit(&e.location) {
                match e.entity_type {
                    EntityType::Enemy(_) => {
                        self.player.status = PlayerStatus::Dead(DeathCause::Enemy);
                    },
                    EntityType::Fuel(_) => {
                        e.status = EntityStatus::DeadBody;
                        self.player.fuel = if self.player.fuel as u32 + 200 > u16::MAX as u32 {
                            u16::MAX
                        } else {
                            self.player.fuel + 200
                        };
                    },
                }
            } else if e.status == EntityStatus::DeadBody {
                e.status = EntityStatus::Dead;
            }
            let ghost c = contact_step(e0, p_before);
            proof {
                assert((e, self.player) == c);
            }
            let ghost ec = e;
            let ghost pc = self.player;
            // Bullet hits, while the entity is still alive.
            let mut j: usize = 0;
            proof {
                assert(p_before.bullets@.take(0) =~= Seq::<Bullet>::empty());
            }
            while j < self.player.bullets.len() && e.status == EntityStatus::Alive
                invariant
                    j <= self.player.bullets@.len(),
                    self.player.bullets == p_before.bullets,
                    self.player.location == p_before.location,
                    (e, self.player) == resolve_bullets(ec, pc, p_before.bullets@.take(j as int)),
                    *self == (World {
                        player: self.player,
                        entities: self.entities,
                        ..*old(self)
                    }),
                    self.entities@.len() == 0,
                decreases p_before.bullets@.len() - j,
            {
                let ghost eb = e;
                let ghost pb = self.player;
                let b = self.player.bullets[j];
                if b.location.hit_with_margin(&e.location, 1, 0, 1, 0) {
                    match e.entity_type {
                        EntityType::Enemy(en) => {
                            if en.armor <= 1 {
                                e = Entity {
                                    location: e.location,
                                    status: EntityStatus::DeadBody,
                                    entity_type: EntityType::Enemy(Enemy { armor: 0 }),
                                };
                                self.player.score =
                                if self.player.score as u32 + 10 > u16::MAX as u32 {
                                    u16::MAX
                                } else {
                                    self.player.score + 10
                                };
                            } else {
                                e = Entity {
                                    location: e.location,
                                    status: e.status,
                                    entity_type: EntityType::Enemy(
                                        Enemy { armor: en.armor - 1 },
                                    ),
                                };
                            }
                        },
                        EntityType::Fuel(_) => {
                            e = Entity {
                                location: e.location,
                                status: EntityStatus::DeadBody,
                                entity_type: e.entity_type,
                            };
                            self.player.score = if self.player.score as u32 + 20 > u16::MAX as u32 {
                                u16::MAX
                            } else {
                                self.player.score + 20
                            };
                        },
                    }
                }
                proof {
                    assert(p_before.bullets@.take(j + 1).drop_last() =~= p_before.bullets@.take(
                        j as int,
                    ));
                    assert(p_before.bullets@.take(j + 1).last() == b);
                    assert((e, self.player) == (
                        if eb.status == EntityStatus::Alive && bullet_hits(b, eb) {
                            hit_outcome(eb, pb)
                        } else {
                            (eb, pb)
                        }
                    ));
                }
                j = j + 1;
            }
            proof {
                let bs = p_before.bullets@;
                if j < bs.len() {
                    lemma_resolve_bullets_extend_stuck(ec, pc, bs, j as int, bs.len() as int);
                }
                assert(bs.take(bs.len() as int) =~= bs);
                assert((e, self.player) == resolve_bullets(ec, pc, bs));
                assert(pc.bullets == p_before.bullets);
                assert((e, self.player) == resolve_entity(e0, p_before));
                assert(pu.take(i + 1).drop_last() =~= pu.take(i as int));
                assert(pu.take(i + 1).last() == e0);
                lemma_resolve_bullets_location(ec, pc, bs);
            }
            result.push(e);
            i = i + 1;
            proof {
                assert((result@, self.player) == resolve_pass(pu.take(i as int), p0));
            }
        }
        proof {
            assert(pu.take(pu.len() as int) =~= pu);
        }
        self.entities = result;
        proof {
            assert forall|k: int|
                0 <= k < self.entities@.len() implies (#[trigger] self.entities@[k]).location.line
                < self.map.max_l by {
                assert(self.entities@[k].location == pu[k].location);
            }
        }
    }

    /// Moves every entity one line down and keeps only those still on a
    /// visible line.
    pub fn move_entities(&mut self)
        requires
            old(self).wf(),
        ensures
            final(self).wf(),
            final(self).entities@ == move_entities_spec(old(self).entities@, old(self).map.max_l),
            *final(self) == (World { entities: final(self).entities, ..*old(self) }),
    {
        let mut ents: Vec<Entity> = Vec::new();
        core::mem::swap(&mut ents, &mut self.entities);
        let mut result: Vec<Entity> = Vec::new();
        let mut i: usize = 0;
        proof {
            assert(ents@.take(0) =~= Seq::<Entity>::empty());
        }
        while i < ents.len()
            invariant
                i <= ents@.len(),
                old(self).wf(),
                ents@ == old(self).entities@,
                self.map == old(self).map,
                result@ == move_entities_spec(ents@.take(i as int), old(self).map.max_l),
                forall|k: int|
                    0 <= k < result@.len() ==> (#[trigger] result@[k]).location.line
                        < old(self).map.max_l,
            decreases ents@.len() - i,
        {
            let e = ents[i];
            proof {
                assert(ents@.take(i + 1).drop_last() =~= ents@.take(i as int));
                assert(ents@.take(i + 1).last() == e);
            }
            let new_line = e.location.line + 1;
            if new_line < self.map.max_l {
                result.push(
                    Entity {
                        location: Location { column: e.location.column, line: new_line },
                        status: e.status,
                        entity_type: e.entity_type,
                    },
                );
            }
            i = i + 1;
        }
        proof {
            assert(ents@.take(ents@.len() as int) =~= ents@);
        }
        self.entities = result;
    }

    /// Moves every bullet two lines up, burns one energy, and keeps only
    /// those with energy left that are still high enough and inside the
    /// river channel.
    pub fn move_bullets(&mut self)
        requires
            old(self).wf(),
        ensures
            final(self).wf(),
            final(self).player.bullets@ == move_bullets_spec(
                old(self).player.bullets@,
                old(self).map,
            ),
            final(self).player.location == old(self).player.location,
            final(self).player.status == old(self).player.status,
            final(self).player.fuel == old(self).player.fuel,
            final(self).player.score == old(self).player.score,
            final(self).player.traveled == old(self).player.traveled,
            *final(self) == (World { player: final(self).player, ..*old(self) }),
    {
        let mut bullets: Vec<Bullet> = Vec::new();
        core::mem::swap(&mut bullets, &mut self.player.bullets);
        let mut result: Vec<Bullet> = Vec::new();
        let mut i: usize = 0;
        proof {
            assert(bullets@.take(0) =~= Seq::<Bullet>::empty());
        }
        while i < bullets.len()
            invariant
                i <= bullets@.len(),
                old(self).wf(),
                bullets@ == old(self).player.bullets@,
                self.map == old(self).map,
                result@ == move_bullets_spec(bullets@.take(i as int), old(self).map),
                forall|k: int|
                    0 <= k < result@.len() ==> (#[trigger] result@[k]).location.line
                        < old(self).map.max_l,
            decreases bullets@.len() - i,
        {
            let b = bullets[i];
            proof {
                assert(bullets@.take(i + 1).drop_last() =~= bullets@.take(i as int));
                assert(bullets@.take(i + 1).last() == b);
            }
            if !(b.energy == 0 || b.location.line < 2) {
                let moved = Bullet {
                    energy: b.energy - 1,
                    location: Location { column: b.location.column, line: b.location.line - 2 },
                };
                if self.map.is_in_river(&moved.location) {
                    result.push(moved);
                }
            }
            i = i + 1;
        }
        proof {
            assert(bullets@.take(bullets@.len() as int) =~= bullets@);
        }
        self.player.bullets = result;
    }

    /// Spawns, each with its own per-mille chance, a fuel pickup and an
    /// enemy with the current armor at a random column of the top line's
    /// river channel. An impossible chance never spawns its kind; a certain
    /// chance spawns it whenever the channel has room.
    pub fn create_random_entities(&mut self)
        requires
            old(self).wf(),
        ensures
            final(self).wf(),
            spawn_rel(*old(self), *final(self)),
            final(self).entities@.len() >= old(self).entities@.len(),
            final(self).entities@.len() <= old(self).entities@.len() + 2,
            final(self).entities@.take(old(self).entities@.len() as int) == old(self).entities@,
            forall|i: int|
                old(self).entities@.len() <= i < final(self).entities@.len() ==> spawned_ok(
                    #[trigger] final(self).entities@[i],
                    old(self).map,
                    old(self).enemies_armor,
                ),
            *final(self) == (World { entities: final(self).entities, ..*old(self) }),
    {
        let ghost n = old(self).entities@.len() as int;
        let mut spawned_fuel: bool = false;
        let mut spawned_enemy: bool = false;
        let border = self.map.river_borders_at(0);
        if is_the_chance(self.fuel_spawn_probability.value) {
            if border.start < border.end {
                let c = rand_in_range(border.start, border.end);
                self.entities.push(Entity::new((c, 0), EntityType::Fuel(Fuel)));
                spawned_fuel = true;
            }
        }
        if is_the_chance(self.enemy_spawn_probability.value) {
            if border.start < border.end {
                let c = rand_in_range(border.start, border.end);
                self.entities.push(
                    Entity::new((c, 0), EntityType::Enemy(Enemy::new(self.enemies_armor))),
                );
                spawned_enemy = true;
            }
        }
        proof {
            assert(self.entities@.take(n) =~= old(self).entities@);
            assert(spawn_outcome(
                old(self).entities@,
                self.entities@,
                old(self).map,
                old(self).enemies_armor,
                spawned_fuel,
                spawned_enemy,
            ));
        }
    }
}

/// The entity list after the movement rule: everything one line down,
/// those past the bottom line culled.
pub open spec fn move_entities_spec(s: Seq<Entity>, max_l: u16) -> Seq<Entity>
    decreases s.len(),
{
    if s.len() == 0 {
        Seq::empty()
    } else {
        let prev = move_entities_spec(s.drop_last(), max_l);
        let e = s.last();
        if e.location.line + 1 < max_l {
            prev.push(
                Entity {
                    location: Location { column: e.location.column, line: (e.location.line + 1) as u16 },
                    status: e.status,
                    entity_type: e.entity_type,
                },
            )
        } else {
            prev
        }
    }
}

/// The bullet list after the movement rule: spent or too-high bullets are
/// culled, the rest rise two lines, lose one energy and must still be in
/// the river channel.
pub open spec fn move_bullets_spec(s: Seq<Bullet>, map: RiverMap) -> Seq<Bullet>
    decreases s.len(),
{
    if s.len() == 0 {
        Seq::empty()
    } else {
        let prev = move_bullets_spec(s.drop_last(), map);
        let b = s.last();
        if b.energy == 0 || b.location.line < 2 {
            prev
        } else {
            let moved = Bullet {
                energy: (b.energy - 1) as u16,
                location: Location { column: b.location.column, line: (b.location.line - 2) as u16 },
            };
            if map.in_river_spec(moved.location) {
                prev.push(moved)
            } else {
                prev
            }
        }
    }
}

/// Whether the top line's river channel has at least one column to spawn
/// into.
pub open spec fn channel_open(map: RiverMap) -> bool {
    map.left_border_spec(map.river_parts@[0]) < map.right_border_spec(map.river_parts@[0])
}

/// The shape of one spawn step: `bf` says whether a fuel pickup was
/// appended, `be` whether an enemy was, fuel first; each appended entity is
/// a well-placed spawn of its kind.
pub open spec fn spawn_outcome(
    pre: Seq<Entity>,
    post: Seq<Entity>,
    map: RiverMap,
    armor: u16,
    bf: bool,
    be: bool,
) -> bool {
    &&& post.len() == pre.len() + (if bf {
        1int
    } else {
        0int
    }) + (if be {
        1int
    } else {
        0int
    })
    &&& post.take(pre.len() as int) == pre
    &&& (bf ==> post[pre.len() as int].entity_type is Fuel && spawned_ok(
        post[pre.len() as int],
        map,
        armor,
    ))
    &&& (be ==> post.last().entity_type is Enemy && spawned_ok(post.last(), map, armor))
}

/// What one spawn step does to the world: only the entity list changes, by
/// a fuel and an enemy appended each under its own chance. The draws decide
/// nothing at the extremes: an impossible chance never spawns, and a
/// certain chance spawns whenever the channel has room.
pub open spec fn spawn_rel(pre: World, post: World) -> bool {
    &&& post == (World { entities: post.entities, ..pre })
    &&& exists|bf: bool, be: bool|
        {
            &&& #[trigger] spawn_outcome(
                pre.entities@,
                post.entities@,
                pre.map,
                pre.enemies_armor,
                bf,
                be,
            )
            &&& (pre.fuel_spawn_probability.value == 0 ==> !bf)
            &&& (pre.fuel_spawn_probability.value >= 1000 && channel_open(pre.map) ==> bf)
            &&& (pre.enemy_spawn_probability.value == 0 ==> !be)
            &&& (pre.enemy_spawn_probability.value >= 1000 && channel_open(pre.map) ==> be)
        }
}

/// What a freshly spawned entity looks like: alive, on the top line,
/// inside the river channel, an enemy carrying the configured armor.
pub open spec fn spawned_ok(e: Entity, map: RiverMap, armor: u16) -> bool {
    &&& e.status == EntityStatus::Alive
    &&& e.location.line == 0
    &&& map.left_border_spec(map.river_parts@[0]) <= e.location.column < map.right_border_spec(
        map.river_parts@[0],
    )
    &&& (e.entity_type matches EntityType::Enemy(en) ==> en.armor == armor)
}

/// Draws a Bernoulli sample with the given per-mille probability: an
/// impossible chance never holds, a certain one always does.
fn is_the_chance(probability: u16) -> (r: bool)
    ensures
        probability == 0 ==> !r,
        probability >= 1000 ==> r,
{
    rand_in_range(0, 1000) < probability
}

} // verus!
