//! The world aggregate: everything one tick of the simulation reads and
//! writes.
//!
//! The world owns the player, the entity list, the river map, the keyed
//! timer registry, the pending-signal set, the custom-drawing table and the
//! queue of events created during a tick. Timers, signals and drawings are
//! keyed by numbers drawn from one monotone counter, so every freshly
//! handed-out key is distinct from every live one. Time enters only as an
//! explicit `now` argument (milliseconds), and randomness only through the
//! library's trusted sampler, so everything else here is exact.

use vstd::prelude::*;
use crate::container::Container;
use crate::entities::{Bullet, Entity, Location, Player, PlayerStatus};
use crate::events::{Popup, WorldEvent, WorldEventTrigger, WorldHandler};
use crate::map::{RiverMap, RiverMode, RiverPart};
use crate::restorable::Restorable;
use crate::timer::{
    check_result, timer_index, timers_after_check, unique_timer_keys, Timer, TimerData, TimerKey,
    lemma_timer_index, lemma_timer_index_prefix_match,
};

verus! {

/// Whether the simulation advances or is frozen on the pause overlay.
#[derive(Clone, Copy, PartialEq, Eq, Structural, Debug)]
pub enum WorldStatus {
    /// Simulation advances.
    Fluent,
    /// Simulation frozen; only the pause overlay is shown.
    Solid,
}

/// A keyed entry of the custom-drawing table: what a popup shows.
pub struct Drawing {
    pub key: u64,
    pub message: String,
}

/// A player intent, one per key press.
#[derive(Clone, Copy, PartialEq, Eq, Structural, Debug)]
pub enum PlayerAction {
    MoveUp,
    MoveDown,
    MoveLeft,
    MoveRight,
    TogglePause,
    Quit,
    Fire,
}

/// The position of the first occurrence of `k`, or `-1` if none.
pub open spec fn key_index(s: Seq<u64>, k: u64) -> int
    decreases s.len(),
{
    if s.len() == 0 {
        -1
    } else if s[0] == k {
        0
    } else {
        let rest = key_index(s.drop_first(), k);
        if rest < 0 {
            -1
        } else {
            rest + 1
        }
    }
}

/// `key_index` finds the first occurrence, and fails exactly when there is
/// none.
pub proof fn lemma_key_index(s: Seq<u64>, k: u64)
    ensures
        -1 <= key_index(s, k) < s.len(),
        key_index(s, k) >= 0 ==> s[key_index(s, k)] == k,
        key_index(s, k) < 0 <==> (forall|j: int| 0 <= j < s.len() ==> s[j] != k),
    decreases s.len(),
{
    if s.len() > 0 && s[0] != k {
        lemma_key_index(s.drop_first(), k);
        assert forall|j: int| 0 <= j < s.len() && key_index(s, k) < 0 implies s[j] != k by {
            if j > 0 {
                assert(s.drop_first()[j - 1] == s[j]);
            }
        }
    }
}

/// If position `i` holds `k` and no earlier position does, the index is `i`.
pub proof fn lemma_key_index_prefix_match(s: Seq<u64>, k: u64, i: int)
    requires
        0 <= i < s.len(),
        s[i] == k,
        forall|j: int| 0 <= j < i ==> s[j] != k,
    ensures
        key_index(s, k) == i,
    decreases i,
{
    if i > 0 {
        lemma_key_index_prefix_match(s.drop_first(), k, i - 1);
    }
}

/// The pending-signal set after a destructive read of `k`: the first
/// occurrence removed, or unchanged if `k` was never sent.
pub open spec fn signals_after_take(s: Seq<u64>, k: u64) -> Seq<u64> {
    let i = key_index(s, k);
    if i < 0 {
        s
    } else {
        s.remove(i)
    }
}

/// The position of the first drawing with key `k`, or `-1` if none.
pub open spec fn drawing_index(s: Seq<Drawing>, k: u64) -> int
    decreases s.len(),
{
    if s.len() == 0 {
        -1
    } else if s[0].key == k {
        0
    } else {
        let rest = drawing_index(s.drop_first(), k);
        if rest < 0 {
            -1
        } else {
            rest + 1
        }
    }
}

/// `drawing_index` finds the first drawing with the key, and fails exactly
/// when there is none.
pub proof fn lemma_drawing_index(s: Seq<Drawing>, k: u64)
    ensures
        -1 <= drawing_index(s, k) < s.len(),
        drawing_index(s, k) >= 0 ==> s[drawing_index(s, k)].key == k,
        drawing_index(s, k) < 0 <==> (forall|j: int| 0 <= j < s.len() ==> s[j].key != k),
    decreases s.len(),
{
    if s.len() > 0 && s[0].key != k {
        lemma_drawing_index(s.drop_first(), k);
        assert forall|j: int| 0 <= j < s.len() && drawing_index(s, k) < 0 implies s[j].key
            != k by {
            if j > 0 {
                assert(s.drop_first()[j - 1] == s[j]);
            }
        }
    }
}

/// If position `i` holds key `k` and no earlier position does, the index is `i`.
pub proof fn lemma_drawing_index_prefix_match(s: Seq<Drawing>, k: u64, i: int)
    requires
        0 <= i < s.len(),
        s[i].key == k,
        forall|j: int| 0 <= j < i ==> s[j].key != k,
    ensures
        drawing_index(s, k) == i,
    decreases i,
{
    if i > 0 {
        lemma_drawing_index_prefix_match(s.drop_first(), k, i - 1);
    }
}

/// The drawing table after clearing key `k`.
pub open spec fn drawings_after_clear(s: Seq<Drawing>, k: u64) -> Seq<Drawing> {
    let i = drawing_index(s, k);
    if i < 0 {
        s
    } else {
        s.remove(i)
    }
}

/// The world: the aggregate root every handler mutates.
pub struct World {
    /// Whether the simulation advances or is paused.
    pub status: WorldStatus,
    pub player: Player,
    pub map: RiverMap,
    /// The visible screen region.
    pub container: Container,
    /// Armor given to newly spawned enemies.
    pub enemies_armor: u16,
    /// Chance, in thousandths per tick, of spawning an enemy.
    pub enemy_spawn_probability: Restorable<u16>,
    /// Chance, in thousandths per tick, of spawning a fuel pickup.
    pub fuel_spawn_probability: Restorable<u16>,
    pub entities: Vec<Entity>,
    /// Whole seconds of play, advanced by a repeating timer.
    pub elapsed_time: u64,
    /// Completed ticks.
    pub elapsed_loops: u64,
    /// The keyed timer registry.
    pub timers: Vec<Timer>,
    /// The keyed custom-drawing table.
    pub custom_drawings: Vec<Drawing>,
    /// Signals sent and not yet consumed.
    pub signals: Vec<u64>,
    /// Events registered during the current tick, run from the next tick on.
    pub new_events: Vec<WorldEvent>,
    /// Source of fresh keys for timers, drawings and signals.
    pub next_key: u64,
}

impl World {
    /// Everything the tick rules rely on: the map window matches the
    /// container, the player and all moving things are on visible lines,
    /// timer and drawing keys are unique and below the key counter, and no
    /// pending signal is duplicated (signals are write-once flags).
    pub open spec fn wf(self) -> bool {
        &&& self.map.wf()
        &&& self.container.lines.start == 0
        &&& self.container.lines.end == self.map.max_l
        &&& self.container.columns.start == 0
        &&& self.container.columns.end == self.map.max_c
        &&& self.player.location.line < self.map.max_l
        &&& self.player.location.column < self.map.max_c
        &&& forall|i: int|
            0 <= i < self.entities@.len() ==> (#[trigger] self.entities@[i]).location.line
                < self.map.max_l
        &&& forall|i: int|
            0 <= i < self.player.bullets@.len()
                ==> (#[trigger] self.player.bullets@[i]).location.line < self.map.max_l
        &&& unique_timer_keys(self.timers@)
        &&& forall|i: int|
            0 <= i < self.timers@.len() ==> (#[trigger] self.timers@[i]).data.key.id
                < self.next_key
        &&& forall|i: int, j: int|
            0 <= i < j < self.custom_drawings@.len() ==> self.custom_drawings@[i].key
                != self.custom_drawings@[j].key
        &&& forall|i: int|
            0 <= i < self.custom_drawings@.len() ==> (#[trigger] self.custom_drawings@[i]).key
                < self.next_key
        &&& forall|i: int, j: int|
            0 <= i < j < self.signals@.len() ==> self.signals@[i] != self.signals@[j]
    }

    /// The fields that the registry operations (timers, signals, drawings,
    /// event queue, key counter) never touch.
    pub open spec fn same_core(a: World, b: World) -> bool {
        &&& a.status == b.status
        &&& a.player == b.player
        &&& a.map == b.map
        &&& a.container == b.container
        &&& a.enemies_armor == b.enemies_armor
        &&& a.enemy_spawn_probability == b.enemy_spawn_probability
        &&& a.fuel_spawn_probability == b.fuel_spawn_probability
        &&& a.entities == b.entities
        &&& a.elapsed_time == b.elapsed_time
        &&& a.elapsed_loops == b.elapsed_loops
    }

    /// Builds the opening world: a live player bottom-center with 1700
    /// fuel, a random river a third of the screen wide, an enemy spawn
    /// chance of a tenth and a fuel spawn chance of a hundredth, and every
    /// registry empty.
    pub fn new(maxc: u16, maxl: u16) -> (r: World)
        requires
            maxc >= 18,
            maxl >= 1,
        ensures
            r.wf(),
            r.status == WorldStatus::Fluent,
            r.player.location == (Location { column: maxc / 2, line: (maxl - 1) as u16 }),
            r.player.status == PlayerStatus::Alive,
            r.player.fuel == 1700,
            r.player.score == 0,
            r.player.traveled == 0,
            r.player.bullets@ == Seq::<Bullet>::empty(),
            r.map.max_c == maxc,
            r.map.max_l == maxl,
            r.map.river_mode.value == (RiverMode::Random {
                min_width: 5,
                max_width: maxc / 3,
                max_center_diff: 5,
            }),
            r.map.river_mode.solid == r.map.river_mode.value,
            r.map.river_parts@.len() == maxl,
            forall|i: int|
                0 <= i < r.map.river_parts@.len() ==> r.map.river_parts@[i] == (RiverPart {
                    width: maxc / 3,
                    center_c: maxc / 2,
                }),
            r.map.target_river == (RiverPart { width: maxc / 3, center_c: maxc / 2 }),
            r.map.next_point == maxl,
            r.map.change_rate == 2,
            r.container.lines.start == 0 && r.container.lines.end == maxl,
            r.container.columns.start == 0 && r.container.columns.end == maxc,
            r.enemies_armor == 1,
            r.enemy_spawn_probability.value == 100 && r.enemy_spawn_probability.solid == 100,
            r.fuel_spawn_probability.value == 10 && r.fuel_spawn_probability.solid == 10,
            r.entities@ == Seq::<Entity>::empty(),
            r.elapsed_time == 0,
            r.elapsed_loops == 0,
            r.timers@ == Seq::<Timer>::empty(),
            r.custom_drawings@ == Seq::<Drawing>::empty(),
            r.signals@ == Seq::<u64>::empty(),
            r.new_events@ == Seq::<WorldEvent>::empty(),
            r.next_key == 0,
    {
        World {
            elapsed_time: 0,
            elapsed_loops: 0,
            status: WorldStatus::Fluent,
            player: Player::new((maxc / 2, maxl - 1), 1700),
            map: RiverMap::new(maxc, maxl, 5, maxc / 3, 2, 5),
            container: Container::new(0..maxl, 0..maxc),
            entities: Vec::new(),
            timers: Vec::new(),
            custom_drawings: Vec::new(),
            signals: Vec::new(),
            enemies_armor: 1,
            enemy_spawn_probability: Restorable::from_value(100),
            fuel_spawn_probability: Restorable::from_value(10),
            new_events: Vec::new(),
            next_key: 0,
        }
    }

    /// The number of visible lines.
    pub fn max_l(&self) -> (r: u16)
        ensures
            r == self.container.lines.end,
    {
        self.container.lines.end
    }

    /// The number of visible columns.
    pub fn max_c(&self) -> (r: u16)
        ensures
            r == self.container.columns.end,
    {
        self.container.columns.end
    }

    /// The entities of the enemy kind, in order.
    pub fn enemies(&self) -> (r: Vec<Entity>)
        ensures
            r@ == self.entities@.filter(|e: Entity| e.entity_type is Enemy),
    {
        let mut r: Vec<Entity> = Vec::new();
        let mut i: usize = 0;
        proof {
            assert(self.entities@.take(0) =~= Seq::<Entity>::empty());
            reveal(Seq::filter);
        }
        while i < self.entities.len()
            invariant
                i <= self.entities@.len(),
                r@ == self.entities@.take(i as int).filter(|e: Entity| e.entity_type is Enemy),
            decreases self.entities@.len() - i,
        {
            let e = self.entities[i];
            proof {
                reveal(Seq::filter);
                assert(self.entities@.take(i + 1).drop_last() =~= self.entities@.take(i as int));
                assert(self.entities@.take(i + 1).last() == e);
            }
            if e.entity_type.is_enemy() {
                r.push(e);
            }
            i = i + 1;
        }
        proof {
            assert(self.entities@.take(self.entities@.len() as int) =~= self.entities@);
        }
        r
    }

    /// Hands out a fresh key, distinct from every key handed out before.
    fn alloc_key(&mut self) -> (k: u64)
        requires
            old(self).next_key < u64::MAX,
        ensures
            k == old(self).next_key,
            final(self).next_key == old(self).next_key + 1,
            Self::same_core(*old(self), *final(self)),
            final(self).timers == old(self).timers,
            final(self).custom_drawings == old(self).custom_drawings,
            final(self).signals == old(self).signals,
            final(self).new_events == old(self).new_events,
            old(self).wf() ==> final(self).wf(),
    {
        let k = self.next_key;
        self.next_key = self.next_key + 1;
        k
    }

    /// Destructively checks whether the keyed timer has elapsed: `None` for
    /// an unknown key; otherwise `Some` of the answer, where an elapsed
    /// one-shot timer is removed by the check and an elapsed repeating
    /// timer restarts at `now`.
    pub fn timer_elapsed(&mut self, key: TimerKey, now: u64) -> (r: Option<bool>)
        ensures
            r == check_result(old(self).timers@, key, now),
            final(self).timers@ == timers_after_check(old(self).timers@, key, now),
            Self::same_core(*old(self), *final(self)),
            final(self).custom_drawings == old(self).custom_drawings,
            final(self).signals == old(self).signals,
            final(self).new_events == old(self).new_events,
            final(self).next_key == old(self).next_key,
            old(self).wf() ==> final(self).wf(),
    {
        let mut i: usize = 0;
        while i < self.timers.len() && self.timers[i].data.key.id != key.id
            invariant
                *self == *old(self),
                i <= self.timers@.len(),
                forall|j: int| 0 <= j < i ==> self.timers@[j].data.key != key,
            decreases self.timers@.len() - i,
        {
            i = i + 1;
        }
        if i == self.timers.len() {
            proof {
                lemma_timer_index(self.timers@, key);
            }
            None
        } else {
            proof {
                lemma_timer_index_prefix_match(self.timers@, key, i as int);
            }
            let t = self.timers[i];
            if !t.elapsed(now) {
                Some(false)
            } else if t.data.repeat {
                self.timers[i] = Timer { data: t.data, started_at: now };
                proof {
                    assert(old(self).wf() ==> final(self).wf());
                }
                Some(true)
            } else {
                let _removed = self.timers.remove(i);
                proof {
                    let pre = old(self).timers@;
                    let post = self.timers@;
                    assert(post =~= pre.remove(i as int));
                    if old(self).wf() {
                        assert forall|a: int, b: int|
                            0 <= a < post.len() && 0 <= b < post.len() && a != b implies post[a].data.key
                            != post[b].data.key by {
                            let a0 = if a < i as int {
                                a
                            } else {
                                a + 1
                            };
                            let b0 = if b < i as int {
                                b
                            } else {
                                b + 1
                            };
                            assert(post[a] == pre[a0]);
                            assert(post[b] == pre[b0]);
                        }
                        assert forall|a: int| 0 <= a < post.len() implies (#[trigger] post[a]).data.key.id
                            < self.next_key by {
                            let a0 = if a < i as int {
                                a
                            } else {
                                a + 1
                            };
                            assert(post[a] == pre[a0]);
                        }
                    }
                }
                Some(true)
            }
        }
    }

    /// Restarts the keyed timer at `now`, answering whether the key was
    /// known.
    pub fn reset_timer(&mut self, key: TimerKey, now: u64) -> (r: Option<bool>)
        ensures
            r is Some <==> timer_index(old(self).timers@, key) >= 0,
            r is Some ==> r == Some(true) && final(self).timers@ == old(self).timers@.update(
                timer_index(old(self).timers@, key),
                Timer {
                    data: old(self).timers@[timer_index(old(self).timers@, key)].data,
                    started_at: now,
                },
            ),
            r is None ==> final(self).timers@ == old(self).timers@,
            Self::same_core(*old(self), *final(self)),
            final(self).custom_drawings == old(self).custom_drawings,
            final(self).signals == old(self).signals,
            final(self).new_events == old(self).new_events,
            final(self).next_key == old(self).next_key,
            old(self).wf() ==> final(self).wf(),
    {
        let mut i: usize = 0;
        while i < self.timers.len() && self.timers[i].data.key.id != key.id
            invariant
                *self == *old(self),
                i <= self.timers@.len(),
                forall|j: int| 0 <= j < i ==> self.timers@[j].data.key != key,
            decreases self.timers@.len() - i,
        {
            i = i + 1;
        }
        if i == self.timers.len() {
            proof {
                lemma_timer_index(self.timers@, key);
            }
            None
        } else {
            proof {
                lemma_timer_index_prefix_match(self.timers@, key, i as int);
            }
            let t = self.timers[i];
            self.timers[i] = Timer { data: t.data, started_at: now };
            Some(true)
        }
    }

    /// Adds a started timer to the registry under a fresh key and hands the
    /// key back.
    pub fn add_raw_timer(&mut self, duration: u64, repeat: bool, now: u64) -> (k: TimerKey)
        requires
            old(self).next_key < u64::MAX,
        ensures
            k.id == old(self).next_key,
            final(self).timers@ == old(self).timers@.push(
                Timer { data: TimerData { key: k, duration, repeat }, started_at: now },
            ),
            final(self).next_key == old(self).next_key + 1,
            Self::same_core(*old(self), *final(self)),
            final(self).custom_drawings == old(self).custom_drawings,
            final(self).signals == old(self).signals,
            final(self).new_events == old(self).new_events,
            old(self).wf() ==> final(self).wf(),
    {
        let id = self.alloc_key();
        let key = TimerKey { id };
        self.timers.push(Timer::new(key, duration, repeat, now));
        key
    }

    /// Queues an event registration; it joins the active set at the end of
    /// the current tick, never during it.
    pub fn add_event(&mut self, event: WorldEvent)
        ensures
            final(self).new_events@ == old(self).new_events@.push(event),
            Self::same_core(*old(self), *final(self)),
            final(self).timers == old(self).timers,
            final(self).custom_drawings == old(self).custom_drawings,
            final(self).signals == old(self).signals,
            final(self).next_key == old(self).next_key,
            old(self).wf() ==> final(self).wf(),
    {
        self.new_events.push(event);
    }

    /// Starts a timer under a fresh key and queues an event that runs
    /// `on_elapsed` when it elapses; the event repeats exactly when the
    /// timer does.
    pub fn add_timer(&mut self, duration: u64, repeat: bool, on_elapsed: WorldHandler, now: u64) -> (k:
        TimerKey)
        requires
            old(self).next_key < u64::MAX,
        ensures
            k.id == old(self).next_key,
            final(self).timers@ == old(self).timers@.push(
                Timer { data: TimerData { key: k, duration, repeat }, started_at: now },
            ),
            final(self).new_events@ == old(self).new_events@.push(
                WorldEvent {
                    trigger: WorldEventTrigger::TimerElapsed(k),
                    is_continues: repeat,
                    handler: on_elapsed,
                },
            ),
            final(self).next_key == old(self).next_key + 1,
            Self::same_core(*old(self), *final(self)),
            final(self).custom_drawings == old(self).custom_drawings,
            final(self).signals == old(self).signals,
            old(self).wf() ==> final(self).wf(),
    {
        let key = self.add_raw_timer(duration, repeat, now);
        self.add_event(
            WorldEvent::new(WorldEventTrigger::TimerElapsed(key), repeat, on_elapsed),
        );
        key
    }

    /// Sends a signal: the given key, or a fresh one when none is given.
    /// Sending a signal that is already pending leaves the set as it is.
    pub fn send_signal(&mut self, key: Option<u64>) -> (k: u64)
        requires
            key is None ==> old(self).next_key < u64::MAX,
        ensures
            key is Some ==> k == key->0 && final(self).next_key == old(self).next_key,
            key is None ==> k == old(self).next_key && final(self).next_key == old(self).next_key
                + 1,
            final(self).signals@ == if old(self).signals@.contains(k) {
                old(self).signals@
            } else {
                old(self).signals@.push(k)
            },
            Self::same_core(*old(self), *final(self)),
            final(self).timers == old(self).timers,
            final(self).custom_drawings == old(self).custom_drawings,
            final(self).new_events == old(self).new_events,
            old(self).wf() ==> final(self).wf(),
    {
        let k = match key {
            Some(k) => k,
            None => self.alloc_key(),
        };
        let mut i: usize = 0;
        let ghost pre = *self;
        while i < self.signals.len() && self.signals[i] != k
            invariant
                *self == pre,
                i <= self.signals@.len(),
                forall|j: int| 0 <= j < i ==> self.signals@[j] != k,
            decreases self.signals@.len() - i,
        {
            i = i + 1;
        }
        if i == self.signals.len() {
            self.signals.push(k);
        }
        k
    }

    /// Destructively reads the keyed signal: answers whether it was
    /// pending, and clears it.
    pub fn signaled(&mut self, key: u64) -> (r: bool)
        ensures
            r == old(self).signals@.contains(key),
            final(self).signals@ == signals_after_take(old(self).signals@, key),
            Self::same_core(*old(self), *final(self)),
            final(self).timers == old(self).timers,
            final(self).custom_drawings == old(self).custom_drawings,
            final(self).new_events == old(self).new_events,
            final(self).next_key == old(self).next_key,
            old(self).wf() ==> final(self).wf(),
    {
        let mut i: usize = 0;
        while i < self.signals.len() && self.signals[i] != key
            invariant
                *self == *old(self),
                i <= self.signals@.len(),
                forall|j: int| 0 <= j < i ==> self.signals@[j] != key,
            decreases self.signals@.len() - i,
        {
            i = i + 1;
        }
        if i == self.signals.len() {
            proof {
                lemma_key_index(self.signals@, key);
            }
            false
        } else {
            proof {
                lemma_key_index_prefix_match(self.signals@, key, i as int);
            }
            let _removed = self.signals.remove(i);
            true
        }
    }

    /// Registers a drawing under a fresh key and hands the key back.
    pub fn add_drawing(&mut self, message: String) -> (k: u64)
        requires
            old(self).next_key < u64::MAX,
        ensures
            k == old(self).next_key,
            final(self).custom_drawings@ == old(self).custom_drawings@.push(
                Drawing { key: k, message },
            ),
            final(self).next_key == old(self).next_key + 1,
            Self::same_core(*old(self), *final(self)),
            final(self).timers == old(self).timers,
            final(self).signals == old(self).signals,
            final(self).new_events == old(self).new_events,
            old(self).wf() ==> final(self).wf(),
    {
        let k = self.alloc_key();
        self.custom_drawings.push(Drawing { key: k, message });
        k
    }

    /// Clears the keyed drawing, if it is registered.
    pub fn clear_drawing(&mut self, key: u64)
        ensures
            final(self).custom_drawings@ == drawings_after_clear(old(self).custom_drawings@, key),
            Self::same_core(*old(self), *final(self)),
            final(self).timers == old(self).timers,
            final(self).signals == old(self).signals,
            final(self).new_events == old(self).new_events,
            final(self).next_key == old(self).next_key,
            old(self).wf() ==> final(self).wf(),
    {
        let mut i: usize = 0;
        while i < self.custom_drawings.len() && self.custom_drawings[i].key != key
            invariant
                *self == *old(self),
                i <= self.custom_drawings@.len(),
                forall|j: int| 0 <= j < i ==> self.custom_drawings@[j].key != key,
            decreases self.custom_drawings@.len() - i,
        {
            i = i + 1;
        }
        if i == self.custom_drawings.len() {
            proof {
                lemma_drawing_index(self.custom_drawings@, key);
            }
        } else {
            proof {
                lemma_drawing_index_prefix_match(self.custom_drawings@, key, i as int);
            }
            let _removed = self.custom_drawings.remove(i);
            proof {
                let pre = old(self).custom_drawings@;
                let post = self.custom_drawings@;
                if old(self).wf() {
                    assert forall|a: int, b: int|
                        0 <= a < b < post.len() implies post[a].key != post[b].key by {
                        let a0 = if a < i as int {
                            a
                        } else {
                            a + 1
                        };
                        let b0 = if b < i as int {
                            b
                        } else {
                            b + 1
                        };
                        assert(post[a] == pre[a0]);
                        assert(post[b] == pre[b0]);
                    }
                    assert forall|a: int| 0 <= a < post.len() implies (#[trigger] post[a]).key
                        < self.next_key by {
                        let a0 = if a < i as int {
                            a
                        } else {
                            a + 1
                        };
                        assert(post[a] == pre[a0]);
                    }
                }
            }
        }
    }

    /// Whether a drawing with the key is registered.
    pub fn has_drawing(&self, key: u64) -> (r: bool)
        ensures
            r == (drawing_index(self.custom_drawings@, key) >= 0),
    {
        let mut i: usize = 0;
        while i < self.custom_drawings.len() && self.custom_drawings[i].key != key
            invariant
                i <= self.custom_drawings@.len(),
                forall|j: int| 0 <= j < i ==> self.custom_drawings@[j].key != key,
            decreases self.custom_drawings@.len() - i,
        {
            i = i + 1;
        }
        if i == self.custom_drawings.len() {
            proof {
                lemma_drawing_index(self.custom_drawings@, key);
            }
            false
        } else {
            proof {
                lemma_drawing_index_prefix_match(self.custom_drawings@, key, i as int);
            }
            true
        }
    }
}

/// What showing one temporary popup does, apart from the follow-up handler:
/// a drawing with the message appears under a fresh key, a one-shot timer
/// under the next key starts at `now` for the popup's duration, and one
/// dismissal event is queued on that timer. Nothing else changes.
pub open spec fn temp_popup_rel(
    pre: World,
    post: World,
    message: String,
    duration: u64,
    now: u64,
) -> bool {
    &&& post.custom_drawings@ == pre.custom_drawings@.push(
        Drawing { key: pre.next_key, message },
    )
    &&& post.timers@ == pre.timers@.push(
        Timer {
            data: TimerData {
                key: TimerKey { id: (pre.next_key + 1) as u64 },
                duration,
                repeat: false,
            },
            started_at: now,
        },
    )
    &&& post.new_events@.len() == pre.new_events@.len() + 1
    &&& post.new_events@.drop_last() == pre.new_events@
    &&& post.new_events@.last().trigger == WorldEventTrigger::TimerElapsed(
        TimerKey { id: (pre.next_key + 1) as u64 },
    )
    &&& post.new_events@.last().is_continues == false
    &&& (post.new_events@.last().handler matches WorldHandler::ClearDrawingThen { key, .. }
        && key == pre.next_key)
    &&& post.next_key == pre.next_key + 2
    &&& World::same_core(pre, post)
    &&& post.signals == pre.signals
}

impl World {
    /// Shows a temporary popup: registers the message as a drawing and sets
    /// a one-shot timer whose event clears it again and then runs `after`.
    pub fn temp_popup(&mut self, message: String, duration: u64, after: WorldHandler, now: u64)
        requires
            old(self).next_key + 2 <= u64::MAX,
        ensures
            temp_popup_rel(*old(self), *final(self), message, duration, now),
            (final(self).new_events@.last().handler matches WorldHandler::ClearDrawingThen {
                then,
                ..
            } && *then == after),
            old(self).wf() ==> final(self).wf(),
    {
        let key = self.add_drawing(message);
        self.add_timer(
            duration,
            false,
            WorldHandler::ClearDrawingThen { key, then: Box::new(after) },
            now,
        );
        proof {
            assert(self.new_events@.drop_last() =~= old(self).new_events@);
        }
    }

    /// Shows the next popup of a series: pops the front popup and displays
    /// it, chaining either the advance to the remaining popups or, after
    /// the last one, the sending of the series' end signal. With no popups
    /// left it does nothing.
    pub fn advance_popup_series(&mut self, popups: Vec<Popup>, signal: u64, now: u64)
        requires
            old(self).next_key + 2 <= u64::MAX,
        ensures
            popups@.len() == 0 ==> *final(self) == *old(self),
            popups@.len() > 0 ==> {
                &&& temp_popup_rel(
                    *old(self),
                    *final(self),
                    popups@[0].message,
                    popups@[0].duration,
                    now,
                )
                &&& (final(self).new_events@.last().handler
                    matches WorldHandler::ClearDrawingThen { then, .. } && {
                    if popups@.len() == 1 {
                        *then == WorldHandler::SendSignal(signal)
                    } else {
                        *then matches WorldHandler::AdvancePopupSeries { popups: p, signal: s }
                            && p@ == popups@.skip(1) && s == signal
                    }
                })
            },
            old(self).wf() ==> final(self).wf(),
    {
        if popups.len() > 0 {
            let mut rest = popups;
            let first = rest.remove(0);
            let next: WorldHandler = if rest.len() == 0 {
                WorldHandler::SendSignal(signal)
            } else {
                WorldHandler::AdvancePopupSeries { popups: rest, signal }
            };
            self.temp_popup(first.message, first.duration, next, now);
        }
    }

    /// Chains a series of popups, each shown for its own duration after the
    /// previous one is cleared, with a handler that runs once after the
    /// last popup is gone. The trailing handler waits on a fresh signal
    /// that the last popup's dismissal sends.
    pub fn popup_series(&mut self, popups: Vec<Popup>, after: WorldHandler, now: u64)
        requires
            old(self).next_key + 3 <= u64::MAX,
        ensures
            final(self).new_events@.take(old(self).new_events@.len() as int) == old(self).new_events@,
            ({
                let sig = old(self).next_key;
                &&& final(self).new_events@.len() >= old(self).new_events@.len() + 1
                &&& final(self).new_events@[old(self).new_events@.len() as int] == (WorldEvent {
                    trigger: WorldEventTrigger::Signal(sig),
                    is_continues: false,
                    handler: after,
                })
                &&& popups@.len() == 0 ==> {
                    &&& final(self).new_events@.len() == old(self).new_events@.len() + 1
                    &&& final(self).next_key == old(self).next_key + 1
                    &&& final(self).timers == old(self).timers
                    &&& final(self).custom_drawings == old(self).custom_drawings
                }
                &&& popups@.len() > 0 ==> {
                    &&& final(self).custom_drawings@ == old(self).custom_drawings@.push(
                        Drawing { key: (sig + 1) as u64, message: popups@[0].message },
                    )
                    &&& final(self).timers@ == old(self).timers@.push(
                        Timer {
                            data: TimerData {
                                key: TimerKey { id: (sig + 2) as u64 },
                                duration: popups@[0].duration,
                                repeat: false,
                            },
                            started_at: now,
                        },
                    )
                    &&& final(self).new_events@.len() == old(self).new_events@.len() + 2
                    &&& final(self).next_key == old(self).next_key + 3
                    &&& final(self).new_events@.last().trigger
                        == WorldEventTrigger::TimerElapsed(TimerKey { id: (sig + 2) as u64 })
                    &&& final(self).new_events@.last().is_continues == false
                    &&& (final(self).new_events@.last().handler
                        matches WorldHandler::ClearDrawingThen { key, then } && key == (sig
                        + 1) as u64 && {
                        if popups@.len() == 1 {
                            *then == WorldHandler::SendSignal(sig)
                        } else {
                            *then matches WorldHandler::AdvancePopupSeries {
                                popups: p,
                                signal: s,
                            } && p@ == popups@.skip(1) && s == sig
                        }
                    })
                }
            }),
            World::same_core(*old(self), *final(self)),
            final(self).signals == old(self).signals,
            old(self).wf() ==> final(self).wf(),
    {
        let ghost n = old(self).new_events@.len() as int;
        let ghost gpopups = popups@;
        let signal = self.alloc_key();
        let ev = WorldEvent::new(WorldEventTrigger::Signal(signal), false, after);
        let ghost gev = ev;
        self.add_event(ev);
        let ghost mid = *self;
        self.advance_popup_series(popups, signal, now);
        proof {
            assert(gev == (WorldEvent {
                trigger: WorldEventTrigger::Signal(old(self).next_key),
                is_continues: false,
                handler: after,
            }));
            assert(mid.new_events@ == old(self).new_events@.push(gev));
            assert(mid.new_events@[n] == gev);
            if gpopups.len() > 0 {
                assert(self.new_events@.drop_last() == mid.new_events@);
                assert(self.new_events@[n] == self.new_events@.drop_last()[n]);
            } else {
                assert(*self == mid);
            }
            assert(self.new_events@.take(n) =~= old(self).new_events@);
        }
    }

    /// Evaluates a trigger against the world at the given moment. The
    /// timer and signal cases are destructive: they consume the elapsed or
    /// signaled state they observe; every other case leaves the world as it
    /// is.
    pub fn is_triggered(&mut self, trigger: &WorldEventTrigger, now: u64) -> (b: bool)
        ensures
            Self::same_core(*old(self), *final(self)),
            final(self).next_key == old(self).next_key,
            final(self).custom_drawings == old(self).custom_drawings,
            final(self).new_events == old(self).new_events,
            old(self).wf() ==> final(self).wf(),
            match *trigger {
                WorldEventTrigger::Always => b && *final(self) == *old(self),
                WorldEventTrigger::GameStarted => b == (old(self).elapsed_loops == 0) && *final(self) == *old(self),
                WorldEventTrigger::Traveled(n) => b == (old(self).player.traveled >= n) && *final(self) == *old(self),
                WorldEventTrigger::DrawingExists(k) => b == (drawing_index(
                    old(self).custom_drawings@,
                    k,
                ) >= 0) && *final(self) == *old(self),
                WorldEventTrigger::TimerElapsed(key) => b == (check_result(
                    old(self).timers@,
                    key,
                    now,
                ) == Some(true)) && final(self).timers@ == timers_after_check(
                    old(self).timers@,
                    key,
                    now,
                ) && final(self).signals == old(self).signals,
                WorldEventTrigger::Signal(k) => b == old(self).signals@.contains(k) && final(self).signals@ == signals_after_take(old(self).signals@, k) && final(self).timers
                    == old(self).timers,
            },
    {
        match trigger {
            WorldEventTrigger::Always => true,
            WorldEventTrigger::GameStarted => self.elapsed_loops == 0,
            WorldEventTrigger::Traveled(n) => self.player.traveled >= *n,
            WorldEventTrigger::DrawingExists(k) => self.has_drawing(*k),
            WorldEventTrigger::TimerElapsed(key) => {
                match self.timer_elapsed(*key, now) {
                    Some(v) => v,
                    None => false,
                }
            },
            WorldEventTrigger::Signal(k) => self.signaled(*k),
        }
    }

    /// Applies one translated key press. Movement and firing act only on a
    /// live player and stop at the screen borders; pausing and quitting act
    /// always. Firing is blocked while a bullet is in flight; a new bullet
    /// starts one line above the player with enough energy to cross half
    /// the screen.
    pub fn apply_action(&mut self, action: PlayerAction)
        requires
            old(self).wf(),
        ensures
            final(self).wf(),
            final(self).map == old(self).map,
            final(self).container == old(self).container,
            final(self).entities == old(self).entities,
            final(self).timers == old(self).timers,
            final(self).custom_drawings == old(self).custom_drawings,
            final(self).signals == old(self).signals,
            final(self).new_events == old(self).new_events,
            final(self).next_key == old(self).next_key,
            final(self).enemies_armor == old(self).enemies_armor,
            final(self).enemy_spawn_probability == old(self).enemy_spawn_probability,
            final(self).fuel_spawn_probability == old(self).fuel_spawn_probability,
            final(self).elapsed_time == old(self).elapsed_time,
            final(self).elapsed_loops == old(self).elapsed_loops,
            action != PlayerAction::TogglePause ==> final(self).status == old(self).status,
            match action {
                PlayerAction::TogglePause => final(self).status == (if old(self).status
                    == WorldStatus::Fluent {
                    WorldStatus::Solid
                } else {
                    WorldStatus::Fluent
                }) && final(self).player == old(self).player,
                PlayerAction::Quit => final(self).player.status == PlayerStatus::Quit && final(self).player.location == old(self).player.location && final(self).player.fuel == old(self).player.fuel && final(self).player.score == old(self).player.score && final(self).player.traveled == old(self).player.traveled && final(self).player.bullets
                    == old(self).player.bullets,
                PlayerAction::MoveUp => if old(self).player.status == PlayerStatus::Alive {
                    &&& final(self).player.location == old(self).player.location.up_spec()
                    &&& final(self).player.traveled == (if old(self).player.traveled < u16::MAX {
                        (old(self).player.traveled + 1) as u16
                    } else {
                        u16::MAX
                    })
                    &&& final(self).player.status == old(self).player.status
                    &&& final(self).player.fuel == old(self).player.fuel
                    &&& final(self).player.score == old(self).player.score
                    &&& final(self).player.bullets == old(self).player.bullets
                } else {
                    final(self).player == old(self).player
                },
                PlayerAction::MoveDown => if old(self).player.status == PlayerStatus::Alive && old(self).player.location.line + 1 < old(self).map.max_l {
                    &&& final(self).player.location == old(self).player.location.down_spec()
                    &&& final(self).player.traveled == (if old(self).player.traveled > 0 {
                        (old(self).player.traveled - 1) as u16
                    } else {
                        0u16
                    })
                    &&& final(self).player.status == old(self).player.status
                    &&& final(self).player.fuel == old(self).player.fuel
                    &&& final(self).player.score == old(self).player.score
                    &&& final(self).player.bullets == old(self).player.bullets
                } else {
                    final(self).player == old(self).player
                },
                PlayerAction::MoveLeft => if old(self).player.status == PlayerStatus::Alive {
                    &&& final(self).player.location == old(self).player.location.left_spec()
                    &&& final(self).player.traveled == old(self).player.traveled
                    &&& final(self).player.status == old(self).player.status
                    &&& final(self).player.fuel == old(self).player.fuel
                    &&& final(self).player.score == old(self).player.score
                    &&& final(self).player.bullets == old(self).player.bullets
                } else {
                    final(self).player == old(self).player
                },
                PlayerAction::MoveRight => if old(self).player.status == PlayerStatus::Alive && old(self).player.location.column + 1 < old(self).map.max_c {
                    &&& final(self).player.location == old(self).player.location.right_spec()
                    &&& final(self).player.traveled == old(self).player.traveled
                    &&& final(self).player.status == old(self).player.status
                    &&& final(self).player.fuel == old(self).player.fuel
                    &&& final(self).player.score == old(self).player.score
                    &&& final(self).player.bullets == old(self).player.bullets
                } else {
                    final(self).player == old(self).player
                },
                PlayerAction::Fire => if old(self).player.status == PlayerStatus::Alive && old(self).player.bullets@.len() == 0 {
                    &&& final(self).player.bullets@ == old(self).player.bullets@.push(
                        Bullet {
                            energy: old(self).map.max_l / 2,
                            location: old(self).player.location.up_spec(),
                        },
                    )
                    &&& final(self).player.location == old(self).player.location
                    &&& final(self).player.status == old(self).player.status
                    &&& final(self).player.fuel == old(self).player.fuel
                    &&& final(self).player.score == old(self).player.score
                    &&& final(self).player.traveled == old(self).player.traveled
                } else {
                    final(self).player == old(self).player
                },
            },
    {
        match action {
            PlayerAction::TogglePause => {
                self.status = match self.status {
                    WorldStatus::Fluent => WorldStatus::Solid,
                    WorldStatus::Solid => WorldStatus::Fluent,
                };
            },
            PlayerAction::Quit => {
                self.player.status = PlayerStatus::Quit;
            },
            PlayerAction::MoveUp => {
                if self.player.status == PlayerStatus::Alive {
                    self.player.go_up();
                }
            },
            PlayerAction::MoveDown => {
                if self.player.status == PlayerStatus::Alive && self.player.location.line + 1
                    < self.map.max_l {
                    self.player.go_down();
                }
            },
            PlayerAction::MoveLeft => {
                if self.player.status == PlayerStatus::Alive {
                    self.player.go_left();
                }
            },
            PlayerAction::MoveRight => {
                if self.player.status == PlayerStatus::Alive && self.player.location.column + 1
                    < self.map.max_c {
                    self.player.go_right();
                }
            },
            PlayerAction::Fire => {
                if self.player.status == PlayerStatus::Alive && self.player.bullets.len() == 0 {
                    let loc = self.player.location.up();
                    let energy = self.map.max_l / 2;
                    self.player.bullets.push(Bullet { energy, location: loc });
                }
            },
        }
    }
}

} // verus!
