//! The game: the world plus the active event list, and the tick driver.
//!
//! One tick runs the dispatch pass over the active list in registration
//! order, then drains the deferred queue into the active list. The pass's
//! contract is exact about the dispatch laws: an event is dropped from the
//! active set exactly when it fired and does not continue (`retain_mask`);
//! events registered during a pass join the active list only after it, so
//! their triggers are first evaluated on the next tick (`tick_pass`); and
//! the world after the pass is the in-order composition of the fired
//! handlers' effects, each trigger judged against the world as the events
//! before it left it (`pass_rel`).

use vstd::prelude::*;
use crate::events::{retain_mask, WorldEvent, WorldEventTrigger, WorldHandler};
use crate::handlers::handler_post;
use crate::timer::{check_result, timers_after_check, Timer, TimerData, TimerKey};
use crate::world::{drawing_index, signals_after_take, World, WorldStatus};

verus! {

/// The game: the world and the active event registrations, in registration
/// order.
pub struct Game {
    pub world: World,
    pub events: Vec<WorldEvent>,
}

/// Deferred-add law, shape of one tick: after a tick that ran a pass, the
/// active list is exactly the retained old events, followed by the deferred
/// queue as it stood before the tick, followed by whatever the pass itself
/// deferred. Only the `pre_events` had their triggers evaluated, so an
/// event registered during tick N is first evaluated at tick N + 1.
pub open spec fn tick_pass(
    pre_events: Seq<WorldEvent>,
    pre_new: Seq<WorldEvent>,
    post_events: Seq<WorldEvent>,
    fired: Seq<bool>,
    added: Seq<WorldEvent>,
) -> bool {
    &&& fired.len() == pre_events.len()
    &&& post_events == retain_mask(pre_events, fired) + pre_new + added
}

/// One trigger evaluation at its turn in the pass: whether it fired is the
/// stated function of the world at that moment, and the evaluation itself
/// changes nothing but what the destructive kinds consume.
pub open spec fn trigger_step(
    pre: World,
    post: World,
    t: WorldEventTrigger,
    now: u64,
    fired: bool,
) -> bool {
    match t {
        WorldEventTrigger::Always => fired && post == pre,
        WorldEventTrigger::GameStarted => fired == (pre.elapsed_loops == 0) && post == pre,
        WorldEventTrigger::Traveled(n) => fired == (pre.player.traveled >= n) && post == pre,
        WorldEventTrigger::DrawingExists(k) => fired == (drawing_index(pre.custom_drawings@, k)
            >= 0) && post == pre,
        WorldEventTrigger::TimerElapsed(key) => {
            &&& fired == (check_result(pre.timers@, key, now) == Some(true))
            &&& post.timers@ == timers_after_check(pre.timers@, key, now)
            &&& World::same_core(pre, post)
            &&& post.custom_drawings == pre.custom_drawings
            &&& post.signals == pre.signals
            &&& post.new_events == pre.new_events
            &&& post.next_key == pre.next_key
        },
        WorldEventTrigger::Signal(k) => {
            &&& fired == pre.signals@.contains(k)
            &&& post.signals@ == signals_after_take(pre.signals@, k)
            &&& World::same_core(pre, post)
            &&& post.timers == pre.timers
            &&& post.custom_drawings == pre.custom_drawings
            &&& post.new_events == pre.new_events
            &&& post.next_key == pre.next_key
        },
    }
}

/// One event's turn in the pass: its trigger is evaluated against the
/// world as the previous events left it, and if it fired, its handler's
/// whole effect follows before the next event's turn.
pub open spec fn pass_step(ev: WorldEvent, pre: World, post: World, fired: bool, now: u64) -> bool {
    exists|evaluated: World|
        {
            &&& #[trigger] trigger_step(pre, evaluated, ev.trigger, now, fired)
            &&& (fired ==> handler_post(ev.handler, evaluated, post, now))
            &&& (!fired ==> post == evaluated)
        }
}

/// The dispatch pass as a relation over worlds: the events take their
/// turns in registration order, each trigger evaluated against the current
/// world with no snapshotting, so later triggers observe earlier handlers'
/// mutations; the world after the pass is the in-order composition of the
/// fired handlers' effects.
pub open spec fn pass_rel(
    events: Seq<WorldEvent>,
    w0: World,
    w_end: World,
    fired: Seq<bool>,
    now: u64,
) -> bool
    decreases events.len(),
{
    if events.len() == 0 {
        w_end == w0
    } else {
        exists|handled: World|
            #[trigger] pass_step(events[0], w0, handled, fired[0], now) && pass_rel(
                events.drop_first(),
                handled,
                w_end,
                fired.drop_first(),
                now,
            )
    }
}

/// `pass_rel` grown by one event's turn at the end of the pass.
proof fn lemma_pass_rel_snoc(
    events: Seq<WorldEvent>,
    w0: World,
    w1: World,
    fired: Seq<bool>,
    now: u64,
    e: WorldEvent,
    f: bool,
    w2: World,
)
    requires
        events.len() == fired.len(),
        pass_rel(events, w0, w1, fired, now),
        pass_step(e, w1, w2, f, now),
    ensures
        pass_rel(events.push(e), w0, w2, fired.push(f), now),
    decreases events.len(),
{
    let es = events.push(e);
    let fs = fired.push(f);
    if events.len() == 0 {
        assert(es[0] == e);
        assert(fs[0] == f);
        assert(es.drop_first() =~= Seq::<WorldEvent>::empty());
        assert(fs.drop_first() =~= Seq::<bool>::empty());
        assert(pass_rel(es.drop_first(), w2, w2, fs.drop_first(), now));
        assert(pass_step(es[0], w0, w2, fs[0], now));
        assert(pass_rel(es, w0, w2, fs, now));
    } else {
        assert(exists|h: World|
            #[trigger] pass_step(events[0], w0, h, fired[0], now) && pass_rel(
                events.drop_first(),
                h,
                w1,
                fired.drop_first(),
                now,
            ));
        let handled = choose|h: World|
            #[trigger] pass_step(events[0], w0, h, fired[0], now) && pass_rel(
                events.drop_first(),
                h,
                w1,
                fired.drop_first(),
                now,
            );
        lemma_pass_rel_snoc(events.drop_first(), handled, w1, fired.drop_first(), now, e, f, w2);
        assert(es.drop_first() =~= events.drop_first().push(e));
        assert(fs.drop_first() =~= fired.drop_first().push(f));
        assert(es[0] == events[0]);
        assert(fs[0] == fired[0]);
        assert(pass_step(es[0], w0, handled, fs[0], now));
        assert(pass_rel(es.drop_first(), handled, w2, fs.drop_first(), now));
        assert(pass_rel(es, w0, w2, fs, now));
    }
}

impl Game {
    /// Builds a game over a fresh world, with no events registered yet.
    pub fn new(max_c: u16, max_l: u16) -> (r: Game)
        requires
            max_c >= 18,
            max_l >= 1,
        ensures
            r.world.wf(),
            r.events@ == Seq::<WorldEvent>::empty(),
            r.world.status == WorldStatus::Fluent,
            r.world.player.status == crate::entities::PlayerStatus::Alive,
            r.world.player.fuel == 1700,
            r.world.player.location == (crate::entities::Location {
                column: max_c / 2,
                line: (max_l - 1) as u16,
            }),
            r.world.map.max_c == max_c,
            r.world.map.max_l == max_l,
            r.world.elapsed_loops == 0,
            r.world.elapsed_time == 0,
            r.world.entities@ == Seq::<crate::entities::Entity>::empty(),
            r.world.timers@ == Seq::<Timer>::empty(),
            r.world.custom_drawings@ == Seq::<crate::world::Drawing>::empty(),
            r.world.signals@ == Seq::<u64>::empty(),
            r.world.new_events@ == Seq::<WorldEvent>::empty(),
            r.world.next_key == 0,
            r.world.enemy_spawn_probability.value == 100,
            r.world.fuel_spawn_probability.value == 10,
    {
        Game { world: World::new(max_c, max_l), events: Vec::new() }
    }

    /// Registers an event directly in the active list; it is evaluated from
    /// the next pass on.
    pub fn add_event_handler(&mut self, event: WorldEvent)
        ensures
            final(self).events@ == old(self).events@.push(event),
            final(self).world == old(self).world,
    {
        self.events.push(event);
    }

    /// Starts a timer under a fresh key and registers, directly in the
    /// active list, an event that runs `on_elapsed` when it elapses; the
    /// event repeats exactly when the timer does.
    pub fn add_timer(&mut self, duration: u64, repeat: bool, on_elapsed: WorldHandler, now: u64) -> (k:
        TimerKey)
        requires
            old(self).world.next_key < u64::MAX,
        ensures
            k.id == old(self).world.next_key,
            final(self).world.timers@ == old(self).world.timers@.push(
                Timer { data: TimerData { key: k, duration, repeat }, started_at: now },
            ),
            final(self).world == (World {
                timers: final(self).world.timers,
                next_key: (old(self).world.next_key + 1) as u64,
                ..old(self).world
            }),
            final(self).events@ == old(self).events@.push(
                WorldEvent {
                    trigger: WorldEventTrigger::TimerElapsed(k),
                    is_continues: repeat,
                    handler: on_elapsed,
                },
            ),
            old(self).world.wf() ==> final(self).world.wf(),
    {
        let key = self.world.add_raw_timer(duration, repeat, now);
        self.add_event_handler(
            WorldEvent::new(WorldEventTrigger::TimerElapsed(key), repeat, on_elapsed),
        );
        key
    }

    /// How many events are in the active list.
    pub fn events_len(&self) -> (r: usize)
        ensures
            r == self.events@.len(),
    {
        self.events.len()
    }

    /// One dispatch pass: walks the active list in registration order,
    /// evaluates each trigger against the current world, runs the handler
    /// of each event that fired, and keeps an event unless it fired and
    /// does not continue. Handlers register new events only into the
    /// deferred queue, which the pass never evaluates.
    pub fn run_events(&mut self, now: u64) -> (fired: Vec<bool>)
        requires
            old(self).world.wf(),
            old(self).world.next_key + 8 * old(self).events@.len() <= u64::MAX,
        ensures
            fired@.len() == old(self).events@.len(),
            final(self).events@ == retain_mask(old(self).events@, fired@),
            final(self).world.wf(),
            old(self).world.new_events@.is_prefix_of(final(self).world.new_events@),
            final(self).world.elapsed_loops == old(self).world.elapsed_loops,
            final(self).world.status == old(self).world.status,
            old(self).world.next_key <= final(self).world.next_key <= old(self).world.next_key + 8
                * old(self).events@.len(),
            forall|i: int|
                0 <= i < old(self).events@.len() && old(self).events@[i].trigger
                    is Always ==> fired@[i],
            forall|i: int|
                0 <= i < old(self).events@.len() && old(self).events@[i].trigger
                    is GameStarted ==> fired@[i] == (old(self).world.elapsed_loops == 0),
            pass_rel(old(self).events@, old(self).world, final(self).world, fired@, now),
    {
        let ghost orig = self.events@;
        let mut pending: Vec<WorldEvent> = Vec::new();
        core::mem::swap(&mut pending, &mut self.events);
        let mut fired: Vec<bool> = Vec::new();
        proof {
            assert(orig.take(0) =~= Seq::<WorldEvent>::empty());
            assert(orig.skip(0) =~= orig);
            assert(retain_mask(Seq::<WorldEvent>::empty(), Seq::<bool>::empty())
                == Seq::<WorldEvent>::empty());
            assert(pass_rel(
                Seq::<WorldEvent>::empty(),
                old(self).world,
                old(self).world,
                Seq::<bool>::empty(),
                now,
            ));
        }
        while pending.len() > 0
            invariant
                fired@.len() <= orig.len(),
                pending@ == orig.skip(fired@.len() as int),
                self.events@ == retain_mask(orig.take(fired@.len() as int), fired@),
                self.world.wf(),
                old(self).world.new_events@.is_prefix_of(self.world.new_events@),
                self.world.elapsed_loops == old(self).world.elapsed_loops,
                self.world.status == old(self).world.status,
                old(self).world.next_key <= self.world.next_key <= old(self).world.next_key + 8
                    * fired@.len(),
                old(self).world.next_key + 8 * orig.len() <= u64::MAX,
                forall|i: int|
                    0 <= i < fired@.len() && orig[i].trigger is Always ==> fired@[i],
                forall|i: int|
                    0 <= i < fired@.len() && orig[i].trigger is GameStarted ==> fired@[i] == (old(
                        self,
                    ).world.elapsed_loops == 0),
                pass_rel(orig.take(fired@.len() as int), old(self).world, self.world, fired@, now),
            decreases pending@.len(),
        {
            let ghost k = fired@.len() as int;
            let ev = pending.remove(0);
            proof {
                assert(orig.skip(k)[0] == orig[k]);
                assert(pending@ =~= orig.skip(k + 1));
                assert(orig.take(k + 1) =~= orig.take(k).push(orig[k]));
            }
            let ghost pre_new = self.world.new_events@;
            let ghost w_before = self.world;
            let t = self.world.is_triggered(&ev.trigger, now);
            let ghost w_eval = self.world;
            if t {
                self.world.run_handler(&ev.handler, now);
            }
            proof {
                assert(trigger_step(w_before, w_eval, ev.trigger, now, t));
                assert(pass_step(ev, w_before, self.world, t, now));
                lemma_pass_rel_snoc(
                    orig.take(k),
                    old(self).world,
                    w_before,
                    fired@,
                    now,
                    ev,
                    t,
                    self.world,
                );
                crate::events::lemma_retain_mask_snoc(orig.take(k), fired@, ev, t);
                assert forall|i: int|
                    0 <= i < old(self).world.new_events@.len() implies self.world.new_events@[i]
                    == old(self).world.new_events@[i] by {
                    assert(pre_new[i] == old(self).world.new_events@[i]);
                }
                assert(old(self).world.new_events@ =~= self.world.new_events@.take(
                    old(self).world.new_events@.len() as int,
                ));
            }
            fired.push(t);
            if !t || ev.is_continues {
                self.events.push(ev);
            }
        }
        proof {
            assert(orig.take(fired@.len() as int) =~= orig);
        }
        fired
    }

    /// Moves every event registered during the last pass from the deferred
    /// queue to the end of the active list.
    pub fn drain_new_events(&mut self)
        ensures
            final(self).events@ == old(self).events@ + old(self).world.new_events@,
            final(self).world == (World {
                new_events: final(self).world.new_events,
                ..old(self).world
            }),
            final(self).world.new_events@ == Seq::<WorldEvent>::empty(),
            old(self).world.wf() ==> final(self).world.wf(),
    {
        let mut drained: Vec<WorldEvent> = Vec::new();
        core::mem::swap(&mut drained, &mut self.world.new_events);
        self.events.append(&mut drained);
    }

    /// One tick. While the world is fluent it runs the dispatch pass and
    /// then drains the deferred queue, so events registered during the pass
    /// are first evaluated on the next tick; while the world is solid
    /// (paused) the simulation is frozen. The tick counter advances either
    /// way.
    pub fn tick(&mut self, now: u64)
        requires
            old(self).world.wf(),
            old(self).world.next_key + 8 * old(self).events@.len() <= u64::MAX,
        ensures
            final(self).world.wf(),
            final(self).world.elapsed_loops == (if old(self).world.elapsed_loops < u64::MAX {
                (old(self).world.elapsed_loops + 1) as u64
            } else {
                old(self).world.elapsed_loops
            }),
            old(self).world.status == WorldStatus::Solid ==> final(self).events
                == old(self).events && final(self).world == (World {
                elapsed_loops: final(self).world.elapsed_loops,
                ..old(self).world
            }),
            old(self).world.status == WorldStatus::Fluent ==> final(self).world.new_events@.len() == 0 && exists|fired: Seq<bool>, added: Seq<WorldEvent>, passed: World|
                {
                    &&& #[trigger] tick_pass(
                        old(self).events@,
                        old(self).world.new_events@,
                        final(self).events@,
                        fired,
                        added,
                    )
                    &&& #[trigger] pass_rel(old(self).events@, old(self).world, passed, fired, now)
                    &&& passed.new_events@ == old(self).world.new_events@ + added
                    &&& final(self).world == (World {
                        new_events: final(self).world.new_events,
                        elapsed_loops: final(self).world.elapsed_loops,
                        ..passed
                    })
                    &&& forall|i: int|
                        0 <= i < old(self).events@.len() && old(self).events@[i].trigger
                            is Always ==> fired[i]
                    &&& forall|i: int|
                        0 <= i < old(self).events@.len() && old(self).events@[i].trigger
                            is GameStarted ==> fired[i] == (old(self).world.elapsed_loops == 0)
                },
    {
        let ghost mut gfired: Seq<bool> = Seq::empty();
        let ghost mut gadded: Seq<WorldEvent> = Seq::empty();
        let ghost mut gpassed: World = old(self).world;
        if matches!(self.world.status, WorldStatus::Fluent) {
            let fired = self.run_events(now);
            let ghost mid_new = self.world.new_events@;
            proof {
                gpassed = self.world;
            }
            self.drain_new_events();
            proof {
                let pre_new = old(self).world.new_events@;
                gfired = fired@;
                gadded = mid_new.skip(pre_new.len() as int);
                assert(mid_new =~= pre_new + gadded);
                assert(self.events@ =~= retain_mask(old(self).events@, gfired) + pre_new
                    + gadded);
            }
        }
        if self.world.elapsed_loops < u64::MAX {
            self.world.elapsed_loops = self.world.elapsed_loops + 1;
        }
        proof {
            if old(self).world.status == WorldStatus::Fluent {
                assert(tick_pass(
                    old(self).events@,
                    old(self).world.new_events@,
                    self.events@,
                    gfired,
                    gadded,
                ));
                assert(pass_rel(old(self).events@, old(self).world, gpassed, gfired, now));
                assert(gpassed.new_events@ == old(self).world.new_events@ + gadded);
                assert(self.world == (World {
                    new_events: self.world.new_events,
                    elapsed_loops: self.world.elapsed_loops,
                    ..gpassed
                }));
            }
        }
    }

    /// Registers the standing rules of the game: the eight permanent
    /// `Always` events (death checks, collisions, map scroll, spawning,
    /// movement, fuel burn, distance), the repeating one-minute stage timer,
    /// the repeating one-second clock, and the one-shot opening script.
    pub fn setup_event_handlers(&mut self, now: u64)
        requires
            old(self).world.wf(),
            old(self).world.next_key + 2 <= u64::MAX,
        ensures
            final(self).world.wf(),
            final(self).events@ == old(self).events@ + seq![
                WorldEvent {
                    trigger: WorldEventTrigger::Always,
                    is_continues: true,
                    handler: WorldHandler::UpdatePlayerStatus,
                },
                WorldEvent {
                    trigger: WorldEventTrigger::Always,
                    is_continues: true,
                    handler: WorldHandler::UpdateEntitiesStatus,
                },
                WorldEvent {
                    trigger: WorldEventTrigger::Always,
                    is_continues: true,
                    handler: WorldHandler::UpdateMap,
                },
                WorldEvent {
                    trigger: WorldEventTrigger::Always,
                    is_continues: true,
                    handler: WorldHandler::CreateRandomEntities,
                },
                WorldEvent {
                    trigger: WorldEventTrigger::Always,
                    is_continues: true,
                    handler: WorldHandler::MoveEntities,
                },
                WorldEvent {
                    trigger: WorldEventTrigger::Always,
                    is_continues: true,
                    handler: WorldHandler::MoveBullets,
                },
                WorldEvent {
                    trigger: WorldEventTrigger::Always,
                    is_continues: true,
                    handler: WorldHandler::BurnFuel,
                },
                WorldEvent {
                    trigger: WorldEventTrigger::Always,
                    is_continues: true,
                    handler: WorldHandler::Travel,
                },
                WorldEvent {
                    trigger: WorldEventTrigger::TimerElapsed(
                        TimerKey { id: old(self).world.next_key },
                    ),
                    is_continues: true,
                    handler: WorldHandler::StageStart {
                        timer_key: TimerKey { id: old(self).world.next_key },
                    },
                },
                WorldEvent {
                    trigger: WorldEventTrigger::TimerElapsed(
                        TimerKey { id: (old(self).world.next_key + 1) as u64 },
                    ),
                    is_continues: true,
                    handler: WorldHandler::IncrementElapsedTime,
                },
                WorldEvent {
                    trigger: WorldEventTrigger::GameStarted,
                    is_continues: false,
                    handler: WorldHandler::WarmupStart,
                },
            ],
            final(self).world.timers@ == old(self).world.timers@.push(
                Timer {
                    data: TimerData {
                        key: TimerKey { id: old(self).world.next_key },
                        duration: 60000,
                        repeat: true,
                    },
                    started_at: now,
                },
            ).push(
                Timer {
                    data: TimerData {
                        key: TimerKey { id: (old(self).world.next_key + 1) as u64 },
                        duration: 1000,
                        repeat: true,
                    },
                    started_at: now,
                },
            ),
            final(self).world == (World {
                timers: final(self).world.timers,
                next_key: (old(self).world.next_key + 2) as u64,
                ..old(self).world
            }),
    {
        self.add_event_handler(
            WorldEvent::new(WorldEventTrigger::Always, true, WorldHandler::UpdatePlayerStatus),
        );
        self.add_event_handler(
            WorldEvent::new(WorldEventTrigger::Always, true, WorldHandler::UpdateEntitiesStatus),
        );
        self.add_event_handler(
            WorldEvent::new(WorldEventTrigger::Always, true, WorldHandler::UpdateMap),
        );
        self.add_event_handler(
            WorldEvent::new(WorldEventTrigger::Always, true, WorldHandler::CreateRandomEntities),
        );
        self.add_event_handler(
            WorldEvent::new(WorldEventTrigger::Always, true, WorldHandler::MoveEntities),
        );
        self.add_event_handler(
            WorldEvent::new(WorldEventTrigger::Always, true, WorldHandler::MoveBullets),
        );
        self.add_event_handler(
            WorldEvent::new(WorldEventTrigger::Always, true, WorldHandler::BurnFuel),
        );
        self.add_event_handler(
            WorldEvent::new(WorldEventTrigger::Always, true, WorldHandler::Travel),
        );
        let stage_key = self.world.add_raw_timer(60000, true, now);
        self.add_event_handler(
            WorldEvent::new(
                WorldEventTrigger::TimerElapsed(stage_key),
                true,
                WorldHandler::StageStart { timer_key: stage_key },
            ),
        );
        let _clock_key = self.add_timer(1000, true, WorldHandler::IncrementElapsedTime, now);
        self.add_event_handler(
            WorldEvent::new(WorldEventTrigger::GameStarted, false, WorldHandler::WarmupStart),
        );
        proof {
            assert(self.events@ =~= old(self).events@ + seq![
                WorldEvent {
                    trigger: WorldEventTrigger::Always,
                    is_continues: true,
                    handler: WorldHandler::UpdatePlayerStatus,
                },
                WorldEvent {
                    trigger: WorldEventTrigger::Always,
                    is_continues: true,
                    handler: WorldHandler::UpdateEntitiesStatus,
                },
                WorldEvent {
                    trigger: WorldEventTrigger::Always,
                    is_continues: true,
                    handler: WorldHandler::UpdateMap,
                },
                WorldEvent {
                    trigger: WorldEventTrigger::Always,
                    is_continues: true,
                    handler: WorldHandler::CreateRandomEntities,
                },
                WorldEvent {
                    trigger: WorldEventTrigger::Always,
                    is_continues: true,
                    handler: WorldHandler::MoveEntities,
                },
                WorldEvent {
                    trigger: WorldEventTrigger::Always,
                    is_continues: true,
                    handler: WorldHandler::MoveBullets,
                },
                WorldEvent {
                    trigger: WorldEventTrigger::Always,
                    is_continues: true,
                    handler: WorldHandler::BurnFuel,
                },
                WorldEvent {
                    trigger: WorldEventTrigger::Always,
                    is_continues: true,
                    handler: WorldHandler::Travel,
                },
                WorldEvent {
                    trigger: WorldEventTrigger::TimerElapsed(
                        TimerKey { id: old(self).world.next_key },
                    ),
                    is_continues: true,
                    handler: WorldHandler::StageStart {
                        timer_key: TimerKey { id: old(self).world.next_key },
                    },
                },
                WorldEvent {
                    trigger: WorldEventTrigger::TimerElapsed(
                        TimerKey { id: (old(self).world.next_key + 1) as u64 },
                    ),
                    is_continues: true,
                    handler: WorldHandler::IncrementElapsedTime,
                },
                WorldEvent {
                    trigger: WorldEventTrigger::GameStarted,
                    is_continues: false,
                    handler: WorldHandler::WarmupStart,
                },
            ]);
        }
    }
}

} // verus!
