//! The handler interpreter.
//!
//! `World::run_handler` gives every `WorldHandler` variant its meaning.
//! `handler_post` is the contract of that interpretation: for each variant
//! it pins down the world after the handler against the world before it,
//! composing sequential effects through existentially quantified
//! intermediate worlds.

use vstd::prelude::*;
use vstd::string::StringExecFns;
use crate::entities::Player;
use crate::events::{Popup, WorldEvent, WorldEventTrigger, WorldHandler};
use crate::map::{approach_step, target_ok, RiverMap, RiverMode, RiverPart};
use crate::restorable::Restorable;
use crate::rules::{
    move_bullets_spec, move_entities_spec, not_dead, resolve_pass, sat_add, spawn_rel,
};
use crate::timer::{timer_index, Timer, TimerData, TimerKey};
use crate::world::{drawings_after_clear, temp_popup_rel, Drawing, World};

verus! {

/// What one river-map step leaves behind: the re-target bookkeeping and the
/// smoothed new front line, exactly as `RiverMap::update` promises.
pub open spec fn map_update_rel(pre: RiverMap, post: RiverMap) -> bool {
    &&& post.max_c == pre.max_c
    &&& post.max_l == pre.max_l
    &&& post.river_mode == pre.river_mode
    &&& post.change_rate == pre.change_rate
    &&& (pre.next_point <= pre.change_rate ==> target_ok(
        pre.river_mode.value,
        pre.river_parts@[0],
        post.target_river,
    ) && post.next_point == if pre.max_l >= pre.change_rate {
        (pre.max_l - pre.change_rate) as u16
    } else {
        0u16
    })
    &&& (pre.next_point > pre.change_rate ==> post.target_river == pre.target_river
        && post.next_point == (pre.next_point - pre.change_rate) as u16)
    &&& post.river_parts@.len() == pre.river_parts@.len()
    &&& post.river_parts@[0] == (RiverPart {
        width: approach_step(pre.river_parts@[0].width, post.target_river.width),
        center_c: approach_step(pre.river_parts@[0].center_c, post.target_river.center_c),
    })
    &&& post.river_parts@.skip(1) == pre.river_parts@.take(pre.river_parts@.len() - 1)
}

/// A world whose generation mode was set to `mode`, baseline kept.
pub open spec fn mode_changed(pre: World, post: World, mode: RiverMode) -> bool {
    &&& post == (World { map: post.map, ..pre })
    &&& post.map == (RiverMap { river_mode: post.map.river_mode, ..pre.map })
    &&& post.map.river_mode.value == mode
    &&& post.map.river_mode.solid == pre.map.river_mode.solid
}

/// A world with one fresh timer and its elapse event queued.
pub open spec fn timer_event_added(
    pre: World,
    post: World,
    duration: u64,
    repeat: bool,
    h: WorldHandler,
    now: u64,
) -> bool {
    &&& post.timers@ == pre.timers@.push(
        Timer {
            data: TimerData { key: TimerKey { id: pre.next_key }, duration, repeat },
            started_at: now,
        },
    )
    &&& post.new_events@ == pre.new_events@.push(
        WorldEvent {
            trigger: WorldEventTrigger::TimerElapsed(TimerKey { id: pre.next_key }),
            is_continues: repeat,
            handler: h,
        },
    )
    &&& post.next_key == pre.next_key + 1
    &&& World::same_core(pre, post)
    &&& post.custom_drawings == pre.custom_drawings
    &&& post.signals == pre.signals
}

/// A world showing one fresh temporary popup: a drawing with the message,
/// its one-shot dismissal timer, and the queued dismissal event whose
/// follow-up handler is `after`.
pub open spec fn popup_shown(
    pre: World,
    post: World,
    message: Seq<char>,
    duration: u64,
    after: WorldHandler,
    now: u64,
) -> bool {
    &&& post.custom_drawings@.len() == pre.custom_drawings@.len() + 1
    &&& post.custom_drawings@.drop_last() == pre.custom_drawings@
    &&& post.custom_drawings@.last().key == pre.next_key
    &&& post.custom_drawings@.last().message@ == message
    &&& post.timers@ == pre.timers@.push(
        Timer {
            data: TimerData {
                key: TimerKey { id: (pre.next_key + 1) as u64 },
                duration,
                repeat: false,
            },
            started_at: now,
        },
    )
    &&& post.new_events@.len() == pre.new_events@.len() + 1
    &&& post.new_events@.drop_last() == pre.new_events@
    &&& post.new_events@.last().trigger == WorldEventTrigger::TimerElapsed(
        TimerKey { id: (pre.next_key + 1) as u64 },
    )
    &&& post.new_events@.last().is_continues == false
    &&& (post.new_events@.last().handler matches WorldHandler::ClearDrawingThen { key, then }
        && key == pre.next_key && *then == after)
    &&& post.next_key == pre.next_key + 2
    &&& World::same_core(pre, post)
    &&& post.signals == pre.signals
}

/// A world in which a popup series over `popups` was just started: the
/// end-signal event waits on a fresh signal key, the first popup is shown,
/// and its dismissal chains the rest of the series.
pub open spec fn series_started(
    pre: World,
    post: World,
    popups: Seq<Popup>,
    after: WorldHandler,
    now: u64,
) -> bool {
    let sig = pre.next_key;
    &&& popups.len() > 0
    &&& post.new_events@.len() == pre.new_events@.len() + 2
    &&& post.new_events@.take(pre.new_events@.len() as int) == pre.new_events@
    &&& post.new_events@[pre.new_events@.len() as int] == (WorldEvent {
        trigger: WorldEventTrigger::Signal(sig),
        is_continues: false,
        handler: after,
    })
    &&& post.custom_drawings@ == pre.custom_drawings@.push(
        Drawing { key: (sig + 1) as u64, message: popups[0].message },
    )
    &&& post.timers@ == pre.timers@.push(
        Timer {
            data: TimerData {
                key: TimerKey { id: (sig + 2) as u64 },
                duration: popups[0].duration,
                repeat: false,
            },
            started_at: now,
        },
    )
    &&& post.next_key == pre.next_key + 3
    &&& post.new_events@.last().trigger == WorldEventTrigger::TimerElapsed(
        TimerKey { id: (sig + 2) as u64 },
    )
    &&& post.new_events@.last().is_continues == false
    &&& (post.new_events@.last().handler matches WorldHandler::ClearDrawingThen { key, then }
        && key == (sig + 1) as u64 && (if popups.len() == 1 {
        *then == WorldHandler::SendSignal(sig)
    } else {
        *then matches WorldHandler::AdvancePopupSeries { popups: p, signal: s } && p@
            == popups.skip(1) && s == sig
    }))
    &&& World::same_core(pre, post)
    &&& post.signals == pre.signals
}

/// A world whose spawn probabilities were forced to zero, baselines kept.
pub open spec fn probs_zeroed(pre: World, post: World) -> bool {
    &&& post == (World {
        enemy_spawn_probability: post.enemy_spawn_probability,
        fuel_spawn_probability: post.fuel_spawn_probability,
        ..pre
    })
    &&& post.enemy_spawn_probability == (Restorable {
        value: 0u16,
        solid: pre.enemy_spawn_probability.solid,
    })
    &&& post.fuel_spawn_probability == (Restorable {
        value: 0u16,
        solid: pre.fuel_spawn_probability.solid,
    })
}

/// The scripted stage opening: the river is fixed to a third of the screen
/// at its middle, the announcement popup is shown, and a one-shot timer is
/// set whose event ends the stage.
pub open spec fn stage_start_rel(pre: World, post: World, timer_key: TimerKey, now: u64) -> bool {
    exists|mid1: World, mid2: World|
        {
            &&& mode_changed(
                pre,
                mid1,
                RiverMode::ConstWidthAndCenter {
                    width: pre.map.max_c / 3,
                    center_c: pre.map.max_c / 2,
                },
            )
            &&& #[trigger] popup_shown(mid1, mid2, "More enemies ..."@, 1000, WorldHandler::LeaveAlone, now)
            &&& timer_event_added(
                mid2,
                post,
                10000,
                false,
                WorldHandler::StageEnd { timer_key },
                now,
            )
        }
}

/// The scripted stage ending: the stage timer is restarted, the enemy
/// spawn chance rises by a tenth unless already at one, and the river mode
/// returns to its baseline.
pub open spec fn stage_end_rel(pre: World, post: World, key: TimerKey, now: u64) -> bool {
    &&& (timer_index(pre.timers@, key) >= 0 ==> post.timers@ == pre.timers@.update(
        timer_index(pre.timers@, key),
        Timer { data: pre.timers@[timer_index(pre.timers@, key)].data, started_at: now },
    ))
    &&& (timer_index(pre.timers@, key) < 0 ==> post.timers@ == pre.timers@)
    &&& post.enemy_spawn_probability == (Restorable {
        value: if pre.enemy_spawn_probability.value < 1000 {
            (pre.enemy_spawn_probability.value + 100) as u16
        } else {
            pre.enemy_spawn_probability.value
        },
        solid: pre.enemy_spawn_probability.solid,
    })
    &&& post.map == (RiverMap { river_mode: post.map.river_mode, ..pre.map })
    &&& post.map.river_mode.value == pre.map.river_mode.solid
    &&& post.map.river_mode.solid == pre.map.river_mode.solid
    &&& post == (World {
        timers: post.timers,
        enemy_spawn_probability: post.enemy_spawn_probability,
        map: post.map,
        ..pre
    })
}

/// The opening script: spawning frozen, the river fixed to half the screen
/// at its middle, and the three-popup welcome series started, its trailing
/// handler the warmup restore.
pub open spec fn warmup_start_rel(pre: World, post: World, now: u64) -> bool {
    exists|mid1: World, mid2: World, popups: Seq<Popup>|
        {
            &&& probs_zeroed(pre, mid1)
            &&& #[trigger] mode_changed(
                mid1,
                mid2,
                RiverMode::ConstWidthAndCenter {
                    width: pre.map.max_c / 2,
                    center_c: pre.map.max_c / 2,
                },
            )
            &&& popups.len() == 3
            &&& popups[0].message@ == "Warmup"@ && popups[0].duration == 5000
            &&& popups[1].message@ == "Ready !!"@ && popups[1].duration == 2000
            &&& popups[2].message@ == "!!! GO !!!"@ && popups[2].duration == 1000
            &&& #[trigger] series_started(mid2, post, popups, WorldHandler::WarmupRestore, now)
        }
}

/// A world whose river mode and spawn probabilities have all returned to
/// their baselines, and nothing else changed.
pub open spec fn baselines_restored(pre: World, post: World) -> bool {
    &&& post == (World {
        map: post.map,
        enemy_spawn_probability: post.enemy_spawn_probability,
        fuel_spawn_probability: post.fuel_spawn_probability,
        ..pre
    })
    &&& post.map == (RiverMap { river_mode: post.map.river_mode, ..pre.map })
    &&& post.map.river_mode.value == pre.map.river_mode.solid
    &&& post.map.river_mode.solid == pre.map.river_mode.solid
    &&& post.enemy_spawn_probability == (Restorable {
        value: pre.enemy_spawn_probability.solid,
        solid: pre.enemy_spawn_probability.solid,
    })
    &&& post.fuel_spawn_probability == (Restorable {
        value: pre.fuel_spawn_probability.solid,
        solid: pre.fuel_spawn_probability.solid,
    })
}

/// The close of the opening script: the river mode and both spawn
/// probabilities return to their baselines, and a repeating ten-second
/// score bonus starts.
pub open spec fn warmup_restore_rel(pre: World, post: World, now: u64) -> bool {
    exists|mid: World|
        #[trigger] baselines_restored(pre, mid) && timer_event_added(
            mid,
            post,
            10000,
            true,
            WorldHandler::AddScore(10),
            now,
        )
}

/// A world with the keyed drawing cleared and nothing else changed.
pub open spec fn drawing_cleared(pre: World, post: World, key: u64) -> bool {
    &&& post == (World { custom_drawings: post.custom_drawings, ..pre })
    &&& post.custom_drawings@ == drawings_after_clear(pre.custom_drawings@, key)
}

/// What running a handler does to the world, variant by variant.
pub open spec fn handler_post(h: WorldHandler, pre: World, post: World, now: u64) -> bool
    decreases h,
{
    match h {
        WorldHandler::LeaveAlone => post == pre,
        WorldHandler::UpdatePlayerStatus => {
            &&& post == (World { player: post.player, ..pre })
            &&& post.player == (Player {
                status: if !pre.map.in_river_spec(pre.player.location) {
                    crate::entities::PlayerStatus::Dead(crate::entities::DeathCause::Ground)
                } else if pre.player.fuel == 0 {
                    crate::entities::PlayerStatus::Dead(crate::entities::DeathCause::Fuel)
                } else {
                    pre.player.status
                },
                ..pre.player
            })
        },
        WorldHandler::UpdateEntitiesStatus => {
            &&& ({
                let r = resolve_pass(pre.entities@.filter(|e| not_dead(e)), pre.player);
                post.entities@ == r.0 && post.player == r.1
            })
            &&& post == (World { player: post.player, entities: post.entities, ..pre })
        },
        WorldHandler::UpdateMap => {
            &&& post == (World { map: post.map, ..pre })
            &&& map_update_rel(pre.map, post.map)
        },
        WorldHandler::CreateRandomEntities => spawn_rel(pre, post),
        WorldHandler::MoveEntities => {
            &&& post == (World { entities: post.entities, ..pre })
            &&& post.entities@ == move_entities_spec(pre.entities@, pre.map.max_l)
        },
        WorldHandler::MoveBullets => {
            &&& post == (World { player: post.player, ..pre })
            &&& post.player == (Player { bullets: post.player.bullets, ..pre.player })
            &&& post.player.bullets@ == move_bullets_spec(pre.player.bullets@, pre.map)
        },
        WorldHandler::BurnFuel => {
            &&& post == (World { player: post.player, ..pre })
            &&& post.player == (Player {
                fuel: if pre.player.fuel >= 1 {
                    (pre.player.fuel - 1) as u16
                } else {
                    pre.player.fuel
                },
                ..pre.player
            })
        },
        WorldHandler::Travel => {
            &&& post == (World { player: post.player, ..pre })
            &&& post.player == (Player { traveled: sat_add(pre.player.traveled, 1), ..pre.player })
        },
        WorldHandler::AddScore(n) => {
            &&& post == (World { player: post.player, ..pre })
            &&& post.player == (Player { score: sat_add(pre.player.score, n), ..pre.player })
        },
        WorldHandler::IncrementElapsedTime => {
            &&& post == (World { elapsed_time: post.elapsed_time, ..pre })
            &&& post.elapsed_time == if pre.elapsed_time < u64::MAX {
                (pre.elapsed_time + 1) as u64
            } else {
                pre.elapsed_time
            }
        },
        WorldHandler::SendSignal(k) => {
            &&& post == (World { signals: post.signals, ..pre })
            &&& post.signals@ == if pre.signals@.contains(k) {
                pre.signals@
            } else {
                pre.signals@.push(k)
            }
        },
        WorldHandler::ClearDrawingThen { key, then } => exists|mid: World|
            #[trigger] drawing_cleared(pre, mid, key) && handler_post(*then, mid, post, now),
        WorldHandler::AdvancePopupSeries { popups, signal } => {
            &&& (popups@.len() == 0 ==> post == pre)
            &&& (popups@.len() > 0 ==> {
                &&& temp_popup_rel(pre, post, popups@[0].message, popups@[0].duration, now)
                &&& (post.new_events@.last().handler matches WorldHandler::ClearDrawingThen {
                    then,
                    ..
                } && (if popups@.len() == 1 {
                    *then == WorldHandler::SendSignal(signal)
                } else {
                    *then matches WorldHandler::AdvancePopupSeries { popups: p, signal: s } && p@
                        == popups@.skip(1) && s == signal
                }))
            })
        },
        WorldHandler::StageStart { timer_key } => stage_start_rel(pre, post, timer_key, now),
        WorldHandler::StageEnd { timer_key } => stage_end_rel(pre, post, timer_key, now),
        WorldHandler::WarmupStart => warmup_start_rel(pre, post, now),
        WorldHandler::WarmupRestore => warmup_restore_rel(pre, post, now),
    }
}

/// Copies a popup list, message for message.
fn clone_popups(v: &Vec<Popup>) -> (r: Vec<Popup>)
    ensures
        r@ == v@,
{
    let mut r: Vec<Popup> = Vec::new();
    let mut i: usize = 0;
    proof {
        assert(v@.take(0) =~= Seq::<Popup>::empty());
    }
    while i < v.len()
        invariant
            i <= v@.len(),
            r@ == v@.take(i as int),
        decreases v@.len() - i,
    {
        let p = &v[i];
        r.push(Popup { message: p.message.clone(), duration: p.duration });
        proof {
            assert(r@ =~= v@.take(i + 1));
        }
        i = i + 1;
    }
    proof {
        assert(v@.take(v@.len() as int) =~= v@);
    }
    r
}

impl World {
    /// Runs one handler against the world at the given moment. A handler
    /// hands out at most a handful of fresh keys, only appends to the
    /// deferred event queue, and preserves well-formedness and the pause
    /// state.
    pub fn run_handler(&mut self, h: &WorldHandler, now: u64)
        requires
            old(self).wf(),
            old(self).next_key + 8 <= u64::MAX,
        ensures
            final(self).wf(),
            handler_post(*h, *old(self), *final(self), now),
            old(self).next_key <= final(self).next_key <= old(self).next_key + 8,
            old(self).new_events@.is_prefix_of(final(self).new_events@),
            final(self).elapsed_loops == old(self).elapsed_loops,
            final(self).status == old(self).status,
        decreases *h,
    {
        match h {
            WorldHandler::LeaveAlone => {},
            WorldHandler::UpdatePlayerStatus => {
                self.update_player_status();
            },
            WorldHandler::UpdateEntitiesStatus => {
                self.update_entities_status();
            },
            WorldHandler::UpdateMap => {
                self.map.update();
            },
            WorldHandler::CreateRandomEntities => {
                self.create_random_entities();
            },
            WorldHandler::MoveEntities => {
                self.move_entities();
            },
            WorldHandler::MoveBullets => {
                self.move_bullets();
            },
            WorldHandler::BurnFuel => {
                if self.player.fuel >= 1 {
                    self.player.fuel = self.player.fuel - 1;
                }
            },
            WorldHandler::Travel => {
                if self.player.traveled < u16::MAX {
                    self.player.traveled = self.player.traveled + 1;
                }
            },
            WorldHandler::AddScore(n) => {
                self.player.score = if self.player.score as u32 + *n as u32 > u16::MAX as u32 {
                    u16::MAX
                } else {
                    self.player.score + *n
                };
            },
            WorldHandler::IncrementElapsedTime => {
                if self.elapsed_time < u64::MAX {
                    self.elapsed_time = self.elapsed_time + 1;
                }
            },
            WorldHandler::SendSignal(k) => {
                let _sent = self.send_signal(Some(*k));
            },
            WorldHandler::ClearDrawingThen { key, then } => {
                self.clear_drawing(*key);
                let ghost mid = *self;
                self.run_handler(&**then, now);
                proof {
                    assert(drawing_cleared(*old(self), mid, *key));
                }
            },
            WorldHandler::AdvancePopupSeries { popups, signal } => {
                let copy = clone_popups(popups);
                self.advance_popup_series(copy, *signal, now);
            },
            WorldHandler::StageStart { timer_key } => {
                let w = self.max_c() / 3;
                let c = self.max_c() / 2;
                self.map.change_river_mode(RiverMode::ConstWidthAndCenter { width: w, center_c: c });
                let ghost m1 = *self;
                self.temp_popup(String::from_str("More enemies ..."), 1000, WorldHandler::LeaveAlone, now);
                let ghost m2 = *self;
                self.add_timer(10000, false, WorldHandler::StageEnd { timer_key: *timer_key }, now);
                proof {
                    assert(mode_changed(
                        *old(self),
                        m1,
                        RiverMode::ConstWidthAndCenter {
                            width: old(self).map.max_c / 3,
                            center_c: old(self).map.max_c / 2,
                        },
                    ));
                    assert(m2.custom_drawings@.drop_last() =~= m1.custom_drawings@);
                    assert(popup_shown(
                        m1,
                        m2,
                        "More enemies ..."@,
                        1000,
                        WorldHandler::LeaveAlone,
                        now,
                    ));
                    assert(timer_event_added(
                        m2,
                        *self,
                        10000,
                        false,
                        WorldHandler::StageEnd { timer_key: *timer_key },
                        now,
                    ));
                }
            },
            WorldHandler::StageEnd { timer_key } => {
                let _reset = self.reset_timer(*timer_key, now);
                if self.enemy_spawn_probability.value < 1000 {
                    self.enemy_spawn_probability.value = self.enemy_spawn_probability.value + 100;
                }
                self.map.restore_river_mode();
            },
            WorldHandler::WarmupStart => {
                self.enemy_spawn_probability.value = 0;
                self.fuel_spawn_probability.value = 0;
                let ghost m1 = *self;
                let w = self.max_c() / 2;
                let c = self.max_c() / 2;
                self.map.change_river_mode(RiverMode::ConstWidthAndCenter { width: w, center_c: c });
                let ghost m2 = *self;
                let mut popups: Vec<Popup> = Vec::new();
                popups.push(Popup::new(String::from_str("Warmup"), 5000));
                popups.push(Popup::new(String::from_str("Ready !!"), 2000));
                popups.push(Popup::new(String::from_str("!!! GO !!!"), 1000));
                let ghost gpopups = popups@;
                self.popup_series(popups, WorldHandler::WarmupRestore, now);
                proof {
                    assert(probs_zeroed(*old(self), m1));
                    assert(mode_changed(
                        m1,
                        m2,
                        RiverMode::ConstWidthAndCenter {
                            width: old(self).map.max_c / 2,
                            center_c: old(self).map.max_c / 2,
                        },
                    ));
                    assert(self.custom_drawings@ == m2.custom_drawings@.push(
                        Drawing { key: (m2.next_key + 1) as u64, message: gpopups[0].message },
                    ));
                    assert(gpopups.skip(1)[0] == gpopups[1]);
                    assert(gpopups.skip(1)[1] == gpopups[2]);
                    assert(series_started(m2, *self, gpopups, WorldHandler::WarmupRestore, now));
                    assert(warmup_start_rel(*old(self), *self, now));
                }
            },
            WorldHandler::WarmupRestore => {
                self.map.restore_river_mode();
                self.fuel_spawn_probability.restore();
                self.enemy_spawn_probability.restore();
                let ghost mid = *self;
                self.add_timer(10000, true, WorldHandler::AddScore(10), now);
                proof {
                    assert(baselines_restored(*old(self), mid));
                    assert(timer_event_added(
                        mid,
                        *self,
                        10000,
                        true,
                        WorldHandler::AddScore(10),
                        now,
                    ));
                }
            },
        }
        proof {
            assert(old(self).new_events@.is_prefix_of(self.new_events@)) by {
                assert(old(self).new_events@.len() <= self.new_events@.len());
                assert(old(self).new_events@ =~= self.new_events@.take(
                    old(self).new_events@.len() as int,
                ));
            }
        }
    }
}

} // verus!
