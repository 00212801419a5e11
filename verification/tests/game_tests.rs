use riverraid::entities::{Enemy, Entity, EntityType, Fuel, Location, PlayerStatus};
use riverraid::events::{Popup, WorldEvent, WorldEventTrigger, WorldHandler};
use riverraid::game::Game;
use riverraid::map::RiverMode;
use riverraid::world::{PlayerAction, WorldStatus};

/// Event continuation law, one-shot half: an event registered with
/// `continues = false` fires at most once.
#[test]
fn one_shot_event_fires_at_most_once() {
    let mut g = Game::new(30, 10);
    g.add_event_handler(WorldEvent::new(
        WorldEventTrigger::Always,
        false,
        WorldHandler::AddScore(10),
    ));
    assert_eq!(g.events_len(), 1);
    g.tick(0);
    assert_eq!(g.world.player.score, 10);
    assert_eq!(g.events_len(), 0);
    g.tick(1);
    g.tick(2);
    assert_eq!(g.world.player.score, 10);
}

/// Event continuation law, persistence half: a `continues = true` event
/// stays registered across ticks where its trigger is false, and fires on
/// every tick where it is true.
#[test]
fn continues_event_persists_across_ticks() {
    let mut g = Game::new(30, 10);
    g.add_event_handler(WorldEvent::new(
        WorldEventTrigger::Traveled(3),
        true,
        WorldHandler::AddScore(1),
    ));
    for now in 0..5 {
        g.tick(now);
        assert_eq!(g.events_len(), 1);
    }
    assert_eq!(g.world.player.score, 0);
    g.world.player.traveled = 3;
    g.tick(10);
    g.tick(11);
    // Fired twice once past the threshold, and is still registered.
    assert_eq!(g.world.player.score, 2);
    assert_eq!(g.events_len(), 1);
}

/// Deferred-add law: an event registered by a handler during tick N is not
/// evaluated during tick N; it first runs at tick N + 1 or later.
#[test]
fn deferred_event_is_not_evaluated_in_its_own_tick() {
    let mut g = Game::new(30, 10);
    // A handler that shows a zero-duration popup: the popup's dismissal
    // event is registered during the tick that runs the handler, with a
    // timer that counts as elapsed on any later moment.
    let mut popups: Vec<Popup> = Vec::new();
    popups.push(Popup::new("hello".to_string(), 0));
    g.add_event_handler(WorldEvent::new(
        WorldEventTrigger::Always,
        false,
        WorldHandler::AdvancePopupSeries { popups, signal: 7 },
    ));
    // The tick runs the handler; the dismissal event it registers is not
    // evaluated in this same tick, so the drawing survives the tick.
    g.tick(5);
    assert_eq!(g.world.custom_drawings.len(), 1);
    // The next tick evaluates it and clears the drawing.
    g.tick(6);
    assert_eq!(g.world.custom_drawings.len(), 0);
}

/// Signal chaining scenario: a series of 3 popups gives exactly 3
/// sequential drawings, each cleared before the next appears, and the
/// trailing handler fires exactly once after the last popup's timer
/// elapses.
#[test]
fn popup_series_chains_three_popups_then_fires_once() {
    let mut g = Game::new(30, 10);
    let mut popups: Vec<Popup> = Vec::new();
    popups.push(Popup::new("one".to_string(), 10));
    popups.push(Popup::new("two".to_string(), 10));
    popups.push(Popup::new("three".to_string(), 10));
    g.world.popup_series(popups, WorldHandler::AddScore(50), 0);
    g.drain_new_events();
    // First popup is up.
    assert_eq!(g.world.custom_drawings.len(), 1);
    assert_eq!(g.world.custom_drawings[0].message, "one");

    // Before its timer elapses nothing changes.
    g.tick(5);
    assert_eq!(g.world.custom_drawings.len(), 1);
    assert_eq!(g.world.custom_drawings[0].message, "one");

    // At 11 the first dismissal fires: "one" is cleared, "two" appears.
    g.tick(11);
    assert_eq!(g.world.custom_drawings.len(), 1);
    assert_eq!(g.world.custom_drawings[0].message, "two");
    assert_eq!(g.world.player.score, 0);

    // Second dismissal: timer started at 11, elapses after 21.
    g.tick(22);
    assert_eq!(g.world.custom_drawings.len(), 1);
    assert_eq!(g.world.custom_drawings[0].message, "three");

    // Third dismissal clears the last popup and sends the end signal.
    g.tick(33);
    assert_eq!(g.world.custom_drawings.len(), 0);
    assert_eq!(g.world.player.score, 0);

    // The waiting event consumes the signal on the next tick: the trailing
    // handler fires exactly once.
    g.tick(34);
    assert_eq!(g.world.player.score, 50);
    g.tick(35);
    g.tick(36);
    assert_eq!(g.world.player.score, 50);
}

#[test]
fn pause_freezes_the_simulation() {
    let mut g = Game::new(30, 10);
    g.add_event_handler(WorldEvent::new(
        WorldEventTrigger::Always,
        true,
        WorldHandler::BurnFuel,
    ));
    g.tick(0);
    assert_eq!(g.world.player.fuel, 1699);
    g.world.apply_action(PlayerAction::TogglePause);
    assert_eq!(g.world.status, WorldStatus::Solid);
    g.tick(1);
    g.tick(2);
    // Frozen: no fuel burnt, but ticks still counted.
    assert_eq!(g.world.player.fuel, 1699);
    assert_eq!(g.world.elapsed_loops, 3);
    g.world.apply_action(PlayerAction::TogglePause);
    assert_eq!(g.world.status, WorldStatus::Fluent);
    g.tick(3);
    assert_eq!(g.world.player.fuel, 1698);
}

#[test]
fn player_actions_move_within_borders() {
    let mut g = Game::new(30, 10);
    assert_eq!(g.world.player.location, Location::new(15, 9));
    // The bottom line is the border: moving down does nothing.
    g.world.apply_action(PlayerAction::MoveDown);
    assert_eq!(g.world.player.location, Location::new(15, 9));
    g.world.apply_action(PlayerAction::MoveUp);
    assert_eq!(g.world.player.location, Location::new(15, 8));
    assert_eq!(g.world.player.traveled, 1);
    g.world.apply_action(PlayerAction::MoveDown);
    assert_eq!(g.world.player.location, Location::new(15, 9));
    assert_eq!(g.world.player.traveled, 0);
    g.world.apply_action(PlayerAction::MoveLeft);
    assert_eq!(g.world.player.location, Location::new(14, 9));
    g.world.apply_action(PlayerAction::MoveRight);
    assert_eq!(g.world.player.location, Location::new(15, 9));
}

#[test]
fn firing_is_blocked_while_a_bullet_is_in_flight() {
    let mut g = Game::new(30, 10);
    g.world.apply_action(PlayerAction::Fire);
    assert_eq!(g.world.player.bullets.len(), 1);
    assert_eq!(g.world.player.bullets[0].location, Location::new(15, 8));
    g.world.apply_action(PlayerAction::Fire);
    assert_eq!(g.world.player.bullets.len(), 1);
}

#[test]
fn quit_ends_the_player() {
    let mut g = Game::new(30, 10);
    g.world.apply_action(PlayerAction::Quit);
    assert_eq!(g.world.player.status, PlayerStatus::Quit);
    // A dead or quit player no longer moves or fires.
    g.world.apply_action(PlayerAction::MoveUp);
    g.world.apply_action(PlayerAction::Fire);
    assert_eq!(g.world.player.location, Location::new(15, 9));
    assert_eq!(g.world.player.bullets.len(), 0);
}

#[test]
fn enemies_filters_the_entity_list() {
    let mut g = Game::new(30, 10);
    g.world.entities.push(Entity::new((11, 1), EntityType::Fuel(Fuel)));
    g.world.entities.push(Entity::new((12, 2), EntityType::Enemy(Enemy::new(1))));
    g.world.entities.push(Entity::new((13, 3), EntityType::Enemy(Enemy::new(2))));
    let enemies = g.world.enemies();
    assert_eq!(enemies.len(), 2);
    assert_eq!(enemies[0].location, Location::new(12, 2));
    assert_eq!(enemies[1].location, Location::new(13, 3));
    assert_eq!(g.world.max_c(), 30);
    assert_eq!(g.world.max_l(), 10);
}

#[test]
fn setup_registers_the_standing_rules() {
    let mut g = Game::new(30, 10);
    g.setup_event_handlers(0);
    assert_eq!(g.events_len(), 11);
    // Two repeating timers: the stage timer and the one-second clock.
    assert_eq!(g.world.timers.len(), 2);

    // The first tick runs the opening script: spawning freezes and the
    // welcome popup appears.
    g.tick(0);
    assert_eq!(g.world.enemy_spawn_probability.value, 0);
    assert_eq!(g.world.fuel_spawn_probability.value, 0);
    assert_eq!(g.world.custom_drawings.len(), 1);
    assert_eq!(g.world.custom_drawings[0].message, "Warmup");
    // The one-shot opening event is gone; the series' end-signal event and
    // the popup's dismissal event joined.
    assert_eq!(g.events_len(), 12);

    // One second of play advances the clock by one.
    assert_eq!(g.world.elapsed_time, 0);
    g.tick(1001);
    assert_eq!(g.world.elapsed_time, 1);
}

#[test]
fn warmup_restores_baselines_after_the_series() {
    let mut g = Game::new(30, 10);
    g.setup_event_handlers(0);
    // Run the opening script to its end: Warmup (5 s), Ready (2 s),
    // GO (1 s), then the restore handler on the end signal.
    g.tick(0);
    let mut now = 0u64;
    for _ in 0..6 {
        now += 6000;
        g.tick(now);
    }
    assert_eq!(g.world.custom_drawings.len(), 0);
    assert_eq!(g.world.enemy_spawn_probability.value, 100);
    assert_eq!(g.world.fuel_spawn_probability.value, 10);
}

#[test]
fn stage_narrows_the_river_then_restores_it() {
    let mut g = Game::new(30, 10);
    g.setup_event_handlers(0);
    g.tick(0);

    // After one minute the stage timer fires: the river is pinned narrow
    // and the stage announcement pops up.
    g.tick(61000);
    match g.world.map.river_mode.value {
        RiverMode::ConstWidthAndCenter { width, center_c } => {
            assert_eq!(width, 10);
            assert_eq!(center_c, 15);
        },
        _ => panic!("stage did not pin the river mode"),
    }
    assert!(g
        .world
        .custom_drawings
        .iter()
        .any(|d| d.message == "More enemies ..."));

    // Ten seconds later the stage ends: the river mode returns to its
    // baseline and the enemy spawn chance rises by a tenth.
    g.tick(71001);
    assert!(matches!(g.world.map.river_mode.value, RiverMode::Random { .. }));
    assert_eq!(g.world.enemy_spawn_probability.value, 100);
}

#[test]
fn drawing_exists_trigger_follows_the_table() {
    let mut g = Game::new(30, 10);
    let key = g.world.add_drawing("note".to_string());
    g.add_event_handler(WorldEvent::new(
        WorldEventTrigger::DrawingExists(key),
        true,
        WorldHandler::AddScore(1),
    ));
    g.tick(0);
    assert_eq!(g.world.player.score, 1);
    g.world.clear_drawing(key);
    g.tick(1);
    assert_eq!(g.world.player.score, 1);
    assert_eq!(g.events_len(), 1);
}

#[test]
fn empty_popup_series_only_waits_for_its_signal() {
    let mut g = Game::new(30, 10);
    let popups: Vec<Popup> = Vec::new();
    g.world.popup_series(popups, WorldHandler::AddScore(9), 0);
    g.drain_new_events();
    assert_eq!(g.world.custom_drawings.len(), 0);
    assert_eq!(g.events_len(), 1);
    // No popup ever sends the signal, so the trailing handler never fires.
    for now in 0..5 {
        g.tick(now);
    }
    assert_eq!(g.world.player.score, 0);
    assert_eq!(g.events_len(), 1);
}

#[test]
fn counters_saturate_at_their_bounds() {
    let mut g = Game::new(30, 10);
    g.world.player.traveled = u16::MAX;
    g.world.apply_action(PlayerAction::MoveUp);
    assert_eq!(g.world.player.traveled, u16::MAX);
    g.world.player.score = u16::MAX - 5;
    g.world.run_handler(&WorldHandler::AddScore(100), 0);
    assert_eq!(g.world.player.score, u16::MAX);
    g.world.player.fuel = 0;
    g.world.run_handler(&WorldHandler::BurnFuel, 0);
    assert_eq!(g.world.player.fuel, 0);
}
