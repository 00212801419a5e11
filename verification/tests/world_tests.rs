use core::ops::Range;

use riverraid::container::Container;
use riverraid::entities::{Location, Player};
use riverraid::events::WorldHandler;
use riverraid::restorable::Restorable;
use riverraid::world::World;

#[test]
fn restorable_override_and_restore() {
    let mut r: Restorable<u16> = Restorable::from_value(100);
    assert_eq!(r.value(), 100);
    assert_eq!(r.solid_value(), 100);
    r.value = 0;
    assert_eq!(r.value(), 0);
    assert_eq!(r.solid_value(), 100);
    r.restore();
    assert_eq!(r.value(), 100);
    let r2: Restorable<u16> = Restorable::new(5, 9);
    assert_eq!(r2.value(), 9);
    assert_eq!(r2.solid_value(), 5);
}

#[test]
fn container_bounds() {
    let c = Container::new(Range { start: 0, end: 10 }, Range { start: 0, end: 30 });
    assert_eq!(c.lines().end, 10);
    assert_eq!(c.columns().end, 30);
    assert!(c.contains(9, 29));
    assert!(!c.contains(10, 29));
    assert!(!c.contains(9, 30));
    assert!(c.contains_loc(&Location::new(29, 9)));
    assert!(!c.contains_loc(&Location::new(29, 10)));
    assert!(c.is_under(1));
    assert!(!c.is_under(0));
    assert!(c.is_upper(9));
    assert!(!c.is_upper(10));
    assert!(c.is_righter(1));
    assert!(!c.is_righter(0));
    assert!(!c.is_lefter(0));
    assert!(c.is_under_loc(&Location::new(0, 5)));
    assert!(c.is_upper_loc(&Location::new(0, 5)));
    assert!(c.is_righter_loc(&Location::new(5, 0)));
    assert!(!c.is_lefter_loc(&Location::new(5, 0)));
}

#[test]
fn player_starts_alive_and_empty_handed() {
    let p = Player::new((7, 3), 500);
    assert_eq!(p.location, Location::new(7, 3));
    assert_eq!(p.fuel, 500);
    assert_eq!(p.score, 0);
    assert_eq!(p.traveled, 0);
    assert!(p.bullets.is_empty());
}

#[test]
fn drawings_are_keyed_and_cleared() {
    let mut w = World::new(30, 10);
    let a = w.add_drawing("first".to_string());
    let b = w.add_drawing("second".to_string());
    assert!(a != b);
    assert!(w.has_drawing(a));
    assert!(w.has_drawing(b));
    w.clear_drawing(a);
    assert!(!w.has_drawing(a));
    assert!(w.has_drawing(b));
    assert_eq!(w.custom_drawings.len(), 1);
    assert_eq!(w.custom_drawings[0].message, "second");
    // Clearing an unknown key does nothing.
    w.clear_drawing(a);
    assert_eq!(w.custom_drawings.len(), 1);
}

#[test]
fn create_random_entities_spawns_on_the_top_line() {
    let mut w = World::new(30, 10);
    // Force both chances to certainty: every call spawns one of each.
    w.fuel_spawn_probability.value = 1000;
    w.enemy_spawn_probability.value = 1000;
    w.create_random_entities();
    assert_eq!(w.entities.len(), 2);
    for e in w.entities.iter() {
        assert_eq!(e.location.line, 0);
        assert!(e.location.column >= 10 && e.location.column < 20);
    }
    assert!(w.entities[0].entity_type.is_fuel());
    assert!(w.entities[1].entity_type.is_enemy());
    assert_eq!(w.entities[1].entity_type.as_enemy().unwrap().armor, 1);
    // And with both chances at zero nothing spawns.
    let mut w = World::new(30, 10);
    w.fuel_spawn_probability.value = 0;
    w.enemy_spawn_probability.value = 0;
    w.create_random_entities();
    assert_eq!(w.entities.len(), 0);
}

#[test]
fn burn_and_travel_counters() {
    let mut w = World::new(30, 10);
    w.run_handler(&WorldHandler::BurnFuel, 0);
    assert_eq!(w.player.fuel, 1699);
    w.run_handler(&WorldHandler::Travel, 0);
    w.run_handler(&WorldHandler::Travel, 0);
    assert_eq!(w.player.traveled, 2);
    w.run_handler(&WorldHandler::IncrementElapsedTime, 0);
    assert_eq!(w.elapsed_time, 1);
    w.run_handler(&WorldHandler::AddScore(7), 0);
    assert_eq!(w.player.score, 7);
    w.run_handler(&WorldHandler::LeaveAlone, 0);
    assert_eq!(w.player.score, 7);
}
