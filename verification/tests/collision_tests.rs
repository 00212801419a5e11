use riverraid::entities::{
    Bullet, DeathCause, Enemy, Entity, EntityStatus, EntityType, Fuel, Location, PlayerStatus,
};
use riverraid::world::World;

#[test]
fn location_hit_margins() {
    let a = Location::new(10, 4);
    let b = Location::new(10, 5);
    assert!(a.hit_with_margin(&b, 1, 0, 1, 0));
    assert!(!a.hit_with_margin(&Location::new(10, 6), 1, 0, 1, 0));
    assert!(!a.hit_with_margin(&Location::new(11, 5), 1, 0, 1, 0));
    assert!(a.hit(&Location::new(10, 4)));
    assert!(!a.hit(&b));
}

#[test]
fn location_moves_stop_at_borders() {
    let mut l = Location::new(0, 0);
    l.go_up();
    l.go_left();
    assert_eq!(l, Location::new(0, 0));
    l.go_down();
    l.go_right();
    assert_eq!(l, Location::new(1, 1));
    assert_eq!(l.up(), Location::new(1, 0));
    assert_eq!(l.down(), Location::new(1, 2));
    assert_eq!(l.left(), Location::new(0, 1));
    assert_eq!(l.right(), Location::new(2, 1));
    assert_eq!(Location::from_loc_tuple((3, 4)), Location::new(3, 4));
}

#[test]
fn entity_type_accessors() {
    let e = EntityType::Enemy(Enemy::new(2));
    let f = EntityType::Fuel(Fuel);
    assert!(e.is_enemy());
    assert!(!e.is_fuel());
    assert!(f.is_fuel());
    assert!(!f.is_enemy());
    assert_eq!(e.as_enemy().unwrap().armor, 2);
    assert!(e.as_fuel().is_none());
    assert!(f.as_fuel().is_some());
    assert!(f.as_enemy().is_none());
}

/// Collision margin scenario: an enemy at column 10, line 5 with armor 2 and
/// a bullet at column 10, line 4 within the (1, 0, 1, 0) margin. One pass
/// brings the armor to 1 and leaves the enemy alive; a second qualifying
/// pass makes it a corpse and scores 10; a third advances it to gone; the
/// next pass's cleanup purges it.
#[test]
fn collision_margin_scenario() {
    let mut w = World::new(30, 10);
    w.entities.push(Entity::new((10, 5), EntityType::Enemy(Enemy::new(2))));
    w.player.bullets.push(Bullet::new((10, 4), 5));

    w.update_entities_status();
    assert_eq!(w.entities.len(), 1);
    assert_eq!(w.entities[0].status, EntityStatus::Alive);
    assert_eq!(w.entities[0].entity_type.as_enemy().unwrap().armor, 1);
    assert_eq!(w.player.score, 0);

    w.update_entities_status();
    assert_eq!(w.entities[0].status, EntityStatus::DeadBody);
    assert_eq!(w.entities[0].entity_type.as_enemy().unwrap().armor, 0);
    assert_eq!(w.player.score, 10);

    w.update_entities_status();
    assert_eq!(w.entities[0].status, EntityStatus::Dead);
    assert_eq!(w.player.score, 10);

    w.update_entities_status();
    assert_eq!(w.entities.len(), 0);
    assert_eq!(w.player.score, 10);
}

#[test]
fn fuel_pickup_refuels_and_dies() {
    let mut w = World::new(30, 10);
    let at = (w.player.location.column, w.player.location.line);
    w.entities.push(Entity::new(at, EntityType::Fuel(Fuel)));
    let fuel_before = w.player.fuel;
    w.update_entities_status();
    assert_eq!(w.player.fuel, fuel_before + 200);
    assert_eq!(w.entities[0].status, EntityStatus::DeadBody);
    assert_eq!(w.player.status, PlayerStatus::Alive);
}

#[test]
fn enemy_contact_kills_player() {
    let mut w = World::new(30, 10);
    let at = (w.player.location.column, w.player.location.line);
    w.entities.push(Entity::new(at, EntityType::Enemy(Enemy::new(1))));
    w.update_entities_status();
    assert_eq!(w.player.status, PlayerStatus::Dead(DeathCause::Enemy));
}

#[test]
fn bullet_hit_on_fuel_scores_twenty() {
    let mut w = World::new(30, 10);
    w.entities.push(Entity::new((12, 5), EntityType::Fuel(Fuel)));
    w.player.bullets.push(Bullet::new((12, 6), 5));
    w.update_entities_status();
    assert_eq!(w.entities[0].status, EntityStatus::DeadBody);
    assert_eq!(w.player.score, 20);
}

/// Fuel/ground death scenario: an empty tank kills with cause `Fuel`; a
/// column outside the river borders kills with cause `Ground` even with
/// fuel remaining.
#[test]
fn fuel_and_ground_death_scenario() {
    let mut w = World::new(30, 10);
    // Player starts mid-river; with fuel 0 the next check kills with Fuel.
    w.player.fuel = 0;
    w.update_player_status();
    assert_eq!(w.player.status, PlayerStatus::Dead(DeathCause::Fuel));

    let mut w = World::new(30, 10);
    // Column 0 lies outside the river channel; fuel remains.
    w.player.location = Location::new(0, w.player.location.line);
    w.update_player_status();
    assert_eq!(w.player.status, PlayerStatus::Dead(DeathCause::Ground));

    let mut w = World::new(30, 10);
    w.update_player_status();
    assert_eq!(w.player.status, PlayerStatus::Alive);
}

#[test]
fn move_entities_scrolls_down_and_culls() {
    let mut w = World::new(30, 10);
    w.entities.push(Entity::new((12, 0), EntityType::Fuel(Fuel)));
    w.entities.push(Entity::new((13, 9), EntityType::Enemy(Enemy::new(1))));
    w.move_entities();
    // The top entity moved one line down; the bottom one scrolled out.
    assert_eq!(w.entities.len(), 1);
    assert_eq!(w.entities[0].location, Location::new(12, 1));
}

#[test]
fn move_bullets_rises_and_culls() {
    let mut w = World::new(30, 10);
    // Rises two lines and burns one energy.
    w.player.bullets.push(Bullet::new((15, 8), 3));
    // Spent: culled.
    w.player.bullets.push(Bullet::new((15, 8), 0));
    // Too high: culled.
    w.player.bullets.push(Bullet::new((15, 1), 3));
    // Leaves the river channel: culled (column 5 is outside 10..20).
    w.player.bullets.push(Bullet::new((5, 8), 3));
    w.move_bullets();
    assert_eq!(w.player.bullets.len(), 1);
    assert_eq!(w.player.bullets[0].location, Location::new(15, 6));
    assert_eq!(w.player.bullets[0].energy, 2);
}
