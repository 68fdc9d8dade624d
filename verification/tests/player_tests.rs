use text_adventure::enemy::Enemy;
use text_adventure::item::{Item, Location};
use text_adventure::player::Player;
use text_adventure::ui::{EngineParams, EventWindow, Size};
use text_adventure::vector::Vec2;

fn test_item(health: i8, defense: i8, speed: i8) -> Item {
    Item {
        location: Location::Head,
        health_mod: health,
        mana_mod: 0,
        attack_mod: 0,
        defense_mod: defense,
        strength_mod: 0,
        dexterity_mod: 0,
        intelligence_mod: 0,
        speed_mod: speed,
    }
}

#[test]
fn new_player_defaults() {
    let p = Player::new("Tess".to_string(), 10, 8, 5, 4, 7, 6);
    assert_eq!(p.name(), "Tess");
    assert_eq!(p.position(), Vec2::new(0, 0));
    assert_eq!(p.level(), 0);
    assert_eq!(p.current_xp(), 0);
    assert_eq!(p.next_level_xp(), 0);
    assert_eq!(p.current_health(), 10);
    assert_eq!(p.current_mana(), 8);
    assert_eq!(p.speed(), 6);
    assert_eq!(p.remaining_moves(), 6);
    assert!(p.head().is_none());
    assert!(p.inventory().is_empty());
}

#[test]
fn bare_stats_equal_bases() {
    let p = Player::new("A".to_string(), 10, 8, 5, 4, 7, 6);
    assert_eq!(p.max_health(), 10);
    assert_eq!(p.max_mana(), 8);
    assert_eq!(p.attack(), 5);
    assert_eq!(p.strenght(), 5);
    assert_eq!(p.defense(), 4);
    assert_eq!(p.dexterity(), 4);
    assert_eq!(p.intelligence(), 7);
    assert_eq!(p.max_moves(), 6);
}

#[test]
fn inventory_add_and_remove() {
    let mut p = Player::new("A".to_string(), 10, 8, 5, 4, 7, 6);
    p.add_to_inventory(test_item(1, 0, 0));
    p.add_to_inventory(test_item(2, 0, 0));
    assert_eq!(p.inventory().len(), 2);
    p.remove_from_inventory(0);
    assert_eq!(p.inventory().len(), 1);
    assert_eq!(p.inventory()[0].health_mod, 2);
    // An out-of-range index is ignored.
    p.remove_from_inventory(5);
    assert_eq!(p.inventory().len(), 1);
}

#[test]
fn hit_by_subtracts_beyond_defense() {
    let mut p = Player::new("A".to_string(), 30, 8, 5, 4, 7, 6);
    // Defense 4 absorbs a weak hit entirely.
    p.hit_by(4);
    assert_eq!(p.current_health(), 30);
    // A hit of 10 against defense 4 costs 6 health.
    p.hit_by(10);
    assert_eq!(p.current_health(), 24);
    // Health bottoms out at zero.
    p.hit_by(200);
    assert_eq!(p.current_health(), 0);
    assert!(p.is_dead());
}

#[test]
fn movement_updates_position() {
    let mut p = Player::new("A".to_string(), 10, 8, 5, 4, 7, 6);
    p.set_position(Vec2::new(3, 2));
    assert_eq!(p.position(), Vec2::new(3, 2));
    p.move_vec(Vec2::up());
    assert_eq!(p.position(), Vec2::new(3, 1));
    p.move_vec(Vec2::right());
    assert_eq!(p.position(), Vec2::new(4, 1));
}

#[test]
fn turn_refills_moves_from_speed_stat() {
    let mut p = Player::new("A".to_string(), 10, 8, 5, 4, 7, 6);
    p.hit_by(10);
    p.turn();
    assert_eq!(p.remaining_moves(), 6);
}

#[test]
fn enemy_rolls_within_ranges() {
    for _ in 0..50 {
        let e = Enemy::new();
        assert!((5..=15).contains(&e.health()));
        assert!((1..=5).contains(&e.attack()));
        assert!(e.defense() <= 5);
        assert!(!e.is_dead());
    }
}

#[test]
fn enemy_hit_by_subtracts_beyond_defense() {
    let mut e = Enemy::new();
    let health = e.health();
    let defense = e.defense();
    e.hit_by(defense);
    assert_eq!(e.health(), health);
    e.hit_by(defense + 2);
    assert_eq!(e.health(), health - 2);
    e.hit_by(255);
    assert!(e.is_dead());
}

#[test]
fn item_rolls_within_ranges() {
    for _ in 0..50 {
        let item = Item::new();
        assert!(matches!(item.location, Location::Head));
        for m in [
            item.health_mod,
            item.mana_mod,
            item.attack_mod,
            item.defense_mod,
            item.strength_mod,
            item.dexterity_mod,
            item.intelligence_mod,
            item.speed_mod,
        ] {
            assert!((-3..=3).contains(&m));
        }
    }
}

#[test]
fn parameter_draws() {
    // With budget left and a willing roll, the drawn value is taken and a
    // positive one spends budget.
    let mut budget: u8 = 2;
    assert_eq!(Item::parameter_from_draws(true, 3, &mut budget), 3);
    assert_eq!(budget, 1);
    // A non-positive value spends nothing.
    assert_eq!(Item::parameter_from_draws(true, -2, &mut budget), -2);
    assert_eq!(budget, 1);
    // An unwilling roll yields zero.
    assert_eq!(Item::parameter_from_draws(false, 3, &mut budget), 0);
    assert_eq!(budget, 1);
    // An empty budget yields zero whatever the draws say.
    let mut empty: u8 = 0;
    assert_eq!(Item::parameter_from_draws(true, 3, &mut empty), 0);
    assert_eq!(empty, 0);
}

#[test]
fn engine_params_clamp_to_minima() {
    let p = EngineParams::new(10, 10, 1);
    assert_eq!(p.width(), 40);
    assert_eq!(p.height(), 20);
    assert_eq!(p.fps(), 4);
    let q = EngineParams::new(80, 40, 10);
    assert_eq!(q.width(), 80);
    assert_eq!(q.height(), 40);
    assert_eq!(q.fps(), 10);
}

#[test]
fn event_window_selection_wraps() {
    let options = vec!["Fight".to_string(), "Ignore".to_string(), "Flee".to_string()];
    let mut w = EventWindow::new(Size::new(50, 5), "an enemy".to_string(), "You meet".to_string(), options);
    assert_eq!(w.selected(), 0);
    assert_eq!(w.title(), "You meet");
    assert_eq!(w.contents(), "an enemy");
    assert_eq!(w.options().len(), 3);
    w.handle_input(false, true);
    assert_eq!(w.selected(), 1);
    w.handle_input(false, true);
    assert_eq!(w.selected(), 2);
    w.handle_input(false, true);
    assert_eq!(w.selected(), 0);
    w.handle_input(true, false);
    assert_eq!(w.selected(), 2);
    w.handle_input(false, false);
    assert_eq!(w.selected(), 2);
}
