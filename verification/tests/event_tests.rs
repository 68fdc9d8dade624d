use text_adventure::event::{
    decide_event, event_chance, Event, EventKind, EventType, VistDetails,
};
use text_adventure::vector::Vec2;

#[test]
fn chance_formula() {
    assert_eq!(event_chance(0), 20);
    assert_eq!(event_chance(1), 21);
    assert_eq!(event_chance(100), 120);
    assert_eq!(event_chance(235), 255);
    assert_eq!(event_chance(236), 255);
    assert_eq!(event_chance(255), 255);
}

#[test]
fn chance_is_monotone_and_saturates() {
    let mut prev: u8 = 0;
    for count in 0..=255u16 {
        let c = event_chance(count as u8);
        assert!(c >= prev);
        prev = c;
    }
    assert_eq!(event_chance(255), 255);
}

#[test]
fn forced_draw_scenario() {
    // A fresh record with an always-admitting draw first yields an item,
    // then the forced missing kind (an enemy), then nothing at all.
    let mut rec = VistDetails::new();
    assert_eq!(rec.count, 0);
    assert!(!rec.item_found && !rec.enemy_meet);

    let first = decide_event(&mut rec, 0, 0);
    assert_eq!(first, Some(EventKind::Item));
    assert!(rec.item_found && !rec.enemy_meet);

    let second = decide_event(&mut rec, 0, 0);
    assert_eq!(second, Some(EventKind::Enemy));
    assert!(rec.item_found && rec.enemy_meet);

    let third = decide_event(&mut rec, 0, 0);
    assert_eq!(third, None);
    assert!(rec.item_found && rec.enemy_meet);
}

#[test]
fn first_encounter_split() {
    // On a fresh record an admitted draw above the item threshold meets an
    // enemy; at or below it finds an item.
    let mut rec = VistDetails::new();
    assert_eq!(decide_event(&mut rec, 0, 21), Some(EventKind::Enemy));
    assert!(rec.enemy_meet && !rec.item_found);

    let mut rec2 = VistDetails::new();
    assert_eq!(decide_event(&mut rec2, 0, 20), Some(EventKind::Item));
    assert!(rec2.item_found && !rec2.enemy_meet);
}

#[test]
fn rejected_draw_changes_nothing() {
    let mut rec = VistDetails { count: 5, item_found: false, enemy_meet: false };
    // The threshold for five visits is 25; a draw above it admits nothing.
    assert_eq!(decide_event(&mut rec, 26, 0), None);
    assert_eq!(rec, VistDetails { count: 5, item_found: false, enemy_meet: false });
    // A draw at the threshold admits.
    assert_eq!(decide_event(&mut rec, 25, 0), Some(EventKind::Item));
}

#[test]
fn missing_kind_is_forced() {
    // Once an enemy was met, the next admitted event must be the item.
    let mut rec = VistDetails { count: 3, item_found: false, enemy_meet: true };
    assert_eq!(decide_event(&mut rec, 0, 255), Some(EventKind::Item));
    assert!(rec.item_found && rec.enemy_meet);
}

#[test]
fn move_resolves_at_most_once() {
    let mut ev = Event::new();
    assert!(!ev.in_progress());
    ev.player_moved(Vec2::new(1, 1));
    let _ = ev.get_event();
    assert!(ev.in_progress());
    // The same move never yields a second event.
    assert!(ev.get_event().is_none());
    assert!(ev.get_event().is_none());
}

#[test]
fn one_location_yields_each_kind_at_most_once() {
    let mut ev = Event::new();
    let pos = Vec2::new(4, 2);
    let mut items: u32 = 0;
    let mut enemies: u32 = 0;
    for _ in 0..2000 {
        ev.player_moved(pos);
        match ev.get_event() {
            Some(EventType::Item(_)) => items += 1,
            Some(EventType::Enemy(_)) => enemies += 1,
            None => (),
        }
    }
    assert!(items <= 1);
    assert!(enemies <= 1);
}

#[test]
fn locations_are_independent() {
    let mut ev = Event::new();
    let mut totals: u32 = 0;
    for x in 0..5 {
        let pos = Vec2::new(x, 0);
        let mut items: u32 = 0;
        let mut enemies: u32 = 0;
        for _ in 0..2000 {
            ev.player_moved(pos);
            match ev.get_event() {
                Some(EventType::Item(_)) => items += 1,
                Some(EventType::Enemy(_)) => enemies += 1,
                None => (),
            }
        }
        assert!(items <= 1);
        assert!(enemies <= 1);
        totals += items + enemies;
    }
    // With 2000 visits per location every event fires with overwhelming
    // probability.
    assert_eq!(totals, 10);
}
