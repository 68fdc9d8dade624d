use text_adventure::vector::Vec2;

#[test]
fn basic_math() {
    let v1 = Vec2 { x: -3, y: 4 };
    let v2 = Vec2 { x: 1, y: -2 };
    let v3 = Vec2 { x: -5, y: 5 };
    let v4 = Vec2 { x: -5, y: 5 };

    assert_eq!(v1.add(v2), Vec2 { x: -2, y: 2 });
    assert_eq!(v3.sub(v4), Vec2 { x: 0, y: 0 });
}

#[test]
fn index_round_trip() {
    let v = Vec2::new(3, 2);
    assert_eq!(v.to_index(8), 19);
    assert_eq!(Vec2::from_index(19, 8), v);
}

#[test]
fn directions() {
    assert_eq!(Vec2::zero(), Vec2 { x: 0, y: 0 });
    assert_eq!(Vec2::up(), Vec2 { x: 0, y: -1 });
    assert_eq!(Vec2::down(), Vec2 { x: 0, y: 1 });
    assert_eq!(Vec2::left(), Vec2 { x: -1, y: 0 });
    assert_eq!(Vec2::right(), Vec2 { x: 1, y: 0 });
    assert_eq!(Vec2::new(2, 7).add(Vec2::up()), Vec2 { x: 2, y: 6 });
}
