use cube_world::world::World;

#[test]
fn new_world_is_empty() {
    let w: World<(i32, i32)> = World::new();
    assert_eq!(w.len(), 0);
    assert!(w.cubes().is_empty());
}

#[test]
fn spawned_cubes_come_after_existing_ones() {
    let mut w = World::from_cubes(vec![(0.0f32, 2.0f32, 0.0f32)]);
    assert_eq!(w.len(), 1);
    w.spawn_cube((1.0, 0.0, -3.0));
    w.spawn_cube((5.0, 1.0, -2.0));
    assert_eq!(w.len(), 3);
    assert_eq!(
        w.cubes(),
        &vec![(0.0, 2.0, 0.0), (1.0, 0.0, -3.0), (5.0, 1.0, -2.0)]
    );
}

#[test]
fn equal_cubes_are_all_kept() {
    let mut w = World::new();
    w.spawn_cube(7u8);
    w.spawn_cube(7u8);
    assert_eq!(w.cubes(), &vec![7u8, 7u8]);
}
