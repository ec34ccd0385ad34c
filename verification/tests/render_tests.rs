use cube_world::frame::next_tick;
use cube_world::render::{mesh_vertex_count, position_layout, texcoord_layout, vertex_stride, AttributeLayout};

#[test]
fn interleaved_vertex_layout() {
    assert_eq!(vertex_stride(), 20);
    assert_eq!(position_layout(), AttributeLayout { size: 3, stride: 20, offset: 0 });
    assert_eq!(texcoord_layout(), AttributeLayout { size: 2, stride: 20, offset: 12 });
}

#[test]
fn cube_mesh_has_36_vertices() {
    assert_eq!(mesh_vertex_count(180), 36);
    assert_eq!(mesh_vertex_count(0), 0);
    assert_eq!(mesh_vertex_count(15), 3);
}

#[test]
fn ticks_count_up() {
    assert_eq!(next_tick(0), 1);
    assert_eq!(next_tick(41), 42);
    assert_eq!(next_tick(u128::MAX - 1), u128::MAX);
}
