use layout_cache::cache::NodeCache;
use layout_cache::entity::Entity;
use layout_cache::geometry::{GeometryChanged, GeometryFlag, Rect, Size, Space};

fn bits(v: f32) -> u32 {
    v.to_bits()
}

fn float(b: u32) -> f32 {
    f32::from_bits(b)
}

#[test]
fn unregistered_tolerant_reads_default() {
    let cache = NodeCache::new();
    let e = Entity::new(41);
    assert_eq!(float(cache.posx(e)), 0.0);
    assert_eq!(float(cache.posy(e)), 0.0);
    assert_eq!(float(cache.width(e)), 0.0);
    assert_eq!(float(cache.height(e)), 0.0);
    assert_eq!(float(cache.left(e)), 0.0);
    assert_eq!(float(cache.right(e)), 0.0);
    assert_eq!(float(cache.top(e)), 0.0);
    assert_eq!(float(cache.bottom(e)), 0.0);
    assert_eq!(float(cache.new_width(e)), 0.0);
    assert_eq!(float(cache.new_height(e)), 0.0);
    assert!(cache.visible(e));
    let g = cache.geometry_changed(e);
    assert_eq!(g, GeometryChanged::new());
    assert!(!g.get(GeometryFlag::PosXChanged));
    assert!(!g.get(GeometryFlag::PosYChanged));
    assert!(!g.get(GeometryFlag::WidthChanged));
    assert!(!g.get(GeometryFlag::HeightChanged));
    assert!(!g.get(GeometryFlag::ChangePosX));
    assert!(!g.get(GeometryFlag::ChangePosY));
    assert!(!g.get(GeometryFlag::ChangeWidth));
    assert!(!g.get(GeometryFlag::ChangeHeight));
}

#[test]
fn register_installs_default_row() {
    let mut cache = NodeCache::new();
    let e = Entity::new(3);
    cache.add(e);
    assert_eq!(float(cache.child_width_max(e)), 0.0);
    assert_eq!(float(cache.child_height_max(e)), 0.0);
    assert_eq!(float(cache.child_width_sum(e)), 0.0);
    assert_eq!(float(cache.child_height_sum(e)), 0.0);
    assert_eq!(float(cache.grid_row_max(e)), 0.0);
    assert_eq!(float(cache.grid_col_max(e)), 0.0);
    assert_eq!(float(cache.horizontal_free_space(e)), 0.0);
    assert_eq!(float(cache.vertical_free_space(e)), 0.0);
    assert_eq!(float(cache.horizontal_stretch_sum(e)), 0.0);
    assert_eq!(float(cache.vertical_stretch_sum(e)), 0.0);
    assert!(!cache.stack_first_child(e));
    assert!(!cache.stack_last_child(e));
    assert!(cache.visible(e));
    assert_eq!(cache.geometry_changed(e), GeometryChanged::new());
    assert_eq!(float(cache.posx(e)), 0.0);
    assert_eq!(float(cache.posy(e)), 0.0);
    assert_eq!(float(cache.width(e)), 0.0);
    assert_eq!(float(cache.height(e)), 0.0);
    assert_eq!(float(cache.left(e)), 0.0);
    assert_eq!(float(cache.right(e)), 0.0);
    assert_eq!(float(cache.top(e)), 0.0);
    assert_eq!(float(cache.bottom(e)), 0.0);
    assert_eq!(float(cache.new_width(e)), 0.0);
    assert_eq!(float(cache.new_height(e)), 0.0);
}

#[test]
fn round_trip_rect_fields() {
    let mut cache = NodeCache::new();
    let e = Entity::new(7);
    cache.add(e);
    cache.set_posx(e, bits(-12.25));
    cache.set_posy(e, bits(0.0));
    cache.set_width(e, bits(3.0e38));
    cache.set_height(e, bits(-0.0));
    assert_eq!(float(cache.posx(e)), -12.25);
    assert_eq!(float(cache.posy(e)), 0.0);
    assert_eq!(float(cache.width(e)), 3.0e38);
    assert_eq!(cache.height(e), bits(-0.0));
    assert!(float(cache.height(e)).is_sign_negative());
}

#[test]
fn round_trip_space_fields() {
    let mut cache = NodeCache::new();
    let e = Entity::new(8);
    cache.add(e);
    cache.set_left(e, bits(1.5));
    cache.set_right(e, bits(-2.5));
    cache.set_top(e, bits(3.5));
    cache.set_bottom(e, bits(-4.5));
    assert_eq!(float(cache.left(e)), 1.5);
    assert_eq!(float(cache.right(e)), -2.5);
    assert_eq!(float(cache.top(e)), 3.5);
    assert_eq!(float(cache.bottom(e)), -4.5);
}

#[test]
fn round_trip_size_fields() {
    let mut cache = NodeCache::new();
    let e = Entity::new(9);
    cache.add(e);
    cache.set_new_width(e, bits(640.0));
    cache.set_new_height(e, bits(480.0));
    assert_eq!(float(cache.new_width(e)), 640.0);
    assert_eq!(float(cache.new_height(e)), 480.0);
}

#[test]
fn round_trip_accumulators() {
    let mut cache = NodeCache::new();
    let e = Entity::new(10);
    cache.add(e);
    cache.set_child_width_max(e, bits(101.0));
    cache.set_child_height_max(e, bits(102.0));
    cache.set_child_width_sum(e, bits(103.0));
    cache.set_child_height_sum(e, bits(104.0));
    cache.set_grid_row_max(e, bits(105.0));
    cache.set_grid_col_max(e, bits(106.0));
    cache.set_horizontal_free_space(e, bits(107.0));
    cache.set_vertical_free_space(e, bits(108.0));
    cache.set_horizontal_stretch_sum(e, bits(109.0));
    cache.set_vertical_stretch_sum(e, bits(110.0));
    assert_eq!(float(cache.child_width_max(e)), 101.0);
    assert_eq!(float(cache.child_height_max(e)), 102.0);
    assert_eq!(float(cache.child_width_sum(e)), 103.0);
    assert_eq!(float(cache.child_height_sum(e)), 104.0);
    assert_eq!(float(cache.grid_row_max(e)), 105.0);
    assert_eq!(float(cache.grid_col_max(e)), 106.0);
    assert_eq!(float(cache.horizontal_free_space(e)), 107.0);
    assert_eq!(float(cache.vertical_free_space(e)), 108.0);
    assert_eq!(float(cache.horizontal_stretch_sum(e)), 109.0);
    assert_eq!(float(cache.vertical_stretch_sum(e)), 110.0);
}

#[test]
fn round_trip_bool_fields() {
    let mut cache = NodeCache::new();
    let e = Entity::new(11);
    cache.add(e);
    cache.set_stack_first_child(e, true);
    cache.set_stack_last_child(e, true);
    cache.set_visible(e, false);
    assert!(cache.stack_first_child(e));
    assert!(cache.stack_last_child(e));
    assert!(!cache.visible(e));
    cache.set_stack_first_child(e, false);
    cache.set_stack_last_child(e, false);
    cache.set_visible(e, true);
    assert!(!cache.stack_first_child(e));
    assert!(!cache.stack_last_child(e));
    assert!(cache.visible(e));
}

#[test]
fn round_trip_preserves_nan_bits() {
    let mut cache = NodeCache::new();
    let e = Entity::new(12);
    cache.add(e);
    let nan_bits = f32::NAN.to_bits() | 0x0007_0001;
    cache.set_width(e, nan_bits);
    assert_eq!(cache.width(e), nan_bits);
    assert!(float(cache.width(e)).is_nan());
}

#[test]
fn reregister_restores_defaults() {
    let mut cache = NodeCache::new();
    let e = Entity::new(13);
    cache.add(e);
    cache.set_width(e, bits(55.0));
    cache.set_left(e, bits(5.0));
    cache.set_child_width_sum(e, bits(44.0));
    cache.set_stack_first_child(e, true);
    cache.set_visible(e, false);
    cache.set_geo_changed(e, GeometryFlag::WidthChanged, true);
    cache.add(e);
    assert_eq!(float(cache.width(e)), 0.0);
    assert_eq!(float(cache.left(e)), 0.0);
    assert_eq!(float(cache.child_width_sum(e)), 0.0);
    assert!(!cache.stack_first_child(e));
    assert!(cache.visible(e));
    assert_eq!(cache.geometry_changed(e), GeometryChanged::new());
}

#[test]
fn geometry_flags_are_independent() {
    let mut cache = NodeCache::new();
    let e = Entity::new(14);
    cache.add(e);
    cache.set_geo_changed(e, GeometryFlag::PosXChanged, true);
    cache.set_geo_changed(e, GeometryFlag::WidthChanged, true);
    cache.set_geo_changed(e, GeometryFlag::HeightChanged, true);
    let g = cache.geometry_changed(e);
    assert!(g.get(GeometryFlag::PosXChanged));
    assert!(g.get(GeometryFlag::WidthChanged));
    assert!(g.get(GeometryFlag::HeightChanged));
    assert!(!g.get(GeometryFlag::PosYChanged));
    cache.set_geo_changed(e, GeometryFlag::WidthChanged, false);
    let g = cache.geometry_changed(e);
    assert!(!g.get(GeometryFlag::WidthChanged));
    assert!(g.get(GeometryFlag::PosXChanged));
    assert!(g.get(GeometryFlag::HeightChanged));
    assert!(!g.get(GeometryFlag::PosYChanged));
}

#[test]
fn writes_are_isolated_between_entities() {
    let mut cache = NodeCache::new();
    let e1 = Entity::new(1);
    let e2 = Entity::new(2);
    cache.add(e1);
    cache.add(e2);
    cache.set_width(e1, bits(100.0));
    cache.set_posx(e1, bits(-1.0));
    cache.set_child_width_sum(e1, bits(9.0));
    cache.set_stack_last_child(e1, true);
    cache.set_visible(e1, false);
    cache.set_geo_changed(e1, GeometryFlag::PosXChanged, true);
    cache.set_layer(e1, 5);
    assert_eq!(float(cache.width(e2)), 0.0);
    assert_eq!(float(cache.posx(e2)), 0.0);
    assert_eq!(float(cache.child_width_sum(e2)), 0.0);
    assert!(!cache.stack_last_child(e2));
    assert!(cache.visible(e2));
    assert_eq!(cache.geometry_changed(e2), GeometryChanged::new());
    assert_eq!(cache.layer(e2), None);
    assert_eq!(float(cache.width(e1)), 100.0);
}

#[test]
fn scenario_width_posx_and_flag() {
    let mut cache = NodeCache::new();
    let a = Entity::new(100);
    cache.add(a);
    cache.set_width(a, bits(120.0));
    cache.set_posx(a, bits(10.0));
    cache.set_geo_changed(a, GeometryFlag::WidthChanged, true);
    assert_eq!(float(cache.width(a)), 120.0);
    assert_eq!(float(cache.posx(a)), 10.0);
    let g = cache.geometry_changed(a);
    assert!(g.get(GeometryFlag::WidthChanged));
    assert!(!g.get(GeometryFlag::PosXChanged));
    assert!(!g.get(GeometryFlag::PosYChanged));
    assert!(!g.get(GeometryFlag::HeightChanged));
    assert!(!g.get(GeometryFlag::ChangePosX));
    assert!(!g.get(GeometryFlag::ChangePosY));
    assert!(!g.get(GeometryFlag::ChangeWidth));
    assert!(!g.get(GeometryFlag::ChangeHeight));
}

#[test]
fn scenario_unregistered_width_is_zero() {
    let cache = NodeCache::new();
    let b = Entity::new(200);
    assert_eq!(float(cache.width(b)), 0.0);
}

#[test]
fn scenario_reregister_after_writes() {
    let mut cache = NodeCache::new();
    let c = Entity::new(300);
    cache.add(c);
    cache.set_width(c, bits(120.0));
    cache.add(c);
    assert_eq!(float(cache.width(c)), 0.0);
}

#[test]
fn tolerant_writes_to_unregistered_are_noops() {
    let mut cache = NodeCache::new();
    let e = Entity::new(15);
    cache.set_width(e, bits(9.0));
    cache.set_posy(e, bits(9.0));
    cache.set_bottom(e, bits(9.0));
    cache.set_new_height(e, bits(9.0));
    cache.set_geo_changed(e, GeometryFlag::HeightChanged, true);
    cache.add(e);
    assert_eq!(float(cache.width(e)), 0.0);
    assert_eq!(float(cache.posy(e)), 0.0);
    assert_eq!(float(cache.bottom(e)), 0.0);
    assert_eq!(float(cache.new_height(e)), 0.0);
    assert_eq!(cache.geometry_changed(e), GeometryChanged::new());
}

#[test]
fn layers_are_independent_of_registration() {
    let mut cache = NodeCache::new();
    let e = Entity::new(16);
    assert_eq!(cache.layer(e), None);
    cache.set_layer(e, 3);
    assert_eq!(cache.layer(e), Some(3));
    cache.add(e);
    assert_eq!(cache.layer(e), Some(3));
    cache.set_layer(e, 8);
    assert_eq!(cache.layer(e), Some(8));
}

#[test]
fn remove_discards_row_and_layer() {
    let mut cache = NodeCache::new();
    let e = Entity::new(17);
    cache.add(e);
    cache.set_width(e, bits(77.0));
    cache.set_visible(e, false);
    cache.set_layer(e, 2);
    cache.remove(e);
    assert_eq!(float(cache.width(e)), 0.0);
    assert!(cache.visible(e));
    assert_eq!(cache.layer(e), None);
}

#[test]
fn value_type_defaults_are_zeroed() {
    let r = Rect::default();
    assert_eq!(float(r.posx), 0.0);
    assert_eq!(float(r.posy), 0.0);
    assert_eq!(float(r.width), 0.0);
    assert_eq!(float(r.height), 0.0);
    let s = Space::default();
    assert_eq!(float(s.left), 0.0);
    assert_eq!(float(s.right), 0.0);
    assert_eq!(float(s.top), 0.0);
    assert_eq!(float(s.bottom), 0.0);
    let z = Size::default();
    assert_eq!(float(z.width), 0.0);
    assert_eq!(float(z.height), 0.0);
    assert_eq!(GeometryChanged::default(), GeometryChanged::new());
    let cache = NodeCache::default();
    assert_eq!(float(cache.width(Entity::new(0))), 0.0);
}

#[test]
fn geometry_changed_set_and_get() {
    let mut g = GeometryChanged::new();
    g.set(GeometryFlag::ChangeWidth, true);
    assert!(g.get(GeometryFlag::ChangeWidth));
    assert!(!g.get(GeometryFlag::WidthChanged));
    g.set(GeometryFlag::ChangeWidth, false);
    assert_eq!(g, GeometryChanged::new());
}
