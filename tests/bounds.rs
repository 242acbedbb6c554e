use mesh_viewer::bounds::{coord_bits, coord_key, AABB};

fn key3(p: [f32; 3]) -> [i32; 3] {
    [coord_key(p[0].to_bits()), coord_key(p[1].to_bits()), coord_key(p[2].to_bits())]
}

fn bits3(p: [f32; 3]) -> [u32; 3] {
    [p[0].to_bits(), p[1].to_bits(), p[2].to_bits()]
}

fn value(key: i32) -> f32 {
    f32::from_bits(coord_bits(key))
}

#[test]
fn keys_follow_the_number_line() {
    let values = [-1.0e30f32, -2.0, -0.5, -1.0e-30, 0.0, 1.0e-30, 0.5, 2.0, 1.0e30];
    for w in values.windows(2) {
        assert!(coord_key(w[0].to_bits()) < coord_key(w[1].to_bits()));
    }
    assert_eq!(coord_key(0.0f32.to_bits()), 0);
    assert_eq!(coord_key((-0.0f32).to_bits()), -1);
    assert_eq!(coord_key(1.0f32.to_bits()), 0x3f80_0000);
    assert_eq!(coord_key((-1.0f32).to_bits()), -1 - 0x3f80_0000);
}

#[test]
fn keys_round_trip() {
    for v in [-3.25f32, -0.0, 0.0, 7.5, f32::MAX, -f32::MAX, f32::MIN_POSITIVE] {
        assert_eq!(coord_bits(coord_key(v.to_bits())), v.to_bits());
    }
    for k in [i32::MIN, -1, 0, 1, i32::MAX] {
        assert_eq!(coord_key(coord_bits(k)), k);
    }
}

#[test]
fn empty_box_grows_to_first_point() {
    let mut b = AABB::empty();
    assert_eq!(b.min, [i32::MAX; 3]);
    assert_eq!(b.max, [i32::MIN; 3]);
    b.union(&bits3([1.0, -2.0, 3.0]));
    assert_eq!(b.min, key3([1.0, -2.0, 3.0]));
    assert_eq!(b.max, key3([1.0, -2.0, 3.0]));
}

#[test]
fn union_gives_tightest_box() {
    let points = vec![
        bits3([0.0, 0.5, -2.0]),
        bits3([0.5, -0.5, -2.0]),
        bits3([-0.5, -0.5, -2.0]),
        bits3([0.25, 4.0, -7.5]),
    ];
    let mut b = AABB::empty();
    b.union_all(&points);
    let min: Vec<f32> = b.min.iter().map(|k| value(*k)).collect();
    let max: Vec<f32> = b.max.iter().map(|k| value(*k)).collect();
    assert_eq!(min, vec![-0.5, -0.5, -7.5]);
    assert_eq!(max, vec![0.5, 4.0, -2.0]);
}

#[test]
fn union_one_by_one_matches_union_all() {
    let points = vec![bits3([3.0, 1.0, -1.0]), bits3([-3.0, 2.0, 1.0]), bits3([0.0, -9.0, 0.5])];
    let mut a = AABB::empty();
    for p in points.iter() {
        a.union(p);
    }
    let mut b = AABB::empty();
    b.union_all(&points);
    assert_eq!(a, b);
    assert_eq!(a.min, key3([-3.0, -9.0, -1.0]));
    assert_eq!(a.max, key3([3.0, 2.0, 1.0]));
}

#[test]
fn union_keeps_points_already_inside() {
    let mut b = AABB::empty();
    b.union_all(&vec![bits3([-1.0, -1.0, -1.0]), bits3([1.0, 1.0, 1.0])]);
    let before = b;
    b.union(&bits3([0.0, 0.5, -0.5]));
    assert_eq!(b, before);
}

#[test]
fn union_of_nothing_leaves_box() {
    let mut b = AABB::empty();
    b.union_all(&Vec::new());
    assert_eq!(b, AABB::empty());
}
