use raytracer::scene::{closest_hit, order_key};

#[test]
fn empty_scene_has_no_hit() {
    let keys: Vec<Option<u32>> = Vec::new();
    assert_eq!(closest_hit(&keys), None);
}

#[test]
fn all_missed_gives_no_hit() {
    let keys = vec![None, None, None];
    assert_eq!(closest_hit(&keys), None);
}

#[test]
fn single_hit_is_chosen() {
    let keys = vec![None, Some(42), None];
    assert_eq!(closest_hit(&keys), Some(1));
}

#[test]
fn smallest_key_wins() {
    let keys = vec![Some(9), None, Some(4), Some(7)];
    assert_eq!(closest_hit(&keys), Some(2));
}

#[test]
fn equal_keys_keep_the_first_found() {
    let keys = vec![None, Some(5), Some(3), Some(3)];
    assert_eq!(closest_hit(&keys), Some(2));
}

#[test]
fn extreme_keys() {
    let keys = vec![Some(u32::MAX), Some(0), Some(0)];
    assert_eq!(closest_hit(&keys), Some(1));
    let keys = vec![Some(u32::MAX)];
    assert_eq!(closest_hit(&keys), Some(0));
}

#[test]
fn keys_from_ray_parameters_order_hits() {
    let ts: Vec<f32> = vec![100.25, 0.5, 0.0015, 3.0];
    let keys: Vec<Option<u32>> = ts.iter().map(|t| Some(order_key(t.to_bits()))).collect();
    assert_eq!(closest_hit(&keys), Some(2));
}

#[test]
fn both_zeros_share_a_key() {
    assert_eq!(order_key(0.0f32.to_bits()), 0x8000_0000);
    assert_eq!(order_key((-0.0f32).to_bits()), 0x8000_0000);
}

#[test]
fn keys_follow_values() {
    let values: Vec<f32> = vec![
        f32::NEG_INFINITY,
        f32::MIN,
        -1.0,
        -0.5,
        -f32::MIN_POSITIVE,
        0.0,
        f32::MIN_POSITIVE,
        0.001,
        0.5,
        1.0,
        f32::MAX,
        f32::INFINITY,
    ];
    for w in values.windows(2) {
        assert!(order_key(w[0].to_bits()) < order_key(w[1].to_bits()));
    }
    assert_eq!(order_key(f32::NEG_INFINITY.to_bits()), 0x0080_0000);
    assert_eq!(order_key(f32::INFINITY.to_bits()), 0xff80_0000);
    assert_eq!(order_key(1.0f32.to_bits()), 0x8000_0000 + 0x3f80_0000);
}

#[test]
fn closest_of_mixed_sign_parameters() {
    let ts: Vec<Option<f32>> = vec![Some(2.0), None, Some(-3.0), Some(0.25)];
    let keys: Vec<Option<u32>> = ts.iter().map(|t| t.map(|t| order_key(t.to_bits()))).collect();
    assert_eq!(closest_hit(&keys), Some(2));
}
