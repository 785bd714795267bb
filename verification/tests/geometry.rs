use native_bot::tiles::{is_aka, tile_dim};
use native_bot::Geometry;

const CHANNELS: usize = 64;

#[test]
fn geometry_values() {
    let g4 = Geometry::for_players(4, CHANNELS);
    assert_eq!(g4.tile_dim, 34);
    assert_eq!(g4.action_space, 82);
    let g3 = Geometry::for_players(3, CHANNELS);
    assert_eq!(g3.tile_dim, 27);
    assert_eq!(g3.action_space, 60);
    assert!(g4.channels > 0 && g3.channels > 0);
    assert_eq!(g3.num_players, 3);
}

#[test]
fn tile_conventions() {
    assert_eq!(tile_dim(4), 34);
    assert_eq!(tile_dim(3), 27);
    let reds: Vec<u8> = (0..=255u8).filter(|&t| is_aka(t)).collect();
    assert_eq!(reds, vec![16, 52, 88]);
}
