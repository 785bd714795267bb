//! Tile-id conventions of the 136-tile encoding (four copies of each of the
//! 34 tile types; tile type = tile id / 4).

use vstd::prelude::*;

verus! {

/// The red fives: `5mr` (16), `5pr` (52) and `5sr` (88).
pub open spec fn spec_is_aka(tile: u8) -> bool {
    tile == 16 || tile == 52 || tile == 88
}

/// Whether `tile` is one of the three red fives.
pub fn is_aka(tile: u8) -> (r: bool)
    ensures
        r == spec_is_aka(tile),
        r == (tile == 16 || tile == 52 || tile == 88),
{
    tile == 16 || tile == 52 || tile == 88
}

/// Number of tile types in play: 34 for 4-player, 27 for 3-player (sanma
/// drops the 2m..8m manzu).
pub open spec fn spec_tile_dim(num_players: u8) -> usize {
    if num_players == 3 { 27 } else { 34 }
}

/// Tile-type dimension for the given player count.
pub fn tile_dim(num_players: u8) -> (d: usize)
    ensures
        d == spec_tile_dim(num_players),
        num_players == 3 ==> d == 27,
        num_players != 3 ==> d == 34,
{
    if num_players == 3 {
        27
    } else {
        34
    }
}

} // verus!
