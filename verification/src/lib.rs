//! A built-in mahjong bot's decision layer: action indexing and legal masks
//! over the engine's canonical action ids (`action_codec`), ranking of legal
//! moves by the model's scores (`ranking`), weighted discard sampling and
//! its generator (`selection`), tile-id conventions (`tiles`) and the bot's
//! configuration (`config`).

pub mod action_codec;
mod by_id;
pub mod config;
pub mod ranking;
pub mod selection;
pub mod tiles;

use vstd::prelude::*;

use crate::action_codec::action_space;
use crate::action_codec::spec_action_space;
use crate::tiles::spec_tile_dim;
use crate::tiles::tile_dim;

verus! {

/// Feature-plane and action-space geometry for a given player count.
#[derive(Debug, Clone, Copy, PartialEq, Eq, Structural)]
pub struct Geometry {
    pub num_players: u8,
    pub channels: usize,
    pub tile_dim: usize,
    pub action_space: usize,
}

impl Geometry {
    /// The geometry for `num_players` players whose observation encoding has
    /// `channels` feature planes: 34 tile types and 82 actions for 4-player,
    /// 27 and 60 for 3-player.
    pub fn for_players(num_players: u8, channels: usize) -> (g: Self)
        ensures
            g.num_players == num_players,
            g.channels == channels,
            g.tile_dim == spec_tile_dim(num_players),
            g.action_space == spec_action_space(num_players),
    {
        Geometry {
            num_players,
            channels,
            tile_dim: tile_dim(num_players),
            action_space: action_space(num_players),
        }
    }
}

} // verus!
