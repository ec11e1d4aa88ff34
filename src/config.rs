use vstd::prelude::*;

use crate::block::{BlockID, Coord, UNSET_BLOCK};
use crate::level::Level;

verus! {

/// Bit pattern of the binary64 number 1.0.
pub const ONE_BITS: u64 = 0x3FF0_0000_0000_0000;

/// Bit pattern of the binary64 number 0.5.
pub const HALF_BITS: u64 = 0x3FE0_0000_0000_0000;

/// Bit pattern of the binary64 number +0.0.
pub const ZERO_BITS: u64 = 0;

/// Octave count of the default noise field.
pub const DEFAULT_OCTAVES: usize = 8;

/// A painting rule: paint `block` onto every cell whose noise value lies in
/// `[start_level, end_level)`, replacing an already painted cell only when
/// `overwrite` is set.
#[derive(Clone, Copy, Debug, PartialEq, Eq, Structural)]
pub struct BlockConfig {
    pub block: BlockID,
    pub start_level: Level,
    pub end_level: Level,
    pub overwrite: bool,
}

impl BlockConfig {
    pub fn new(block: BlockID, start_level: Level, end_level: Level, overwrite: bool) -> (r: BlockConfig)
        ensures
            r.block == block,
            r.start_level == start_level,
            r.end_level == end_level,
            r.overwrite == overwrite,
    {
        BlockConfig { block, start_level, end_level, overwrite }
    }
}

impl Default for BlockConfig {
    /// The unset block, both thresholds at zero, no overwrite.
    fn default() -> (r: BlockConfig)
        ensures
            r.block == UNSET_BLOCK,
            r.start_level.bits == ZERO_BITS,
            r.end_level.bits == ZERO_BITS,
            !r.overwrite,
    {
        BlockConfig::new(UNSET_BLOCK, Level::from_bits(ZERO_BITS), Level::from_bits(ZERO_BITS), false)
    }
}

/// The parameters of the noise field. `pos` places the chunk in the chunk
/// grid, `scale` turns grid units into sampling units, and the rest are
/// handed unchanged to the fractal noise generator.
#[derive(Clone, Copy, Debug, PartialEq, Eq, Structural)]
pub struct MapOptions {
    pub pos: Coord,
    pub scale: Level,
    pub octaves: usize,
    pub frequency: Level,
    pub lacunarity: Level,
    pub persistence: Level,
    pub seed: u32,
}

impl MapOptions {
    pub fn new(
        pos: Coord,
        scale: Level,
        octaves: usize,
        frequency: Level,
        lacunarity: Level,
        persistence: Level,
        seed: u32,
    ) -> (r: MapOptions)
        ensures
            r.pos == pos,
            r.scale == scale,
            r.octaves == octaves,
            r.frequency == frequency,
            r.lacunarity == lacunarity,
            r.persistence == persistence,
            r.seed == seed,
    {
        MapOptions { pos, scale, octaves, frequency, lacunarity, persistence, seed }
    }
}

impl Default for MapOptions {
    /// Position (0, 0), scale 1, eight octaves, frequency 1, lacunarity and
    /// persistence 0.5, seed 0.
    fn default() -> (r: MapOptions)
        ensures
            r.pos == Coord(0, 0),
            r.scale.bits == ONE_BITS,
            r.octaves == DEFAULT_OCTAVES,
            r.frequency.bits == ONE_BITS,
            r.lacunarity.bits == HALF_BITS,
            r.persistence.bits == HALF_BITS,
            r.seed == 0,
    {
        MapOptions::new(
            Coord::new(0, 0),
            Level::from_bits(ONE_BITS),
            DEFAULT_OCTAVES,
            Level::from_bits(ONE_BITS),
            Level::from_bits(HALF_BITS),
            Level::from_bits(HALF_BITS),
            0,
        )
    }
}

/// A full generation request: the fill of a fresh chunk, the painting rules
/// in the order they apply, and the noise field they read.
#[derive(Debug)]
pub struct Config {
    pub default_block: BlockID,
    pub blocks: Vec<BlockConfig>,
    pub map_options: MapOptions,
}

impl Config {
    pub fn new(default_block: BlockID, blocks: Vec<BlockConfig>, map_options: MapOptions) -> (r: Config)
        ensures
            r.default_block == default_block,
            r.blocks@ == blocks@,
            r.map_options == map_options,
    {
        Config { default_block, blocks, map_options }
    }
}

impl Default for Config {
    /// The unset block as fill, one default rule, default noise options.
    fn default() -> (r: Config)
        ensures
            r.default_block == UNSET_BLOCK,
            r.blocks@.len() == 1,
            r.blocks@[0].block == UNSET_BLOCK,
            r.blocks@[0].start_level.bits == ZERO_BITS,
            r.blocks@[0].end_level.bits == ZERO_BITS,
            !r.blocks@[0].overwrite,
            r.map_options.pos == Coord(0, 0),
            r.map_options.scale.bits == ONE_BITS,
            r.map_options.octaves == DEFAULT_OCTAVES,
            r.map_options.frequency.bits == ONE_BITS,
            r.map_options.lacunarity.bits == HALF_BITS,
            r.map_options.persistence.bits == HALF_BITS,
            r.map_options.seed == 0,
    {
        let mut blocks: Vec<BlockConfig> = Vec::new();
        blocks.push(BlockConfig::default());
        Config::new(UNSET_BLOCK, blocks, MapOptions::default())
    }
}

} // verus!
