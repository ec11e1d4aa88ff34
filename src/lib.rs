//! Terrain chunk generation: a grid of block identifiers painted from a
//! sampled noise field by an ordered list of threshold rules.
pub mod block;
pub mod level;
pub mod grid;
pub mod config;
pub mod generate;
pub mod laws;

pub use block::{BlockID, Coord, UNSET_BLOCK};
pub use config::{BlockConfig, Config, MapOptions};
pub use generate::{add_terrain, generate_chunk, sampling_bounds, SamplingBounds};
pub use grid::{ChunkData, NoiseField};
pub use level::Level;
