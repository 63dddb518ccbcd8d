//! Game rules that do not depend on the engine: the application states and
//! the transition out of loading, which systems run in which state, the asset
//! table, keyboard movement, and the layout of the terrain tiles.

pub mod assets;
pub mod movement;
pub mod state;
pub mod terrain;
