//! Cascaded shadow map bookkeeping and tile-map resource queries.
//!
//! The shadow side holds what does not depend on floating-point geometry: planning
//! the split boundaries (generic over the scalar type), creating the fixed set of
//! cascades, and the order and statistics of a frame's shadow pass. The tile side
//! models the tile books (tile sets and brushes) that a tile map palette reads, and
//! the editor's choice of tile map to edit.
pub mod cascades;
pub mod editor;
pub mod frame;
pub mod splits;
pub mod stats;
pub mod tile_book;
pub mod tile_position;
pub mod tile_property;
