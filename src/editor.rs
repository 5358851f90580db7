//! The tile map editing mode of the scene editor.
use vstd::prelude::*;

verus! {

/// A handle of a scene node: its slot in the node pool and the generation of that slot.
#[derive(Clone, Copy, Debug, PartialEq, Eq, Structural)]
pub struct NodeHandle {
    pub index: u32,
    pub generation: u32,
}

/// The interaction mode that edits one tile map node.
#[derive(Clone, Copy, Debug, PartialEq, Eq, Structural)]
pub struct TileMapInteractionMode {
    tile_map: NodeHandle,
}

impl TileMapInteractionMode {
    pub closed spec fn tile_map_view(&self) -> NodeHandle {
        self.tile_map
    }

    /// The mode that edits the tile map node `tile_map`.
    pub fn new(tile_map: NodeHandle) -> (r: TileMapInteractionMode)
        ensures
            r.tile_map_view() == tile_map,
    {
        TileMapInteractionMode { tile_map }
    }

    /// The tile map node being edited.
    pub fn tile_map(&self) -> (r: NodeHandle)
        ensures
            r == self.tile_map_view(),
    {
        self.tile_map
    }
}

/// `i` is the first index of the selection whose node is a tile map.
pub open spec fn is_first_tile_map(is_tile_map: Seq<bool>, i: int) -> bool {
    &&& 0 <= i < is_tile_map.len()
    &&& is_tile_map[i]
    &&& forall|j: int| 0 <= j < i ==> !is_tile_map[j]
}

/// The editor plugin that offers the tile map interaction mode.
#[derive(Clone, Copy, Debug, Default)]
pub struct TileMapEditorPlugin {}

impl TileMapEditorPlugin {
    /// Decides the interaction mode after the selection changed: the mode for the
    /// first selected node that is a tile map (`is_tile_map[i]` tells for
    /// `selection[i]`), or none when no selected node is one.
    pub fn on_selection_changed(
        &self,
        selection: &Vec<NodeHandle>,
        is_tile_map: &Vec<bool>,
    ) -> (r: Option<TileMapInteractionMode>)
        requires
            selection.len() == is_tile_map.len(),
        ensures
            r is None <==> forall|i: int| 0 <= i < is_tile_map.len() ==> !is_tile_map@[i],
            r matches Some(m) ==> exists|i: int|
                is_first_tile_map(is_tile_map@, i) && m.tile_map_view() == selection@[i],
    {
        let mut i: usize = 0;
        while i < selection.len()
            invariant
                i <= selection.len(),
                selection.len() == is_tile_map.len(),
                forall|j: int| 0 <= j < i ==> !is_tile_map@[j],
            decreases selection.len() - i,
        {
            if is_tile_map[i] {
                assert(is_first_tile_map(is_tile_map@, i as int));
                return Some(TileMapInteractionMode::new(selection[i]));
            }
            i = i + 1;
        }
        None
    }
}

} // verus!
