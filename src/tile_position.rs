//! Positions of pages and tiles within a tile resource.
use vstd::prelude::*;

verus! {

/// A position on an integer grid.
#[derive(Clone, Copy, Debug, PartialEq, Eq, Structural)]
pub struct Vector2i {
    pub x: i32,
    pub y: i32,
}

impl Vector2i {
    pub fn new(x: i32, y: i32) -> (r: Vector2i)
        ensures
            r.x == x,
            r.y == y,
    {
        Vector2i { x, y }
    }
}

/// Whether a value fits the coordinates of a palette, which are 16-bit.
pub open spec fn fits_palette(v: Vector2i) -> bool {
    i16::MIN <= v.x <= i16::MAX && i16::MIN <= v.y <= i16::MAX
}

/// Identifies a tile by the position of its page and its position within that
/// page. Both positions have 16-bit coordinates.
#[derive(Clone, Copy, Debug, PartialEq, Eq, Structural)]
pub struct TileDefinitionHandle {
    page_x: i16,
    page_y: i16,
    tile_x: i16,
    tile_y: i16,
}

impl TileDefinitionHandle {
    /// The page position, widened.
    pub closed spec fn page_view(&self) -> Vector2i {
        Vector2i { x: self.page_x as i32, y: self.page_y as i32 }
    }

    /// The tile position within the page, widened.
    pub closed spec fn tile_view(&self) -> Vector2i {
        Vector2i { x: self.tile_x as i32, y: self.tile_y as i32 }
    }

    /// A handle for the tile at `tile` on the page at `page`, or `None` when a
    /// coordinate does not fit in 16 bits.
    pub fn try_new(page: Vector2i, tile: Vector2i) -> (r: Option<TileDefinitionHandle>)
        ensures
            r is Some <==> fits_palette(page) && fits_palette(tile),
            r matches Some(h) ==> h.page_view() == page && h.tile_view() == tile,
    {
        if fits_palette_exec(page) && fits_palette_exec(tile) {
            Some(
                TileDefinitionHandle {
                    page_x: page.x as i16,
                    page_y: page.y as i16,
                    tile_x: tile.x as i16,
                    tile_y: tile.y as i16,
                },
            )
        } else {
            None
        }
    }

    /// The position of the page.
    pub fn page(&self) -> (r: Vector2i)
        ensures
            r == self.page_view(),
    {
        Vector2i { x: self.page_x as i32, y: self.page_y as i32 }
    }

    /// The position of the tile within its page.
    pub fn tile(&self) -> (r: Vector2i)
        ensures
            r == self.tile_view(),
    {
        Vector2i { x: self.tile_x as i32, y: self.tile_y as i32 }
    }
}

fn fits_palette_exec(v: Vector2i) -> (r: bool)
    ensures
        r == fits_palette(v),
{
    -32768 <= v.x && v.x <= 32767 && -32768 <= v.y && v.y <= 32767
}

/// A record of whether a change has happened since the most recent save.
#[derive(Clone, Copy, Debug, PartialEq, Eq, Structural)]
pub struct ChangeFlag(pub bool);

impl ChangeFlag {
    /// A flag with no unsaved changes.
    pub fn new() -> (r: ChangeFlag)
        ensures
            !r.0,
    {
        ChangeFlag(false)
    }

    /// True if there are changes.
    pub fn needs_save(&self) -> (r: bool)
        ensures
            r == self.0,
    {
        self.0
    }

    /// Records that there are no unsaved changes.
    pub fn reset(&mut self)
        ensures
            !final(self).0,
    {
        self.0 = false;
    }

    /// Records that there could be unsaved changes.
    pub fn set(&mut self)
        ensures
            final(self).0,
    {
        self.0 = true;
    }
}

impl Default for ChangeFlag {
    /// A flag with no unsaved changes.
    fn default() -> (r: ChangeFlag)
        ensures
            !r.0,
    {
        ChangeFlag(false)
    }
}

/// Each brush and tile set has two palette areas, called stages: the pages, and
/// the tiles within each page.
#[derive(Clone, Copy, Debug, PartialEq, Eq, Structural)]
pub enum TilePaletteStage {
    /// The stage of page icons, where a page is chosen.
    Pages,
    /// The stage of the tiles within a page.
    Tiles,
}

/// The kinds of tile page.
#[derive(Clone, Copy, Debug, PartialEq, Eq, Structural)]
pub enum PageType {
    /// Tiles take their material from one shared atlas, at their grid coordinates.
    Atlas,
    /// Each tile has its own material and texture coordinates.
    Freeform,
    /// Tiles refer to tiles of other pages and say how they are flipped and rotated.
    Transform,
    /// A page of a brush: tiles refer to tiles of the brush's tile set.
    Brush,
}

/// The position of a page, or of a tile within a page, in a tile resource.
#[derive(Clone, Copy, Debug, PartialEq, Eq, Structural)]
pub enum ResourceTilePosition {
    /// A page, at its position.
    Page(Vector2i),
    /// A tile: the position of its page, then its position within the page.
    Tile(Vector2i, Vector2i),
}

impl ResourceTilePosition {
    /// The position of `tile` in the given stage: for the page stage, `tile` is the
    /// position of a page and `page` is ignored.
    pub fn new(stage: TilePaletteStage, page: Vector2i, tile: Vector2i) -> (r:
        ResourceTilePosition)
        ensures
            r == (match stage {
                TilePaletteStage::Pages => ResourceTilePosition::Page(tile),
                TilePaletteStage::Tiles => ResourceTilePosition::Tile(page, tile),
            }),
    {
        match stage {
            TilePaletteStage::Pages => ResourceTilePosition::Page(tile),
            TilePaletteStage::Tiles => ResourceTilePosition::Tile(page, tile),
        }
    }

    /// True if this is the position of a page.
    pub fn is_page(&self) -> (r: bool)
        ensures
            r == (*self is Page),
    {
        match self {
            ResourceTilePosition::Page(_) => true,
            ResourceTilePosition::Tile(_, _) => false,
        }
    }

    /// True if this is the position of a tile within a page.
    pub fn is_tile(&self) -> (r: bool)
        ensures
            r == (*self is Tile),
    {
        match self {
            ResourceTilePosition::Page(_) => false,
            ResourceTilePosition::Tile(_, _) => true,
        }
    }

    pub open spec fn stage_spec(&self) -> TilePaletteStage {
        match self {
            ResourceTilePosition::Page(_) => TilePaletteStage::Pages,
            ResourceTilePosition::Tile(_, _) => TilePaletteStage::Tiles,
        }
    }

    pub open spec fn stage_position_spec(&self) -> Vector2i {
        match self {
            ResourceTilePosition::Page(p) => *p,
            ResourceTilePosition::Tile(_, t) => *t,
        }
    }

    pub open spec fn page_spec(&self) -> Vector2i {
        match self {
            ResourceTilePosition::Page(p) => *p,
            ResourceTilePosition::Tile(p, _) => *p,
        }
    }

    /// The stage that holds this position.
    pub fn stage(&self) -> (r: TilePaletteStage)
        ensures
            r == self.stage_spec(),
    {
        match self {
            ResourceTilePosition::Page(_) => TilePaletteStage::Pages,
            ResourceTilePosition::Tile(_, _) => TilePaletteStage::Tiles,
        }
    }

    /// The position within the stage: a page's own position, or a tile's position
    /// within its page.
    pub fn stage_position(&self) -> (r: Vector2i)
        ensures
            r == self.stage_position_spec(),
    {
        match self {
            ResourceTilePosition::Page(p) => *p,
            ResourceTilePosition::Tile(_, t) => *t,
        }
    }

    /// The position of the page: the page itself, or the page that holds the tile.
    pub fn page(&self) -> (r: Vector2i)
        ensures
            r == self.page_spec(),
    {
        match self {
            ResourceTilePosition::Page(p) => *p,
            ResourceTilePosition::Tile(p, _) => *p,
        }
    }

    /// The handle of the tile at this position: `None` for a page, or when a
    /// coordinate does not fit in a handle.
    pub fn handle(&self) -> (r: Option<TileDefinitionHandle>)
        ensures
            match *self {
                ResourceTilePosition::Page(_) => r is None,
                ResourceTilePosition::Tile(p, t) => {
                    &&& r is Some <==> fits_palette(p) && fits_palette(t)
                    &&& r matches Some(h) ==> h.page_view() == p && h.tile_view() == t
                },
            },
    {
        match self {
            ResourceTilePosition::Page(_) => None,
            ResourceTilePosition::Tile(p, t) => TileDefinitionHandle::try_new(*p, *t),
        }
    }
}

impl From<TileDefinitionHandle> for ResourceTilePosition {
    /// The position of the tile that the handle identifies.
    fn from(handle: TileDefinitionHandle) -> (r: ResourceTilePosition) {
        ResourceTilePosition::Tile(handle.page(), handle.tile())
    }
}

impl vstd::std_specs::convert::FromSpecImpl<TileDefinitionHandle> for ResourceTilePosition {
    open spec fn obeys_from_spec() -> bool {
        true
    }

    open spec fn from_spec(handle: TileDefinitionHandle) -> ResourceTilePosition {
        ResourceTilePosition::Tile(handle.page_view(), handle.tile_view())
    }
}

/// A tile of a tile map: its position on the grid and the tile it shows.
#[derive(Clone, Copy, Debug, PartialEq, Eq, Structural)]
pub struct Tile {
    /// Position of the tile, in grid coordinates.
    pub position: Vector2i,
    /// The tile definition that it shows.
    pub definition_handle: TileDefinitionHandle,
}

} // verus!
