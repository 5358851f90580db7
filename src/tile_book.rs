//! Tile books: the tile sets and brushes that a tile map palette shows, each made
//! of pages of tiles.
use vstd::prelude::*;
use crate::tile_position::{
    ChangeFlag, PageType, ResourceTilePosition, TileDefinitionHandle, TilePaletteStage,
    Vector2i,
};

verus! {

/// A colour with 8-bit red, green, blue and alpha channels.
#[derive(Clone, Copy, Debug, PartialEq, Eq, Structural)]
pub struct Color {
    pub r: u8,
    pub g: u8,
    pub b: u8,
    pub a: u8,
}

/// The rectangle of a material's texture that a tile shows, in pixels, corner by corner.
#[derive(Clone, Copy, Debug)]
pub struct TileBounds {
    pub left_top_corner: (u32, u32),
    pub right_top_corner: (u32, u32),
    pub left_bottom_corner: (u32, u32),
    pub right_bottom_corner: (u32, u32),
}

/// A material together with the part of it that a tile shows; `M` stands for the material.
#[derive(Clone, Copy, Debug)]
pub struct TileMaterialBounds<M> {
    pub material: M,
    pub bounds: TileBounds,
}

/// How to render a tile: with a part of a material, or as a plain colour.
#[derive(Clone, Copy, Debug)]
pub struct TileRenderData<M> {
    /// The material, if any, and the part of it to show.
    pub material_bounds: Option<TileMaterialBounds<M>>,
    /// The colour to render the tile with.
    pub color: Color,
}

impl<M> TileRenderData<M> {
    /// The render data that marks a tile whose data is unavailable: no material,
    /// and opaque hot pink.
    pub fn missing_data() -> (r: TileRenderData<M>)
        ensures
            r.material_bounds is None,
            r.color == (Color { r: 255, g: 105, b: 180, a: 255 }),
    {
        TileRenderData { material_bounds: None, color: Color { r: 255, g: 105, b: 180, a: 255 } }
    }
}

/// A tile on a page: its position within the page and the tile definition that it
/// resolves to. On atlas and freeform pages that is the tile's own handle; on
/// transform and brush pages, the tile that it refers to.
#[derive(Clone, Copy, Debug, PartialEq, Eq, Structural)]
pub struct PageTile {
    pub position: Vector2i,
    pub handle: TileDefinitionHandle,
}

/// A page of a tile book: its position, the tile that shows it as an icon, its kind
/// and its tiles. Where two pages share a position the first one counts, and
/// likewise for tiles.
#[derive(Clone, Debug)]
pub struct TilePage {
    pub position: Vector2i,
    pub icon: TileDefinitionHandle,
    pub page_type: PageType,
    pub tiles: Vec<PageTile>,
}

/// The data of a tile set: its pages, and whether they changed since the last save.
#[derive(Clone, Debug)]
pub struct TileSet {
    pub pages: Vec<TilePage>,
    pub change_flag: ChangeFlag,
}

/// The data of a brush: the tile set it paints from, its pages, and whether they
/// changed since the last save.
#[derive(Clone, Debug)]
pub struct TileMapBrush {
    pub tile_set: Option<TileSetResource>,
    pub pages: Vec<TilePage>,
    pub change_flag: ChangeFlag,
}

/// A resource: where it is stored, whether it lives in a file of its own, and its
/// data once loaded (`None` while it is not).
#[derive(Clone, Debug)]
pub struct TileSetResource {
    pub path: Option<String>,
    pub external: bool,
    pub data: Option<TileSet>,
}

/// A brush resource, laid out as `TileSetResource`.
#[derive(Clone, Debug)]
pub struct TileMapBrushResource {
    pub path: Option<String>,
    pub external: bool,
    pub data: Option<TileMapBrush>,
}

/// An abstract source of tiles: nothing, a tile set or a brush.
#[derive(Clone, Debug)]
pub enum TileBook {
    /// A book with no tiles.
    Empty,
    /// Tiles from a tile set.
    TileSet(TileSetResource),
    /// Tiles from a brush.
    Brush(TileMapBrushResource),
}

/// `i` is the first index of a page at position `p`.
pub open spec fn is_first_page(pages: Seq<TilePage>, p: Vector2i, i: int) -> bool {
    &&& 0 <= i < pages.len()
    &&& pages[i].position == p
    &&& forall|j: int| 0 <= j < i ==> pages[j].position != p
}

/// The page at position `p`: the first one there, if any.
pub open spec fn page_at(pages: Seq<TilePage>, p: Vector2i) -> Option<TilePage> {
    if exists|i: int| is_first_page(pages, p, i) {
        Some(pages[choose|i: int| is_first_page(pages, p, i)])
    } else {
        None
    }
}

/// The page at `p` is the one at the first index of a page there.
pub proof fn lemma_page_at_first(pages: Seq<TilePage>, p: Vector2i, i: int)
    requires
        is_first_page(pages, p, i),
    ensures
        page_at(pages, p) == Some(pages[i]),
{
    let k = choose|k: int| is_first_page(pages, p, k);
    if k < i {
        assert(pages[k].position != p);
    } else if k > i {
        assert(pages[i].position != p);
    }
}

/// `i` is the first index of a tile at position `t`.
pub open spec fn is_first_tile(tiles: Seq<PageTile>, t: Vector2i, i: int) -> bool {
    &&& 0 <= i < tiles.len()
    &&& tiles[i].position == t
    &&& forall|j: int| 0 <= j < i ==> tiles[j].position != t
}

/// The tile at position `t` of a page: the first one there, if any.
pub open spec fn tile_at(tiles: Seq<PageTile>, t: Vector2i) -> Option<PageTile> {
    if exists|i: int| is_first_tile(tiles, t, i) {
        Some(tiles[choose|i: int| is_first_tile(tiles, t, i)])
    } else {
        None
    }
}

/// The tile at `t` is the one at the first index of a tile there.
pub proof fn lemma_tile_at_first(tiles: Seq<PageTile>, t: Vector2i, i: int)
    requires
        is_first_tile(tiles, t, i),
    ensures
        tile_at(tiles, t) == Some(tiles[i]),
{
    let k = choose|k: int| is_first_tile(tiles, t, k);
    if k < i {
        assert(tiles[k].position != t);
    } else if k > i {
        assert(tiles[i].position != t);
    }
}

/// The pages of a book, when it has loaded data.
pub open spec fn book_pages(book: TileBook) -> Option<Seq<TilePage>> {
    match book {
        TileBook::Empty => None,
        TileBook::TileSet(r) => match r.data {
            Some(d) => Some(d.pages@),
            None => None,
        },
        TileBook::Brush(r) => match r.data {
            Some(d) => Some(d.pages@),
            None => None,
        },
    }
}

/// The page of a book at position `p`, when the book has loaded data.
pub open spec fn book_page(book: TileBook, p: Vector2i) -> Option<TilePage> {
    match book_pages(book) {
        Some(pages) => page_at(pages, p),
        None => None,
    }
}

/// The tile of a book at `tile` on the page at `page`.
pub open spec fn book_tile(book: TileBook, page: Vector2i, tile: Vector2i) -> Option<PageTile> {
    match book_page(book, page) {
        Some(pg) => tile_at(pg.tiles@, tile),
        None => None,
    }
}

/// The kind of the page of a book at `p`: a tile set's page has its own kind, a
/// brush's page is a brush page.
pub open spec fn book_page_type(book: TileBook, p: Vector2i) -> Option<PageType> {
    match book_page(book, p) {
        Some(pg) => Some(
            if book is Brush {
                PageType::Brush
            } else {
                pg.page_type
            },
        ),
        None => None,
    }
}

/// The path of a book's resource, as characters.
pub open spec fn book_path(book: TileBook) -> Option<Seq<char>> {
    match book {
        TileBook::Empty => None,
        TileBook::TileSet(r) => match r.path {
            Some(s) => Some(s@),
            None => None,
        },
        TileBook::Brush(r) => match r.path {
            Some(s) => Some(s@),
            None => None,
        },
    }
}

/// The positions of a book's pages, in order (none while it has no loaded data).
pub open spec fn book_page_positions(book: TileBook) -> Seq<Vector2i> {
    match book_pages(book) {
        Some(ps) => ps.map_values(|p: TilePage| p.position),
        None => Seq::empty(),
    }
}

/// The positions of the tiles on a book's page at `page`, in order.
pub open spec fn book_tile_positions(book: TileBook, page: Vector2i) -> Seq<Vector2i> {
    match book_page(book, page) {
        Some(pg) => pg.tiles@.map_values(|t: PageTile| t.position),
        None => Seq::empty(),
    }
}

/// The tile definition that a position of a book's palette stands for.
pub open spec fn book_handle(book: TileBook, position: ResourceTilePosition) -> Option<
    TileDefinitionHandle,
> {
    match position {
        ResourceTilePosition::Page(p) => match book_page(book, p) {
            Some(pg) => Some(pg.icon),
            None => None,
        },
        ResourceTilePosition::Tile(p, t) => match book_tile(book, p, t) {
            Some(tile) => Some(tile.handle),
            None => None,
        },
    }
}

/// The position of `tile` in a stage of the palette.
pub open spec fn stage_position_of(stage: TilePaletteStage, page: Vector2i, tile: Vector2i) -> ResourceTilePosition {
    match stage {
        TilePaletteStage::Pages => ResourceTilePosition::Page(tile),
        TilePaletteStage::Tiles => ResourceTilePosition::Tile(page, tile),
    }
}

/// Each of `ps` that stands for a tile definition in the stage, paired with it, in order.
pub open spec fn handles_of(
    book: TileBook,
    stage: TilePaletteStage,
    page: Vector2i,
    ps: Seq<Vector2i>,
) -> Seq<(Vector2i, TileDefinitionHandle)>
    decreases ps.len(),
{
    if ps.len() == 0 {
        Seq::empty()
    } else {
        let rest = handles_of(book, stage, page, ps.drop_last());
        match book_handle(book, stage_position_of(stage, page, ps.last())) {
            Some(h) => rest.push((ps.last(), h)),
            None => rest,
        }
    }
}

/// The resource lives in a file of its own, is loaded, and changed since it was last saved.
pub open spec fn book_needs_save(book: TileBook) -> bool {
    match book {
        TileBook::Empty => false,
        TileBook::TileSet(res) => res.external && (res.data matches Some(d) && d.change_flag.0),
        TileBook::Brush(res) => res.external && (res.data matches Some(d) && d.change_flag.0),
    }
}

/// The book with its loaded data marked as saved, and otherwise the same.
pub open spec fn book_marked_saved(book: TileBook) -> TileBook {
    match book {
        TileBook::Empty => TileBook::Empty,
        TileBook::TileSet(res) => TileBook::TileSet(
            TileSetResource {
                data: match res.data {
                    Some(d) => Some(TileSet { change_flag: ChangeFlag(false), ..d }),
                    None => None,
                },
                ..res
            },
        ),
        TileBook::Brush(res) => TileBook::Brush(
            TileMapBrushResource {
                data: match res.data {
                    Some(d) => Some(TileMapBrush { change_flag: ChangeFlag(false), ..d }),
                    None => None,
                },
                ..res
            },
        ),
    }
}

/// A rectangle of grid cells, from its least to its greatest corner, both included.
#[derive(Clone, Copy, Debug, PartialEq, Eq, Structural)]
pub struct TileRect {
    pub min: Vector2i,
    pub max: Vector2i,
}

/// The rectangle holds the cell `p`.
pub open spec fn rect_contains(r: TileRect, p: Vector2i) -> bool {
    r.min.x <= p.x <= r.max.x && r.min.y <= p.y <= r.max.y
}

/// `r` is the least rectangle that holds every position of `ps`: it holds them all,
/// and each of its sides passes through one of them.
pub open spec fn is_bounds_of(ps: Seq<Vector2i>, r: TileRect) -> bool {
    &&& forall|i: int| 0 <= i < ps.len() ==> rect_contains(r, #[trigger] ps[i])
    &&& exists|i: int| 0 <= i < ps.len() && (#[trigger] ps[i]).x == r.min.x
    &&& exists|i: int| 0 <= i < ps.len() && (#[trigger] ps[i]).y == r.min.y
    &&& exists|i: int| 0 <= i < ps.len() && (#[trigger] ps[i]).x == r.max.x
    &&& exists|i: int| 0 <= i < ps.len() && (#[trigger] ps[i]).y == r.max.y
}

/// The least rectangle that holds all the positions, or `None` when there are none.
pub fn bounds_of(positions: &Vec<Vector2i>) -> (r: Option<TileRect>)
    ensures
        r is None <==> positions.len() == 0,
        r matches Some(rect) ==> is_bounds_of(positions@, rect),
{
    if positions.len() == 0 {
        return None;
    }
    let first = positions[0];
    let mut rect = TileRect { min: first, max: first };
    let mut i: usize = 1;
    proof {
        let start = positions@.take(1);
        assert(start[0] == first);
        assert(start.len() == 1);
        assert(rect_contains(rect, start[0]));
    }
    while i < positions.len()
        invariant
            1 <= i <= positions.len(),
            is_bounds_of(positions@.take(i as int), rect),
        decreases positions.len() - i,
    {
        let p = positions[i];
        let ghost before = positions@.take(i as int);
        let ghost old_rect = rect;
        if p.x < rect.min.x {
            rect.min.x = p.x;
        }
        if p.y < rect.min.y {
            rect.min.y = p.y;
        }
        if p.x > rect.max.x {
            rect.max.x = p.x;
        }
        if p.y > rect.max.y {
            rect.max.y = p.y;
        }
        i = i + 1;
        proof {
            let after = positions@.take(i as int);
            assert(after == before.push(p));
            assert(after[i - 1] == p);
            assert forall|j: int| 0 <= j < after.len() implies rect_contains(
                rect,
                #[trigger] after[j],
            ) by {
                if j < i - 1 {
                    assert(after[j] == before[j]);
                    assert(rect_contains(old_rect, before[j]));
                }
            }
            if p.x < old_rect.min.x {
                assert(after[i - 1].x == rect.min.x);
            } else {
                let k = choose|k: int| 0 <= k < before.len() && (#[trigger] before[k]).x
                    == old_rect.min.x;
                assert(after[k] == before[k]);
            }
            if p.y < old_rect.min.y {
                assert(after[i - 1].y == rect.min.y);
            } else {
                let k = choose|k: int| 0 <= k < before.len() && (#[trigger] before[k]).y
                    == old_rect.min.y;
                assert(after[k] == before[k]);
            }
            if p.x > old_rect.max.x {
                assert(after[i - 1].x == rect.max.x);
            } else {
                let k = choose|k: int| 0 <= k < before.len() && (#[trigger] before[k]).x
                    == old_rect.max.x;
                assert(after[k] == before[k]);
            }
            if p.y > old_rect.max.y {
                assert(after[i - 1].y == rect.max.y);
            } else {
                let k = choose|k: int| 0 <= k < before.len() && (#[trigger] before[k]).y
                    == old_rect.max.y;
                assert(after[k] == before[k]);
            }
        }
    }
    assert(positions@.take(i as int) == positions@);
    Some(rect)
}

/// The first index of a page at `p`.
fn find_page(pages: &Vec<TilePage>, p: Vector2i) -> (r: Option<usize>)
    ensures
        r matches Some(i) ==> is_first_page(pages@, p, i as int),
        r is None ==> page_at(pages@, p) is None,
        r matches Some(i) ==> page_at(pages@, p) == Some(pages@[i as int]),
{
    let mut i: usize = 0;
    while i < pages.len()
        invariant
            i <= pages.len(),
            forall|j: int| 0 <= j < i ==> pages@[j].position != p,
        decreases pages.len() - i,
    {
        if pages[i].position == p {
            proof {
                lemma_page_at_first(pages@, p, i as int);
            }
            return Some(i);
        }
        i = i + 1;
    }
    None
}

/// The first index of a tile at `t`.
fn find_tile(tiles: &Vec<PageTile>, t: Vector2i) -> (r: Option<usize>)
    ensures
        r matches Some(i) ==> is_first_tile(tiles@, t, i as int),
        r is None ==> tile_at(tiles@, t) is None,
        r matches Some(i) ==> tile_at(tiles@, t) == Some(tiles@[i as int]),
{
    let mut i: usize = 0;
    while i < tiles.len()
        invariant
            i <= tiles.len(),
            forall|j: int| 0 <= j < i ==> tiles@[j].position != t,
        decreases tiles.len() - i,
    {
        if tiles[i].position == t {
            proof {
                lemma_tile_at_first(tiles@, t, i as int);
            }
            return Some(i);
        }
        i = i + 1;
    }
    None
}

impl TileBook {
    /// The pages of the book, when it has loaded data.
    fn pages(&self) -> (r: Option<&Vec<TilePage>>)
        ensures
            match book_pages(*self) {
                Some(ps) => r matches Some(v) && v@ == ps,
                None => r is None,
            },
    {
        match self {
            TileBook::Empty => None,
            TileBook::TileSet(res) => match &res.data {
                Some(d) => Some(&d.pages),
                None => None,
            },
            TileBook::Brush(res) => match &res.data {
                Some(d) => Some(&d.pages),
                None => None,
            },
        }
    }

    /// The page at `position`, when the book has loaded data.
    fn page(&self, position: Vector2i) -> (r: Option<&TilePage>)
        ensures
            match book_page(*self, position) {
                Some(pg) => r matches Some(q) && *q == pg,
                None => r is None,
            },
    {
        match self.pages() {
            None => None,
            Some(pages) => match find_page(pages, position) {
                Some(i) => Some(&pages[i]),
                None => None,
            },
        }
    }

    /// The handle of the tile that shows the page at `position`.
    pub fn page_icon(&self, position: Vector2i) -> (r: Option<TileDefinitionHandle>)
        ensures
            r == (match book_page(*self, position) {
                Some(pg) => Some(pg.icon),
                None => None,
            }),
    {
        match self.page(position) {
            Some(pg) => Some(pg.icon),
            None => None,
        }
    }

    /// True if the book is a tile set.
    pub fn is_tile_set(&self) -> (r: bool)
        ensures
            r == (*self is TileSet),
    {
        match self {
            TileBook::TileSet(_) => true,
            _ => false,
        }
    }

    /// True if the book is a brush.
    pub fn is_brush(&self) -> (r: bool)
        ensures
            r == (*self is Brush),
    {
        match self {
            TileBook::Brush(_) => true,
            _ => false,
        }
    }

    /// True if the book holds no resource.
    pub fn is_empty(&self) -> (r: bool)
        ensures
            r == (*self is Empty),
    {
        match self {
            TileBook::Empty => true,
            _ => false,
        }
    }

    /// The path of the resource.
    pub fn path(&self) -> (r: Option<String>)
        ensures
            match book_path(*self) {
                Some(p) => r matches Some(s) && s@ == p,
                None => r is None,
            },
    {
        let path = match self {
            TileBook::Empty => {
                return None;
            },
            TileBook::TileSet(res) => &res.path,
            TileBook::Brush(res) => &res.path,
        };
        match path {
            Some(s) => Some(s.clone()),
            None => None,
        }
    }

    /// The path of the resource, or `"Error"` when it has none.
    pub fn name(&self) -> (r: String)
        ensures
            r@ == (match book_path(*self) {
                Some(p) => p,
                None => "Error"@,
            }),
    {
        match self.path() {
            Some(s) => s,
            None => {
                proof {
                    reveal_strlit("Error");
                }
                "Error".to_owned()
            },
        }
    }

    /// True if the resource lives in a file of its own, is loaded, and changed since
    /// it was last saved.
    pub fn needs_save(&self) -> (r: bool)
        ensures
            r == book_needs_save(*self),
    {
        match self {
            TileBook::Empty => false,
            TileBook::TileSet(res) => res.external && match &res.data {
                Some(d) => d.change_flag.needs_save(),
                None => false,
            },
            TileBook::Brush(res) => res.external && match &res.data {
                Some(d) => d.change_flag.needs_save(),
                None => false,
            },
        }
    }

    /// Marks the loaded data as saved.
    fn mark_saved(&mut self)
        ensures
            *final(self) == book_marked_saved(*old(self)),
    {
        match self {
            TileBook::Empty => {},
            TileBook::TileSet(res) => match &mut res.data {
                Some(d) => d.change_flag.reset(),
                None => {},
            },
            TileBook::Brush(res) => match &mut res.data {
                Some(d) => d.change_flag.reset(),
                None => {},
            },
        }
    }

    /// Saves the resource with `write` when it needs saving, and marks it saved when
    /// that succeeds. Otherwise nothing is written and the result is `Ok`.
    pub fn save<E, F: Fn(&TileBook) -> Result<(), E>>(&mut self, write: F) -> (r: Result<(), E>)
        requires
            book_needs_save(*old(self)) ==> write.requires((&*old(self),)),
        ensures
            !book_needs_save(*old(self)) ==> r is Ok && *final(self) == *old(self),
            book_needs_save(*old(self)) ==> write.ensures((&*old(self),), r),
            book_needs_save(*old(self)) && r is Ok ==> *final(self) == book_marked_saved(
                *old(self),
            ),
            r is Err ==> *final(self) == *old(self),
    {
        if !self.needs_save() {
            return Ok(());
        }
        let result = write(&*self);
        if result.is_ok() {
            self.mark_saved();
        }
        result
    }

    /// The tile set resource, if the book is one.
    pub fn tile_set_ref(&self) -> (r: Option<&TileSetResource>)
        ensures
            match *self {
                TileBook::TileSet(res) => r matches Some(q) && *q == res,
                _ => r is None,
            },
    {
        match self {
            TileBook::TileSet(res) => Some(res),
            _ => None,
        }
    }

    /// The tile set that the book's tiles come from: the book itself if it is a tile
    /// set, or the tile set of a loaded brush.
    pub fn get_tile_set(&self) -> (r: Option<&TileSetResource>)
        ensures
            match *self {
                TileBook::Empty => r is None,
                TileBook::TileSet(res) => r matches Some(q) && *q == res,
                TileBook::Brush(res) => match res.data {
                    Some(d) => match d.tile_set {
                        Some(ts) => r matches Some(q) && *q == ts,
                        None => r is None,
                    },
                    None => r is None,
                },
            },
    {
        match self {
            TileBook::Empty => None,
            TileBook::TileSet(res) => Some(res),
            TileBook::Brush(res) => match &res.data {
                Some(d) => match &d.tile_set {
                    Some(ts) => Some(ts),
                    None => None,
                },
                None => None,
            },
        }
    }

    /// True if the book is a loaded brush that has no tile set.
    pub fn is_missing_tile_set(&self) -> (r: bool)
        ensures
            r == (*self matches TileBook::Brush(res) && res.data matches Some(d)
                && d.tile_set is None),
    {
        match self {
            TileBook::Brush(res) => match &res.data {
                Some(d) => d.tile_set.is_none(),
                None => false,
            },
            _ => false,
        }
    }

    /// The positions of all tiles on the page at `page`, in the page's order.
    pub fn get_all_tile_positions(&self, page: Vector2i) -> (r: Vec<Vector2i>)
        ensures
            r@ == book_tile_positions(*self, page),
    {
        let mut out: Vec<Vector2i> = Vec::new();
        if let Some(pg) = self.page(page) {
            let mut i: usize = 0;
            while i < pg.tiles.len()
                invariant
                    i <= pg.tiles.len(),
                    out@ == pg.tiles@.take(i as int).map_values(|t: PageTile| t.position),
                decreases pg.tiles.len() - i,
            {
                out.push(pg.tiles[i].position);
                i = i + 1;
                assert(pg.tiles@.take(i as int).drop_last() == pg.tiles@.take(i - 1));
            }
            assert(pg.tiles@.take(i as int) == pg.tiles@);
        }
        out
    }

    /// The positions of all pages, in the book's order.
    pub fn get_all_page_positions(&self) -> (r: Vec<Vector2i>)
        ensures
            r@ == book_page_positions(*self),
    {
        let mut out: Vec<Vector2i> = Vec::new();
        if let Some(pages) = self.pages() {
            let mut i: usize = 0;
            while i < pages.len()
                invariant
                    i <= pages.len(),
                    out@ == pages@.take(i as int).map_values(|p: TilePage| p.position),
                decreases pages.len() - i,
            {
                out.push(pages[i].position);
                i = i + 1;
                assert(pages@.take(i as int).drop_last() == pages@.take(i - 1));
            }
            assert(pages@.take(i as int) == pages@);
        }
        out
    }

    /// True if there is a page at `position`.
    pub fn has_page_at(&self, position: Vector2i) -> (r: bool)
        ensures
            r == (book_page(*self, position) is Some),
    {
        self.page(position).is_some()
    }

    /// The kind of the page at `position`, if there is one.
    pub fn page_type(&self, position: Vector2i) -> (r: Option<PageType>)
        ensures
            r == book_page_type(*self, position),
    {
        match self.page(position) {
            Some(pg) => Some(
                if self.is_brush() {
                    PageType::Brush
                } else {
                    pg.page_type
                },
            ),
            None => None,
        }
    }

    /// True if there is an atlas page at `position`.
    pub fn is_atlas_page(&self, position: Vector2i) -> (r: bool)
        ensures
            r == (book_page_type(*self, position) == Some(PageType::Atlas)),
    {
        matches!(self.page_type(position), Some(PageType::Atlas))
    }

    /// True if there is a freeform page at `position`.
    pub fn is_free_page(&self, position: Vector2i) -> (r: bool)
        ensures
            r == (book_page_type(*self, position) == Some(PageType::Freeform)),
    {
        matches!(self.page_type(position), Some(PageType::Freeform))
    }

    /// True if there is a transform page at `position`.
    pub fn is_transform_page(&self, position: Vector2i) -> (r: bool)
        ensures
            r == (book_page_type(*self, position) == Some(PageType::Transform)),
    {
        matches!(self.page_type(position), Some(PageType::Transform))
    }

    /// True if there is a brush page at `position`.
    pub fn is_brush_page(&self, position: Vector2i) -> (r: bool)
        ensures
            r == (book_page_type(*self, position) == Some(PageType::Brush)),
    {
        matches!(self.page_type(position), Some(PageType::Brush))
    }

    /// True if the page at `page` has a tile at `tile`.
    pub fn has_tile_at(&self, page: Vector2i, tile: Vector2i) -> (r: bool)
        ensures
            r == (book_tile(*self, page, tile) is Some),
    {
        match self.page(page) {
            Some(pg) => find_tile(&pg.tiles, tile).is_some(),
            None => false,
        }
    }

    /// The tile definition that a position of the palette stands for: for a page,
    /// the page's icon; for a tile, the tile it resolves to, which for a brush is a
    /// tile of the brush's tile set.
    pub fn get_tile_handle(&self, position: ResourceTilePosition) -> (r: Option<
        TileDefinitionHandle,
    >)
        ensures
            r == book_handle(*self, position),
    {
        match position {
            ResourceTilePosition::Page(p) => self.page_icon(p),
            ResourceTilePosition::Tile(p, t) => match self.page(p) {
                Some(pg) => match find_tile(&pg.tiles, t) {
                    Some(i) => Some(pg.tiles[i].handle),
                    None => None,
                },
                None => None,
            },
        }
    }

    /// The bounds of the pages (for the page stage) or of the tiles on the page at
    /// `page` (for the tile stage); `None` when there are none.
    pub fn tiles_bounds(&self, stage: TilePaletteStage, page: Vector2i) -> (r: Option<TileRect>)
        ensures
            ({
                let ps = match stage {
                    TilePaletteStage::Pages => book_page_positions(*self),
                    TilePaletteStage::Tiles => book_tile_positions(*self, page),
                };
                &&& r is None <==> ps.len() == 0
                &&& r matches Some(rect) ==> is_bounds_of(ps, rect)
            }),
    {
        let positions = match stage {
            TilePaletteStage::Pages => self.get_all_page_positions(),
            TilePaletteStage::Tiles => self.get_all_tile_positions(page),
        };
        bounds_of(&positions)
    }

    /// Each of `positions` that stands for a tile definition in the given stage and
    /// page, paired with that definition, in the order given.
    pub fn get_tile_iter(
        &self,
        stage: TilePaletteStage,
        page: Vector2i,
        positions: &Vec<Vector2i>,
    ) -> (r: Vec<(Vector2i, TileDefinitionHandle)>)
        ensures
            r@ == handles_of(*self, stage, page, positions@),
    {
        let mut out: Vec<(Vector2i, TileDefinitionHandle)> = Vec::new();
        let mut i: usize = 0;
        while i < positions.len()
            invariant
                i <= positions.len(),
                out@ == handles_of(*self, stage, page, positions@.take(i as int)),
            decreases positions.len() - i,
        {
            let p = positions[i];
            let h = self.get_tile_handle(ResourceTilePosition::new(stage, page, p));
            proof {
                let next = positions@.take(i + 1);
                assert(next.drop_last() == positions@.take(i as int));
                assert(next.last() == p);
            }
            if let Some(h) = h {
                out.push((p, h));
            }
            i = i + 1;
        }
        assert(positions@.take(i as int) == positions@);
        out
    }
}

} // verus!
