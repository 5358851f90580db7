use std::cell::Cell;

use fyrox_csm::editor::{NodeHandle, TileMapEditorPlugin, TileMapInteractionMode};
use fyrox_csm::tile_book::{
    bounds_of, Color, PageTile, TileBook, TileMapBrush, TileMapBrushResource, TilePage, TileRect, TileRenderData,
    TileSet, TileSetResource,
};
use fyrox_csm::tile_property::TilePropertyError;
use fyrox_csm::tile_position::{
    ChangeFlag, PageType, ResourceTilePosition, Tile, TileDefinitionHandle, TilePaletteStage,
    Vector2i,
};

fn v(x: i32, y: i32) -> Vector2i {
    Vector2i::new(x, y)
}

fn handle(px: i32, py: i32, tx: i32, ty: i32) -> TileDefinitionHandle {
    TileDefinitionHandle::try_new(v(px, py), v(tx, ty)).unwrap()
}

fn page(position: Vector2i, page_type: PageType, tiles: Vec<(Vector2i, TileDefinitionHandle)>) -> TilePage {
    TilePage {
        position,
        icon: handle(position.x, position.y, 0, 0),
        page_type,
        tiles: tiles.into_iter().map(|(position, handle)| PageTile { position, handle }).collect(),
    }
}

fn tile_set(external: bool, changed: bool) -> TileSetResource {
    TileSetResource {
        path: Some("tiles/ground.tileset".to_string()),
        external,
        data: Some(TileSet {
            pages: vec![
                page(v(0, 0), PageType::Atlas, vec![(v(1, 1), handle(0, 0, 1, 1)), (v(2, 1), handle(0, 0, 2, 1))]),
                page(v(1, 0), PageType::Freeform, vec![(v(0, 0), handle(1, 0, 0, 0))]),
                page(v(2, 0), PageType::Transform, vec![(v(5, 5), handle(0, 0, 2, 1))]),
                page(v(0, 0), PageType::Freeform, vec![(v(9, 9), handle(0, 0, 9, 9))]),
            ],
            change_flag: ChangeFlag(changed),
        }),
    }
}

fn brush(tile_set: Option<TileSetResource>) -> TileBook {
    TileBook::Brush(TileMapBrushResource {
        path: None,
        external: true,
        data: Some(TileMapBrush {
            tile_set,
            pages: vec![page(v(-3, 4), PageType::Atlas, vec![(v(0, 1), handle(1, 0, 0, 0))])],
            change_flag: ChangeFlag(true),
        }),
    })
}

#[test]
fn change_flag_set_and_reset() {
    assert!(!ChangeFlag::default().needs_save());
    let mut flag = ChangeFlag::new();
    assert!(!flag.needs_save());
    flag.set();
    assert!(flag.needs_save());
    flag.reset();
    assert!(!flag.needs_save());
}

#[test]
fn handle_needs_sixteen_bit_coordinates() {
    let h = handle(-32768, 32767, 4, -5);
    assert_eq!(h.page(), v(-32768, 32767));
    assert_eq!(h.tile(), v(4, -5));
    assert!(TileDefinitionHandle::try_new(v(32768, 0), v(0, 0)).is_none());
    assert!(TileDefinitionHandle::try_new(v(0, 0), v(0, -32769)).is_none());
}

#[test]
fn position_from_stage() {
    let p = ResourceTilePosition::new(TilePaletteStage::Pages, v(1, 2), v(3, 4));
    assert_eq!(p, ResourceTilePosition::Page(v(3, 4)));
    assert!(p.is_page() && !p.is_tile());
    assert_eq!(p.stage(), TilePaletteStage::Pages);
    assert_eq!(p.stage_position(), v(3, 4));
    assert_eq!(p.page(), v(3, 4));
    assert_eq!(p.handle(), None);

    let t = ResourceTilePosition::new(TilePaletteStage::Tiles, v(1, 2), v(3, 4));
    assert_eq!(t, ResourceTilePosition::Tile(v(1, 2), v(3, 4)));
    assert!(t.is_tile() && !t.is_page());
    assert_eq!(t.stage(), TilePaletteStage::Tiles);
    assert_eq!(t.stage_position(), v(3, 4));
    assert_eq!(t.page(), v(1, 2));
    assert_eq!(t.handle(), Some(handle(1, 2, 3, 4)));
    assert_eq!(ResourceTilePosition::Tile(v(1, 70000), v(3, 4)).handle(), None);
}

#[test]
fn position_from_handle() {
    let p: ResourceTilePosition = handle(7, 8, 9, 10).into();
    assert_eq!(p, ResourceTilePosition::Tile(v(7, 8), v(9, 10)));
    let t = Tile { position: v(1, 1), definition_handle: handle(7, 8, 9, 10) };
    assert_eq!(ResourceTilePosition::from(t.definition_handle), p);
}

#[test]
fn missing_data_is_hot_pink() {
    let d: TileRenderData<()> = TileRenderData::missing_data();
    assert!(d.material_bounds.is_none());
    assert_eq!(d.color, Color { r: 255, g: 105, b: 180, a: 255 });
}

#[test]
fn book_kinds() {
    let empty = TileBook::Empty;
    assert!(empty.is_empty() && !empty.is_tile_set() && !empty.is_brush());
    let set = TileBook::TileSet(tile_set(true, false));
    assert!(set.is_tile_set() && !set.is_empty() && !set.is_brush());
    let b = brush(None);
    assert!(b.is_brush() && !b.is_empty() && !b.is_tile_set());
}

#[test]
fn book_path_and_name() {
    let set = TileBook::TileSet(tile_set(true, false));
    assert_eq!(set.path(), Some("tiles/ground.tileset".to_string()));
    assert_eq!(set.name(), "tiles/ground.tileset");
    assert_eq!(TileBook::Empty.path(), None);
    assert_eq!(TileBook::Empty.name(), "Error");
    assert_eq!(brush(None).name(), "Error");
}

#[test]
fn book_needs_save() {
    assert!(TileBook::TileSet(tile_set(true, true)).needs_save());
    assert!(!TileBook::TileSet(tile_set(true, false)).needs_save());
    assert!(!TileBook::TileSet(tile_set(false, true)).needs_save());
    assert!(!TileBook::Empty.needs_save());
    assert!(brush(None).needs_save());
    let unloaded = TileBook::TileSet(TileSetResource { path: None, external: true, data: None });
    assert!(!unloaded.needs_save());
}

#[test]
fn book_tile_set() {
    let set = TileBook::TileSet(tile_set(true, false));
    assert!(set.tile_set_ref().is_some());
    assert_eq!(set.get_tile_set().unwrap().path, Some("tiles/ground.tileset".to_string()));
    let b = brush(Some(tile_set(false, false)));
    assert!(b.tile_set_ref().is_none());
    assert!(!b.get_tile_set().unwrap().external);
    assert!(!b.is_missing_tile_set());
    let lone = brush(None);
    assert!(lone.get_tile_set().is_none());
    assert!(lone.is_missing_tile_set());
    assert!(!set.is_missing_tile_set());
    assert!(TileBook::Empty.get_tile_set().is_none());
}

#[test]
fn book_positions() {
    let set = TileBook::TileSet(tile_set(true, false));
    assert_eq!(set.get_all_page_positions(), vec![v(0, 0), v(1, 0), v(2, 0), v(0, 0)]);
    assert_eq!(set.get_all_tile_positions(v(0, 0)), vec![v(1, 1), v(2, 1)]);
    assert_eq!(set.get_all_tile_positions(v(9, 9)), vec![]);
    assert_eq!(TileBook::Empty.get_all_page_positions(), vec![]);
    assert_eq!(brush(None).get_all_tile_positions(v(-3, 4)), vec![v(0, 1)]);
}

#[test]
fn book_pages_and_types() {
    let set = TileBook::TileSet(tile_set(true, false));
    assert!(set.has_page_at(v(1, 0)));
    assert!(!set.has_page_at(v(1, 1)));
    assert_eq!(set.page_type(v(0, 0)), Some(PageType::Atlas));
    assert_eq!(set.page_type(v(7, 7)), None);
    assert!(set.is_atlas_page(v(0, 0)));
    assert!(set.is_free_page(v(1, 0)));
    assert!(set.is_transform_page(v(2, 0)));
    assert!(!set.is_brush_page(v(2, 0)));
    let b = brush(None);
    assert_eq!(b.page_type(v(-3, 4)), Some(PageType::Brush));
    assert!(b.is_brush_page(v(-3, 4)));
    assert!(!b.is_atlas_page(v(-3, 4)));
    assert_eq!(TileBook::Empty.page_type(v(0, 0)), None);
    assert_eq!(set.page_icon(v(2, 0)), Some(handle(2, 0, 0, 0)));
    assert_eq!(set.page_icon(v(3, 0)), None);
}

#[test]
fn book_tiles_and_handles() {
    let set = TileBook::TileSet(tile_set(true, false));
    assert!(set.has_tile_at(v(0, 0), v(2, 1)));
    assert!(!set.has_tile_at(v(0, 0), v(9, 9)));
    assert!(!set.has_tile_at(v(5, 0), v(2, 1)));
    assert_eq!(
        set.get_tile_handle(ResourceTilePosition::Tile(v(2, 0), v(5, 5))),
        Some(handle(0, 0, 2, 1))
    );
    assert_eq!(set.get_tile_handle(ResourceTilePosition::Tile(v(2, 0), v(5, 6))), None);
    assert_eq!(set.get_tile_handle(ResourceTilePosition::Page(v(1, 0))), Some(handle(1, 0, 0, 0)));
    let b = brush(None);
    assert_eq!(
        b.get_tile_handle(ResourceTilePosition::Tile(v(-3, 4), v(0, 1))),
        Some(handle(1, 0, 0, 0))
    );
    let unloaded = TileBook::TileSet(TileSetResource { path: None, external: false, data: None });
    assert!(!unloaded.has_page_at(v(0, 0)));
    assert_eq!(unloaded.get_tile_handle(ResourceTilePosition::Page(v(0, 0))), None);
}

#[test]
fn selection_picks_first_tile_map() {
    let plugin = TileMapEditorPlugin {};
    let nodes = vec![
        NodeHandle { index: 1, generation: 1 },
        NodeHandle { index: 4, generation: 2 },
        NodeHandle { index: 9, generation: 1 },
    ];
    let mode = plugin.on_selection_changed(&nodes, &vec![false, true, true]);
    assert_eq!(mode, Some(TileMapInteractionMode::new(NodeHandle { index: 4, generation: 2 })));
    assert_eq!(mode.unwrap().tile_map(), NodeHandle { index: 4, generation: 2 });
    assert_eq!(plugin.on_selection_changed(&nodes, &vec![false, false, false]), None);
    assert_eq!(plugin.on_selection_changed(&vec![], &vec![]), None);
}

#[test]
fn save_writes_changed_external_book_and_marks_it_saved() {
    let writes = Cell::new(0usize);
    let mut book = TileBook::TileSet(tile_set(true, true));
    let r: Result<(), String> = book.save(|b| {
        assert!(b.needs_save());
        writes.set(writes.get() + 1);
        Ok(())
    });
    assert_eq!(r, Ok(()));
    assert_eq!(writes.get(), 1);
    assert!(!book.needs_save());
    assert_eq!(book.get_all_page_positions().len(), 4);

    let r: Result<(), String> = book.save(|_| {
        writes.set(writes.get() + 1);
        Ok(())
    });
    assert_eq!(r, Ok(()));
    assert_eq!(writes.get(), 1);
}

#[test]
fn save_failure_keeps_book_changed() {
    let mut book = brush(None);
    let r = book.save(|_| Err("disk full".to_string()));
    assert_eq!(r, Err("disk full".to_string()));
    assert!(book.needs_save());
}

#[test]
fn save_skips_unchanged_or_embedded_books() {
    let writes = Cell::new(0usize);
    for mut book in [
        TileBook::Empty,
        TileBook::TileSet(tile_set(false, true)),
        TileBook::TileSet(tile_set(true, false)),
    ] {
        let r: Result<(), ()> = book.save(|_| {
            writes.set(writes.get() + 1);
            Err(())
        });
        assert_eq!(r, Ok(()));
    }
    assert_eq!(writes.get(), 0);
}

#[test]
fn bounds_of_positions() {
    assert_eq!(bounds_of(&vec![]), None);
    assert_eq!(bounds_of(&vec![v(3, -2)]), Some(TileRect { min: v(3, -2), max: v(3, -2) }));
    assert_eq!(
        bounds_of(&vec![v(3, -2), v(-1, 5), v(0, 0), v(7, 1)]),
        Some(TileRect { min: v(-1, -2), max: v(7, 5) })
    );
    assert_eq!(
        bounds_of(&vec![v(i32::MIN, i32::MAX), v(i32::MAX, i32::MIN)]),
        Some(TileRect { min: v(i32::MIN, i32::MIN), max: v(i32::MAX, i32::MAX) })
    );
}

#[test]
fn book_tiles_bounds() {
    let set = TileBook::TileSet(tile_set(true, false));
    assert_eq!(
        set.tiles_bounds(TilePaletteStage::Pages, v(100, 100)),
        Some(TileRect { min: v(0, 0), max: v(2, 0) })
    );
    assert_eq!(
        set.tiles_bounds(TilePaletteStage::Tiles, v(0, 0)),
        Some(TileRect { min: v(1, 1), max: v(2, 1) })
    );
    assert_eq!(set.tiles_bounds(TilePaletteStage::Tiles, v(8, 8)), None);
    assert_eq!(TileBook::Empty.tiles_bounds(TilePaletteStage::Pages, v(0, 0)), None);
}

#[test]
fn book_tile_iter_keeps_positions_with_tiles() {
    let set = TileBook::TileSet(tile_set(true, false));
    let tiles = set.get_tile_iter(TilePaletteStage::Tiles, v(0, 0), &vec![v(2, 1), v(4, 4), v(1, 1)]);
    assert_eq!(tiles, vec![(v(2, 1), handle(0, 0, 2, 1)), (v(1, 1), handle(0, 0, 1, 1))]);
    let pages = set.get_tile_iter(TilePaletteStage::Pages, v(9, 9), &vec![v(1, 0), v(5, 0)]);
    assert_eq!(pages, vec![(v(1, 0), handle(1, 0, 0, 0))]);
    assert!(TileBook::Empty.get_tile_iter(TilePaletteStage::Tiles, v(0, 0), &vec![v(0, 0)]).is_empty());
}

#[test]
fn property_error_messages() {
    assert_eq!(TilePropertyError::MissingTileSet.message(), "The tile map has no tile set.");
    assert_eq!(TilePropertyError::TileSetNotLoaded.message(), "The tile map's tile set is not loaded.");
    assert_eq!(
        TilePropertyError::UnrecognizedName("friction".to_string()).message(),
        "There is no property with this name: friction"
    );
    assert_eq!(
        TilePropertyError::UnrecognizedUuid(0x67e5504410b1426f9247bb680e5fe0c8).message(),
        "There is no property with this UUID: 67e55044-10b1-426f-9247-bb680e5fe0c8"
    );
    assert_eq!(
        TilePropertyError::UnrecognizedUuid(0).message(),
        "There is no property with this UUID: 00000000-0000-0000-0000-000000000000"
    );
    assert_eq!(
        TilePropertyError::WrongType("expected an integer".to_string()).message(),
        "Property type error: expected an integer"
    );
}
