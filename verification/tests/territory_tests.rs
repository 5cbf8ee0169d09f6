use bevy_granite::workbench::territory::{
    border_extent, border_grid_area, border_shade_on, BorderExtent, BorderShade, Cardinal,
    GridArea, GridSpan, PointerEvent, TERRITORY_TRACKS, territory_has_parent,
};

fn covered(r: u16, c: u16) -> bool {
    [Cardinal::North, Cardinal::East, Cardinal::South, Cardinal::West].iter().any(|&s| {
        let a = border_grid_area(s);
        a.rows.start <= r && r < a.rows.end && a.columns.start <= c && c < a.columns.end
    })
}

#[test]
fn border_areas() {
    let full = GridSpan { start: 1, end: 6 };
    assert_eq!(border_grid_area(Cardinal::North), GridArea { rows: GridSpan { start: 1, end: 2 }, columns: full });
    assert_eq!(border_grid_area(Cardinal::East), GridArea { rows: full, columns: GridSpan { start: 5, end: 6 } });
    assert_eq!(border_grid_area(Cardinal::South), GridArea { rows: GridSpan { start: 5, end: 6 }, columns: full });
    assert_eq!(border_grid_area(Cardinal::West), GridArea { rows: full, columns: GridSpan { start: 1, end: 2 } });
}

#[test]
fn borders_cover_exactly_the_rim() {
    for r in 1..=TERRITORY_TRACKS {
        for c in 1..=TERRITORY_TRACKS {
            let rim = r == 1 || r == 5 || c == 1 || c == 5;
            assert_eq!(covered(r, c), rim, "cell {r},{c}");
        }
    }
}

#[test]
fn border_extents_follow_rect_edges() {
    let (min_x, min_y, max_x, max_y) = (0.1f32, 0.2f32, 0.7f32, 0.9f32);
    assert_eq!(
        border_extent(Cardinal::North, min_x, min_y, max_x, max_y),
        BorderExtent { pos: 0.2, start_point: 0.1, end_point: 0.7 }
    );
    assert_eq!(
        border_extent(Cardinal::East, min_x, min_y, max_x, max_y),
        BorderExtent { pos: 0.7, start_point: 0.2, end_point: 0.9 }
    );
    assert_eq!(
        border_extent(Cardinal::South, min_x, min_y, max_x, max_y),
        BorderExtent { pos: 0.9, start_point: 0.1, end_point: 0.7 }
    );
    assert_eq!(
        border_extent(Cardinal::West, min_x, min_y, max_x, max_y),
        BorderExtent { pos: 0.1, start_point: 0.2, end_point: 0.9 }
    );
}

#[test]
fn opposite_borders_share_span() {
    let n = border_extent(Cardinal::North, 1, 2, 30, 40);
    let s = border_extent(Cardinal::South, 1, 2, 30, 40);
    assert_eq!((n.start_point, n.end_point), (s.start_point, s.end_point));
    let e = border_extent(Cardinal::East, 1, 2, 30, 40);
    let w = border_extent(Cardinal::West, 1, 2, 30, 40);
    assert_eq!((e.start_point, e.end_point), (w.start_point, w.end_point));
}

#[test]
fn border_shades() {
    assert_eq!(border_shade_on(None), BorderShade::Idle);
    assert_eq!(border_shade_on(Some(PointerEvent::Over)), BorderShade::Hover);
    assert_eq!(border_shade_on(Some(PointerEvent::Move)), BorderShade::Hover);
    assert_eq!(border_shade_on(Some(PointerEvent::Out)), BorderShade::Idle);
    assert_eq!(border_shade_on(Some(PointerEvent::Down)), BorderShade::Click);
    assert_eq!(border_shade_on(Some(PointerEvent::Up)), BorderShade::Hover);
}

#[test]
fn territory_needs_single_ordonnance_stratum() {
    assert!(territory_has_parent(1));
    assert!(!territory_has_parent(0));
    assert!(!territory_has_parent(2));
}

#[test]
fn border_extents_ordered_and_sized() {
    let (min_x, min_y, max_x, max_y) = (3i32, 4i32, 10i32, 20i32);
    for side in [Cardinal::North, Cardinal::East, Cardinal::South, Cardinal::West] {
        let e = border_extent(side, min_x, min_y, max_x, max_y);
        assert!(e.start_point <= e.end_point);
    }
    let n = border_extent(Cardinal::North, min_x, min_y, max_x, max_y);
    let s = border_extent(Cardinal::South, min_x, min_y, max_x, max_y);
    let e = border_extent(Cardinal::East, min_x, min_y, max_x, max_y);
    let w = border_extent(Cardinal::West, min_x, min_y, max_x, max_y);
    assert_eq!(n.end_point - n.start_point, max_x - min_x);
    assert_eq!(s.end_point - s.start_point, max_x - min_x);
    assert_eq!(e.end_point - e.start_point, max_y - min_y);
    assert_eq!(w.end_point - w.start_point, max_y - min_y);
    assert!(n.pos <= s.pos);
    assert!(w.pos <= e.pos);
}
