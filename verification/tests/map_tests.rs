use dread_crawler::geometry::{Point, Rect};
use dread_crawler::map::{map_idx, TileMap, TileType, NUM_TILES, SCREEN_HEIGHT, SCREEN_WIDTH};

#[test]
fn new_map_is_all_floor() {
    let m = TileMap::new();
    assert_eq!(m.tiles.len(), NUM_TILES);
    assert!(m.tiles.iter().all(|t| *t == TileType::Floor));
    assert_eq!(NUM_TILES as i32, SCREEN_WIDTH * SCREEN_HEIGHT);
}

#[test]
fn index_and_point_convert_both_ways() {
    let m = TileMap::new();
    assert_eq!(m.point2d_to_index(Point::new(3, 2)), 163);
    assert_eq!(m.index_to_point2d(163), Point::new(3, 2));
    assert_eq!(m.index_to_point2d(0), Point::new(0, 0));
    assert_eq!(m.index_to_point2d(3999), Point::new(79, 49));
    assert_eq!(map_idx(79, 49), 3999);
    for i in 0..NUM_TILES {
        assert_eq!(m.point2d_to_index(m.index_to_point2d(i)), i);
    }
}

#[test]
fn bounds_of_the_map() {
    let m = TileMap::new();
    assert!(m.in_bounds(Point::new(0, 0)));
    assert!(m.in_bounds(Point::new(79, 49)));
    assert!(!m.in_bounds(Point::new(80, 0)));
    assert!(!m.in_bounds(Point::new(0, 50)));
    assert!(!m.in_bounds(Point::new(-1, 3)));
}

#[test]
fn rect_with_size_and_cover() {
    let r = Rect::with_size(2, 3, 12, 11);
    assert_eq!(r, Rect { x1: 2, y1: 3, x2: 14, y2: 14 });
    assert!(r.point_in_rect(Point::new(2, 3)));
    assert!(r.point_in_rect(Point::new(13, 13)));
    assert!(!r.point_in_rect(Point::new(14, 13)));
    assert!(!r.point_in_rect(Point::new(1, 5)));
    assert_eq!(Point::zero(), Point::new(0, 0));
}
