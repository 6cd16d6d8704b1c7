use tileview::camera::{Camera, DEFAULT_ZOOM, MAX_ZOOM, MIN_ZOOM, ZOOM_STEP};
use tileview::input::{Direction, Flow, InputEvent};
use tileview::point::Point2;
use tileview::rect::Rect;
use tileview::render_game::RenderGame;
use tileview::size::Size;
use tileview::viewport::{scale_tile, screen_to_tile, tile_to_screen, visible_tiles};

#[test]
fn camera_starts_at_default_zoom() {
    let c = Camera::new(3, -4);
    assert_eq!((c.x(), c.y(), c.zoom()), (3, -4, DEFAULT_ZOOM));
}

#[test]
fn camera_zoom_stays_in_range() {
    let mut c = Camera::new(0, 0);
    for _ in 0..50 {
        c.zoom_in();
        assert!(MIN_ZOOM <= c.zoom() && c.zoom() <= MAX_ZOOM);
    }
    assert_eq!(c.zoom(), MAX_ZOOM);
    for _ in 0..50 {
        c.zoom_out();
        assert!(MIN_ZOOM <= c.zoom() && c.zoom() <= MAX_ZOOM);
    }
    assert_eq!(c.zoom(), MIN_ZOOM);
    c.zoom_in();
    assert_eq!(c.zoom(), MIN_ZOOM + ZOOM_STEP);
}

#[test]
fn camera_pans_without_bounds() {
    let mut c = Camera::new(0, 0);
    c.add_xy(-7, 12);
    c.add_xy(2, -2);
    assert_eq!((c.x(), c.y()), (-5, 10));
}

#[test]
fn tile_scaling_rounds_down_to_at_least_one_pixel() {
    assert_eq!(scale_tile(Size::new(32, 10), 150), Size::new(48u64, 15u64));
    assert_eq!(scale_tile(Size::new(3, 1), 25), Size::new(1u64, 1u64));
}

#[test]
fn visible_tiles_rounds_outward() {
    // 800 / 32 = 25 tiles across, 12.5 each side, so 13 each side.
    let c = Camera::new(100, 50);
    let r = visible_tiles(Size::new(800, 600), Size::new(32, 32), &c);
    assert_eq!(r, Rect::new(87i64, 40i64, 26i64, 20i64));
}

#[test]
fn visible_tiles_holds_camera_and_covers_window() {
    let mut c = Camera::new(-3, 7);
    for _ in 0..20 {
        let r = visible_tiles(Size::new(1000, 333), Size::new(17, 9), &c);
        let tile = scale_tile(Size::new(17, 9), c.zoom());
        assert!(r.x <= -3 && -3 < r.x + r.width);
        assert!(r.y <= 7 && 7 < r.y + r.height);
        assert!(r.width as u64 >= (1000 + tile.width - 1) / tile.width);
        assert!(r.height as u64 >= (333 + tile.height - 1) / tile.height);
        c.zoom_in();
    }
}

#[test]
fn visible_tiles_with_tile_larger_than_window() {
    let c = Camera::new(0, 0);
    let r = visible_tiles(Size::new(10, 10), Size::new(100, 100), &c);
    assert_eq!(r, Rect::new(-1i64, -1i64, 2i64, 2i64));
}

#[test]
fn tile_to_screen_places_focus_at_window_centre() {
    let c = Camera::new(10, 20);
    let w = Size::new(800, 600);
    let t = Size::new(32, 16);
    assert_eq!(tile_to_screen(w, t, &c, Point2::new(10, 20)), Some(Point2::new(400i64, 300i64)));
    assert_eq!(tile_to_screen(w, t, &c, Point2::new(12, 19)), Some(Point2::new(464i64, 284i64)));
}

#[test]
fn screen_to_tile_snaps_to_the_cell() {
    let c = Camera::new(0, 0);
    let w = Size::new(800, 600);
    let t = Size::new(32, 32);
    // The focus tile spans 384..416 by 284..316.
    assert_eq!(screen_to_tile(w, t, &c, Point2::new(400, 300)), Rect::new(384i64, 284i64, 32, 32));
    assert_eq!(screen_to_tile(w, t, &c, Point2::new(383, 316)), Rect::new(352i64, 316i64, 32, 32));
    assert_eq!(screen_to_tile(w, t, &c, Point2::new(-1, 0)), Rect::new(-32i64, -4i64, 32, 32));
}

#[test]
fn screen_round_trip_recovers_the_tile_cell() {
    let mut c = Camera::new(5, -5);
    c.zoom_out();
    let w = Size::new(640, 480);
    let t = Size::new(24, 40);
    for (x, y) in [(5, -5), (0, 0), (-7, 3), (12, -9)] {
        let centre = tile_to_screen(w, t, &c, Point2::new(x, y)).unwrap();
        let cell = screen_to_tile(w, t, &c, Point2::new(centre.x as i32, centre.y as i32));
        assert_eq!(cell.x, centre.x - cell.width / 2);
        assert_eq!(cell.y, centre.y - cell.height / 2);
        assert!(cell.contains(Point2::new(centre.x - cell.width / 2, centre.y - cell.height / 2)));
    }
}

#[test]
fn render_game_starts_at_world_centre() {
    let g = RenderGame::new(Size::new(800, 600), Size::new(32, 32), Size::new(100, 51));
    assert_eq!(g.visible_tiles(), Rect::new(37i64, 15i64, 26i64, 20i64));
    assert_eq!(g.tile_position(Point2::new(50, 25)), Some(Point2::new(400i64, 300i64)));
}

#[test]
fn render_game_reacts_to_input() {
    let mut g = RenderGame::new(Size::new(800, 600), Size::new(32, 32), Size::new(0, 0));
    g.move_camera(3, -2);
    assert_eq!(g.tile_position(Point2::new(3, -2)), Some(Point2::new(400i64, 300i64)));
    g.on_mouse_scroll(1);
    assert_eq!(g.tile_pixels(), Size::new(40i64, 40i64));
    g.on_mouse_scroll(-1);
    g.on_mouse_scroll(-1);
    assert_eq!(g.tile_pixels(), Size::new(24i64, 24i64));
    g.on_mouse_scroll(0);
    assert_eq!(g.tile_pixels(), Size::new(24i64, 24i64));
    g.on_resize(100, 50);
    assert_eq!(g.tile_position(Point2::new(3, -2)), Some(Point2::new(50i64, 25i64)));
}

#[test]
fn tile_and_player_rectangles_are_centred() {
    let g = RenderGame::new(Size::new(800, 600), Size::new(32, 32), Size::new(0, 0));
    let (back, front) = g.tile_rects(Point2::new(100, 200), Size::new(40, 20));
    assert_eq!(back, Rect::new(80, 190, 40, 20));
    assert_eq!(front, Rect::new(90, 195, 20, 10));
    assert_eq!(g.player_rect(Point2::new(100, 200), Size::new(40, 20)), Rect::new(80, 190, 40, 20));
}

#[test]
fn highlight_sits_inside_the_tile() {
    let g = RenderGame::new(Size::new(800, 600), Size::new(32, 32), Size::new(0, 0));
    let outer = g.translate_window_to_tile_xy(Point2::new(400, 300));
    let inner = g.translate_window_to_tile_xy_inner(Point2::new(400, 300));
    assert_eq!(outer, Rect::new(384, 284, 32, 32));
    assert_eq!(inner, Rect::new(386, 286, 28, 28));
}

#[test]
fn tile_to_screen_is_none_when_it_does_not_fit() {
    let c = Camera::new(i32::MIN, 0);
    let t = Size::new(u32::MAX, 1);
    assert_eq!(tile_to_screen(Size::new(800, 600), t, &c, Point2::new(i32::MAX, 0)), None);
    assert!(tile_to_screen(Size::new(800, 600), t, &c, Point2::new(i32::MIN, 0)).is_some());
}

#[test]
fn events_pan_zoom_resize_and_quit() {
    let mut g = RenderGame::new(Size::new(800, 600), Size::new(32, 32), Size::new(20, 10));
    assert_eq!(g.handle_event(InputEvent::Key(Direction::Left)), Flow::Continue);
    assert_eq!(g.handle_event(InputEvent::Key(Direction::Up)), Flow::Continue);
    assert_eq!((g.camera().x(), g.camera().y()), (9, 4));
    g.handle_event(InputEvent::Key(Direction::Right));
    g.handle_event(InputEvent::Key(Direction::Right));
    g.handle_event(InputEvent::Key(Direction::Down));
    assert_eq!((g.camera().x(), g.camera().y()), (11, 5));
    g.handle_event(InputEvent::Wheel { y: 3, flipped: false });
    assert_eq!(g.camera().zoom(), DEFAULT_ZOOM + ZOOM_STEP);
    g.handle_event(InputEvent::Wheel { y: 1, flipped: true });
    g.handle_event(InputEvent::Wheel { y: i32::MIN, flipped: true });
    assert_eq!(g.camera().zoom(), DEFAULT_ZOOM + ZOOM_STEP);
    g.handle_event(InputEvent::Wheel { y: 0, flipped: true });
    assert_eq!(g.camera().zoom(), DEFAULT_ZOOM + ZOOM_STEP);
    g.handle_event(InputEvent::Resized { width: 100, height: 50 });
    assert_eq!(g.tile_position(Point2::new(11, 5)), Some(Point2::new(50i64, 25i64)));
    assert_eq!(g.handle_event(InputEvent::Other), Flow::Continue);
    assert_eq!(g.handle_event(InputEvent::Quit), Flow::Stop);
}

#[test]
fn render_places_each_tile_and_the_player() {
    let g = RenderGame::new(Size::new(800, 600), Size::new(32, 16), Size::new(20, 10));
    let tiles = vec![Point2::new(10, 5), Point2::new(11, 4), Point2::new(i32::MAX, 0)];
    let frame = g.render(&tiles, Point2::new(9, 5));
    assert_eq!(frame.tiles.len(), 3);
    assert_eq!(frame.tiles[0], Some((Rect::new(384, 292, 32, 16), Rect::new(392, 296, 16, 8))));
    assert_eq!(frame.tiles[1], Some((Rect::new(416, 276, 32, 16), Rect::new(424, 280, 16, 8))));
    assert!(frame.tiles[2].is_some());
    assert_eq!(frame.player, Some(Rect::new(352, 292, 32, 16)));
    let empty = g.render(&vec![], Point2::new(10, 5));
    assert!(empty.tiles.is_empty());
    assert_eq!(empty.player, Some(Rect::new(384, 292, 32, 16)));
}
