use prism_client::stream_view::{
    button_edge, draw_crosshair, ButtonEdge, ReconnectDecision, ReconnectPolicy, CURSOR_COLOR,
};

#[test]
fn crosshair_marks_middle_rows_and_columns() {
    let (w, h) = (10usize, 10usize);
    let mut buf = vec![0u32; w * h];
    draw_crosshair(&mut buf, w, h, 1, 1);
    for y in 0..h {
        for x in 0..w {
            let inside = (1..9).contains(&x) && (1..9).contains(&y);
            let on_cross = inside && (x == 4 || x == 5 || y == 4 || y == 5);
            let want = if on_cross { CURSOR_COLOR } else { 0 };
            assert_eq!(buf[y * w + x], want, "pixel ({x},{y})");
        }
    }
}

#[test]
fn crosshair_is_clipped_at_edges() {
    let (w, h) = (6usize, 5usize);
    let mut buf = vec![7u32; w * h];
    draw_crosshair(&mut buf, w, h, 4, 3);
    // The bars at offsets 3 and 4 fall at x = 7, 8 and y = 6, 7, all
    // outside the 6x5 window, so nothing is drawn.
    assert_eq!(buf.len(), w * h);
    assert!(buf.iter().all(|p| *p == 7));
    let mut buf = vec![0u32; w * h];
    draw_crosshair(&mut buf, w, h, 0, 0);
    // Only the vertical bar at x = 3, 4 and the row y = 3, 4 fit.
    assert_eq!(buf[0 * w + 3], CURSOR_COLOR);
    assert_eq!(buf[3 * w + 0], CURSOR_COLOR);
    assert_eq!(buf[1 * w + 1], 0);
    let mut empty: Vec<u32> = Vec::new();
    draw_crosshair(&mut empty, 0, 0, 0, 0);
    assert!(empty.is_empty());
}

#[test]
fn button_edges() {
    assert_eq!(button_edge(true, false), Some(ButtonEdge::Pressed));
    assert_eq!(button_edge(false, true), Some(ButtonEdge::Released));
    assert_eq!(button_edge(true, true), None);
    assert_eq!(button_edge(false, false), None);
}

#[test]
fn reconnect_gives_up_after_one_hundred_failures() {
    let mut p = ReconnectPolicy::new();
    // 100 attempts in all: the first 99 failures retry, the 100th gives up.
    for _ in 0..99 {
        assert_eq!(p.on_failure(), ReconnectDecision::RetryAfter(3));
    }
    assert_eq!(p.on_failure(), ReconnectDecision::GiveUp);
}
