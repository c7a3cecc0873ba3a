use ugui_r_rs::point::Point;
use ugui_r_rs::rect::Rect;
use ugui_r_rs::styles::StyleSet;
use ugui_r_rs::util::{
    fix_dependent_focus_handle, fix_dependent_visual_handle, get_window_handles_inside_rect,
    window_at_point, window_from_hwnd, window_from_hwnd_safe,
};
use ugui_r_rs::window::{Procedure, Window};

fn win(hwnd: usize, rect: Rect, styles: StyleSet) -> Window {
    Window {
        hwnd,
        class: "W".to_string(),
        caption: String::new(),
        styles,
        rect,
        parent: None,
        procedure: Procedure::Silent,
        user_data: None,
    }
}

fn visible() -> StyleSet {
    StyleSet { visible: true, enabled: true, focusable: false }
}

#[test]
fn hit_test_prefers_topmost_visible() {
    let windows = vec![
        win(0, Rect::new(0, 0, 100, 100), visible()),
        win(1, Rect::new(10, 10, 30, 30), visible()),
        win(2, Rect::new(10, 10, 30, 30), StyleSet { visible: false, enabled: true, focusable: false }),
    ];
    // Both 0 and 1 contain the point; 1 was created later; 2 is invisible.
    let hit = window_at_point(&windows, Point::new_i(20, 20)).unwrap();
    assert_eq!(hit.hwnd, 1);
    assert!(window_at_point(&windows, Point::new_i(500, 500)).is_none());
}

#[test]
fn lookup_by_handle() {
    let windows = vec![
        win(4, Rect::new(0, 0, 10, 10), visible()),
        win(7, Rect::new(5, 5, 10, 10), visible()),
    ];
    assert_eq!(window_from_hwnd_safe(&windows, 7).unwrap().hwnd, 7);
    assert!(window_from_hwnd_safe(&windows, 5).is_none());
    assert_eq!(window_from_hwnd(&windows, 4).rect, Rect::new(0, 0, 10, 10));
}

#[test]
fn dependent_handles_self_heal() {
    let windows = vec![
        win(0, Rect::new(0, 0, 10, 10), visible()),
        win(1, Rect::new(0, 0, 10, 10), StyleSet { visible: true, enabled: false, focusable: true }),
        win(2, Rect::new(0, 0, 10, 10), StyleSet { visible: true, enabled: true, focusable: true }),
    ];
    assert_eq!(fix_dependent_visual_handle(&windows, None), None);
    assert_eq!(fix_dependent_visual_handle(&windows, Some(0)), Some(0));
    assert_eq!(fix_dependent_visual_handle(&windows, Some(1)), None, "disabled");
    assert_eq!(fix_dependent_visual_handle(&windows, Some(9)), None, "not live");
    // Focus additionally demands focusability.
    assert_eq!(fix_dependent_focus_handle(&windows, Some(0)), None);
    assert_eq!(fix_dependent_focus_handle(&windows, Some(2)), Some(2));
}

#[test]
fn windows_inside_rect_by_intersection() {
    let windows = vec![
        win(0, Rect::new(0, 0, 10, 10), visible()),
        win(1, Rect::new(50, 50, 10, 10), visible()),
        win(2, Rect::new(8, 8, 10, 10), visible()),
    ];
    let hits = get_window_handles_inside_rect(&windows, Rect::new(0, 0, 12, 12));
    assert_eq!(hits, vec![0, 2]);
}
