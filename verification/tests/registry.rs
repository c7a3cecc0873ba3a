use ugui_r_rs::controls::button::{button_style, ButtonState};
use ugui_r_rs::controls::visual_state::VisualState;
use ugui_r_rs::window::UserData;
use ugui_r_rs::controls::window::window_style;
use ugui_r_rs::messages::Message;
use ugui_r_rs::rect::Rect;
use ugui_r_rs::styles::{StyleSet, Styles};
use ugui_r_rs::ugui::Ugui;
use ugui_r_rs::window::Procedure;

fn root(ui: &mut Ugui) -> usize {
    ui.create_window(
        "WINDOW".to_string(),
        "root".to_string(),
        window_style(),
        Rect::new(0, 0, 640, 480),
        None,
        Procedure::TopLevel,
    )
    .unwrap()
}

fn child(ui: &mut Ugui, parent: usize, rect: Rect) -> usize {
    ui.create_window(
        "BUTTON".to_string(),
        "b".to_string(),
        button_style(),
        rect,
        Some(parent),
        Procedure::Button,
    )
    .unwrap()
}

#[test]
fn create_rejects_dead_parent() {
    let mut ui = Ugui::new();
    let r = ui.create_window(
        "WINDOW".to_string(),
        "w".to_string(),
        window_style(),
        Rect::new(0, 0, 10, 10),
        Some(42),
        Procedure::TopLevel,
    );
    assert_eq!(r, None);
    let _ = root(&mut ui);
}

#[test]
fn handles_are_never_reused() {
    let mut ui = Ugui::new();
    let r = root(&mut ui);
    let a = child(&mut ui, r, Rect::new(0, 0, 5, 5));
    ui.destroy_window(a);
    let b = child(&mut ui, r, Rect::new(0, 0, 5, 5));
    assert_ne!(a, b, "a destroyed handle must not come back");
    assert_ne!(b, r);
}

#[test]
fn accessors_return_what_was_created() {
    let mut ui = Ugui::new();
    let r = root(&mut ui);
    let a = child(&mut ui, r, Rect::new(3, 4, 5, 6));
    assert_eq!(ui.root_hwnd(), r);
    assert_eq!(ui.get_window_rect(a), Rect::new(3, 4, 5, 6));
    assert_eq!(ui.get_parent(a), Some(r));
    assert_eq!(ui.get_parent(r), None);
    assert_eq!(ui.get_caption(a), "b".to_string());
    assert!(ui.get_styles(a).contains(Styles::Visible));
    assert!(ui.get_styles(a).contains(Styles::Enabled));
    assert!(ui.get_styles(a).contains(Styles::Focusable));
    assert!(!ui.get_window_style(r).contains(Styles::Focusable));
}

#[test]
fn get_children_returns_all_descendants() {
    let mut ui = Ugui::new();
    let r = root(&mut ui);
    let a = child(&mut ui, r, Rect::new(0, 0, 5, 5));
    let b = child(&mut ui, a, Rect::new(1, 1, 2, 2));
    let c = child(&mut ui, r, Rect::new(6, 6, 2, 2));
    assert_eq!(ui.get_children(r), vec![a, b, c]);
    assert_eq!(ui.get_children(a), vec![b]);
    assert_eq!(ui.get_children(b), Vec::<usize>::new());
}

#[test]
fn set_caption_and_rect_take_effect() {
    let mut ui = Ugui::new();
    let r = root(&mut ui);
    let a = child(&mut ui, r, Rect::new(3, 4, 5, 6));
    ui.set_caption(a, "hello".to_string());
    assert_eq!(ui.get_caption(a), "hello".to_string());
    ui.set_window_rect(a, Rect::new(7, 8, 9, 10));
    assert_eq!(ui.get_window_rect(a), Rect::new(7, 8, 9, 10));
}

#[test]
fn style_change_notifies_window() {
    let mut ui = Ugui::new();
    let r = root(&mut ui);
    let a = child(&mut ui, r, Rect::new(0, 0, 5, 5));
    // Disabling a button resets its stored state to the disabled visual.
    ui.set_window_style(a, StyleSet { visible: true, enabled: false, focusable: true });
    assert_eq!(
        ui.get_data(a),
        Some(UserData::Button(ButtonState { visual_state: VisualState::Disabled }))
    );
}

#[test]
fn destroy_removes_only_the_target() {
    let mut ui = Ugui::new();
    let r = root(&mut ui);
    let a = child(&mut ui, r, Rect::new(0, 0, 5, 5));
    let b = child(&mut ui, r, Rect::new(6, 0, 5, 5));
    ui.destroy_window(a);
    assert_eq!(ui.get_window_rect(b), Rect::new(6, 0, 5, 5));
    assert_eq!(ui.send_message(a, Message::MouseMove), 0);
    assert_eq!(ui.get_children(r), vec![b]);
}

#[test]
fn capture_refused_for_invalid_holder() {
    let mut ui = Ugui::new();
    let r = root(&mut ui);
    let a = child(&mut ui, r, Rect::new(0, 0, 5, 5));
    ui.capture_mouse(a);
    assert_eq!(ui.get_capture(), Some(a));
    // An invisible window may not hold the capture.
    ui.set_window_style(a, StyleSet { visible: false, enabled: true, focusable: true });
    assert_eq!(ui.get_capture(), None);
    ui.capture_mouse(a);
    assert_eq!(ui.get_capture(), None);
    ui.capture_mouse(r);
    ui.uncapture_mouse(r);
    assert_eq!(ui.get_capture(), None);
}

#[test]
fn root_resize_updates_bounds() {
    let mut ui = Ugui::new();
    let r = root(&mut ui);
    ui.root_resized(800, 600);
    assert_eq!(ui.get_window_rect(r), Rect::new(0, 0, 800, 600));
    // The full new area was invalidated, so this tick composites.
    let _ = ui.tick();
    assert!(ui.tick().is_none());
}
