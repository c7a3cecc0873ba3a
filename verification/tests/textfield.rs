use ugui_r_rs::color::Color;
use ugui_r_rs::controls::textbox::{textbox_style, TextboxState};
use ugui_r_rs::controls::visual_state::VisualState;
use ugui_r_rs::controls::window::window_style;
use ugui_r_rs::point::Point;
use ugui_r_rs::rect::Rect;
use ugui_r_rs::ugui::Ugui;
use ugui_r_rs::window::{Procedure, UserData};

fn setup() -> (Ugui, usize, usize) {
    let mut ui = Ugui::new();
    let r = ui
        .create_window(
            "WINDOW".to_string(),
            "root".to_string(),
            window_style(),
            Rect::new(0, 0, 640, 480),
            None,
            Procedure::TopLevel,
        )
        .unwrap();
    let t = ui
        .create_window(
            "TEXTBOX".to_string(),
            String::new(),
            textbox_style(),
            Rect::new(10, 10, 120, 24),
            Some(r),
            Procedure::Textbox,
        )
        .unwrap();
    let _ = ui.tick();
    (ui, r, t)
}

#[test]
fn textbox_focus_turns_border_accented() {
    let (mut ui, _r, t) = setup();
    ui.pointer_pressed(Point::new_i(15, 15));
    let _ = ui.tick();
    assert_eq!(ui.get_focus(), Some(t));
    assert_eq!(
        ui.get_data(t),
        Some(UserData::Textbox(TextboxState { visual_state: VisualState::Active }))
    );
    // The repaint the focus change requested shows the accent border on the
    // white face.
    ui.invalidate_hwnd(t);
    let (quads, _) = ui.tick().unwrap();
    assert!(quads.iter().any(|q| q.rect == Rect::new(10, 10, 120, 24)
        && q.back_color == Color::rgb(255, 255, 255)
        && q.border_color == Color::rgb(0, 120, 215)));
}

#[test]
fn textbox_hover_only_from_normal() {
    let (mut ui, _r, t) = setup();
    // Enter from the root: Normal turns Hover.
    ui.pointer_moved(Point::new_i(300, 300));
    let _ = ui.tick();
    ui.pointer_moved(Point::new_i(15, 15));
    let _ = ui.tick();
    assert_eq!(
        ui.get_data(t),
        Some(UserData::Textbox(TextboxState { visual_state: VisualState::Hover }))
    );
    // Focus it; leaving no longer resets the visual state, since it is not
    // in its hover state.
    ui.pointer_pressed(Point::new_i(15, 15));
    let _ = ui.tick();
    ui.pointer_released();
    let _ = ui.tick();
    ui.pointer_moved(Point::new_i(300, 300));
    let _ = ui.tick();
    assert_eq!(
        ui.get_data(t),
        Some(UserData::Textbox(TextboxState { visual_state: VisualState::Active }))
    );
}

#[test]
fn textbox_holds_capture_while_pressed() {
    let (mut ui, _r, t) = setup();
    ui.pointer_pressed(Point::new_i(15, 15));
    let _ = ui.tick();
    assert_eq!(ui.get_capture(), Some(t));
    ui.pointer_released();
    let _ = ui.tick();
    assert_eq!(ui.get_capture(), None);
}

#[test]
fn disabled_textbox_paints_muted_border() {
    let (mut ui, _r, t) = setup();
    ui.set_window_style(
        t,
        ugui_r_rs::styles::StyleSet { visible: true, enabled: false, focusable: true },
    );
    assert_eq!(
        ui.get_data(t),
        Some(UserData::Textbox(TextboxState { visual_state: VisualState::Disabled }))
    );
    let (quads, _) = ui.tick().unwrap();
    assert!(quads.iter().any(|q| q.back_color == Color::rgb(255, 255, 255)
        && q.border_color == Color::rgb(204, 204, 204)));
}
