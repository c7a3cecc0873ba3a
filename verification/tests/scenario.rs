use ugui_r_rs::controls::button::button_style;
use ugui_r_rs::controls::visual_state::VisualState;
use ugui_r_rs::controls::window::window_style;
use ugui_r_rs::messages::Message;
use ugui_r_rs::point::Point;
use ugui_r_rs::rect::Rect;
use ugui_r_rs::styles::StyleSet;
use ugui_r_rs::ugui::Ugui;
use ugui_r_rs::window::{Procedure, UserData};

fn setup_root_and_button() -> (Ugui, usize, usize) {
    let mut ui = Ugui::new();
    let r = ui
        .create_window(
            "WINDOW".to_string(),
            "root".to_string(),
            window_style(),
            Rect::new(0, 0, 640, 480),
            None,
            Procedure::TopLevel,
        )
        .unwrap();
    let b = ui
        .create_window(
            "BUTTON".to_string(),
            "ok".to_string(),
            button_style(),
            Rect::new(10, 10, 90, 20),
            Some(r),
            Procedure::Button,
        )
        .unwrap();
    (ui, r, b)
}

#[test]
fn press_focuses_and_clicks_button() {
    let (mut ui, _r, b) = setup_root_and_button();
    ui.pointer_pressed(Point::new_i(15, 15));

    let q = ui.queued_messages().clone();
    let focus_at = q.iter().position(|m| *m == (b, Message::Focus)).unwrap();
    let down_at = q.iter().position(|m| *m == (b, Message::LmbDown)).unwrap();
    assert!(focus_at < down_at, "Focus must be delivered before LmbDown");
    assert_eq!(ui.get_focus(), Some(b));

    let _ = ui.tick();
    // LmbDown put the button in its active visual state and captured the mouse.
    assert_eq!(
        ui.get_data(b),
        Some(UserData::Button(ugui_r_rs::controls::button::ButtonState {
            visual_state: VisualState::Active,
        }))
    );
    assert_eq!(ui.get_capture(), Some(b));
}

#[test]
fn release_routes_to_press_point_window() {
    let (mut ui, _r, b) = setup_root_and_button();
    ui.pointer_pressed(Point::new_i(15, 15));
    let _ = ui.tick();

    ui.pointer_released();
    assert!(ui.queued_messages().contains(&(b, Message::LmbUp)));
    let _ = ui.tick();
    // LmbUp released the capture.
    assert_eq!(ui.get_capture(), None);
}

#[test]
fn release_uses_original_press_point() {
    let (mut ui, _r, b) = setup_root_and_button();
    ui.pointer_pressed(Point::new_i(15, 15));
    let _ = ui.tick();
    // Move far away before releasing: the gesture still belongs to the
    // window that claimed the press.
    ui.pointer_moved(Point::new_i(500, 400));
    let _ = ui.tick();
    ui.pointer_released();
    assert!(ui.queued_messages().contains(&(b, Message::LmbUp)));
}

#[test]
fn hiding_window_clears_focus_and_hit_test() {
    let (mut ui, r, b) = setup_root_and_button();
    ui.pointer_pressed(Point::new_i(15, 15));
    let _ = ui.tick();
    ui.pointer_released();
    let _ = ui.tick();
    assert_eq!(ui.get_focus(), Some(b));

    // Drop Visible from the button's styles.
    ui.set_window_style(b, StyleSet { visible: false, enabled: true, focusable: true });
    // The button no longer hit-tests; the visible root window behind it does.
    assert_ne!(ui.window_at(Point::new_i(15, 15)), Some(b));
    assert_eq!(ui.window_at(Point::new_i(15, 15)), Some(r));
    // Focus self-heals.
    assert_eq!(ui.get_focus(), None);
}

#[test]
fn destroyed_window_answers_neutrally() {
    let (mut ui, _r, b) = setup_root_and_button();
    ui.destroy_window(b);
    // Sending to a vanished window is not fatal: neutral response.
    assert_eq!(ui.send_message(b, Message::LmbDown), 0);
    assert_eq!(ui.window_at(Point::new_i(15, 15)), Some(_r));
}

#[test]
fn button_click_notifies_root() {
    let (mut ui, r, b) = setup_root_and_button();
    ui.pointer_pressed(Point::new_i(15, 15));
    let _ = ui.tick();
    // The button queued its click notification for the root window.
    assert!(ui
        .queued_messages()
        .contains(&(r, Message::User(b, ugui_r_rs::controls::button::BUTTON_CLICK))));
}
