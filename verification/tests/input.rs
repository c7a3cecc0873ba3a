use ugui_r_rs::controls::button::button_style;
use ugui_r_rs::controls::window::window_style;
use ugui_r_rs::messages::Message;
use ugui_r_rs::point::Point;
use ugui_r_rs::rect::Rect;
use ugui_r_rs::ugui::Ugui;
use ugui_r_rs::window::Procedure;

fn setup() -> (Ugui, usize, usize, usize) {
    let mut ui = Ugui::new();
    let r = ui
        .create_window(
            "WINDOW".to_string(),
            "root".to_string(),
            window_style(),
            Rect::new(0, 0, 640, 480),
            None,
            Procedure::TopLevel,
        )
        .unwrap();
    let a = ui
        .create_window(
            "BUTTON".to_string(),
            "a".to_string(),
            button_style(),
            Rect::new(10, 10, 90, 20),
            Some(r),
            Procedure::Button,
        )
        .unwrap();
    let b = ui
        .create_window(
            "BUTTON".to_string(),
            "b".to_string(),
            button_style(),
            Rect::new(200, 10, 90, 20),
            Some(r),
            Procedure::Button,
        )
        .unwrap();
    let _ = ui.tick();
    (ui, r, a, b)
}

#[test]
fn move_between_windows_emits_enter_and_leave() {
    let (mut ui, _r, a, b) = setup();
    ui.pointer_moved(Point::new_i(15, 15));
    let _ = ui.tick();
    ui.pointer_moved(Point::new_i(205, 15));
    let q = ui.queued_messages().clone();
    assert!(q.contains(&(b, Message::MouseMove)));
    assert!(q.contains(&(b, Message::MouseEnter)));
    assert!(q.contains(&(a, Message::MouseLeave)));
}

#[test]
fn move_within_one_window_emits_move_only() {
    let (mut ui, _r, a, _b) = setup();
    ui.pointer_moved(Point::new_i(15, 15));
    let _ = ui.tick();
    ui.pointer_moved(Point::new_i(20, 15));
    let q = ui.queued_messages().clone();
    assert!(q.contains(&(a, Message::MouseMove)));
    assert!(!q.contains(&(a, Message::MouseEnter)));
    assert!(!q.contains(&(a, Message::MouseLeave)));
}

#[test]
fn capture_bypasses_hit_testing() {
    let (mut ui, _r, a, b) = setup();
    ui.capture_mouse(a);
    // The pointer moves over the other button: the captured window still
    // gets the only MouseMove, decided without hit-testing.
    ui.pointer_moved(Point::new_i(205, 15));
    let q = ui.queued_messages().clone();
    let moves: Vec<&(usize, Message)> =
        q.iter().filter(|m| m.1 == Message::MouseMove).collect();
    assert_eq!(moves.len(), 1);
    assert_eq!(*moves[0], (a, Message::MouseMove));
    assert!(!q.iter().any(|m| m.0 == b));
}

#[test]
fn capture_enter_leave_follow_own_bounds() {
    let (mut ui, _r, a, _b) = setup();
    ui.pointer_moved(Point::new_i(15, 15));
    let _ = ui.tick();
    ui.capture_mouse(a);
    // Leaving the captured window's own bounds emits one MouseLeave to it.
    ui.pointer_moved(Point::new_i(205, 15));
    let q = ui.queued_messages().clone();
    assert!(q.contains(&(a, Message::MouseLeave)));
    assert!(!q.contains(&(a, Message::MouseEnter)));
    let _ = ui.tick();
    // Re-entering emits one MouseEnter.
    ui.pointer_moved(Point::new_i(15, 15));
    let q = ui.queued_messages().clone();
    assert!(q.contains(&(a, Message::MouseEnter)));
    assert!(!q.contains(&(a, Message::MouseLeave)));
}

#[test]
fn keys_and_text_go_to_focused_window_only() {
    let (mut ui, _r, a, _b) = setup();
    // Nothing focused: key and text events go nowhere.
    ui.key_down(13);
    ui.key_up(13);
    ui.text_input("hi".to_string());
    assert!(ui.queued_messages().is_empty());

    ui.pointer_pressed(Point::new_i(15, 15));
    let _ = ui.tick();
    // One more tick flushes the click notification the button queued.
    let _ = ui.tick();
    assert!(ui.queued_messages().is_empty());
    assert_eq!(ui.get_focus(), Some(a));
    ui.key_down(13);
    ui.text_input("yo".to_string());
    ui.key_up(13);
    let q = ui.queued_messages().clone();
    assert_eq!(
        q,
        vec![(a, Message::KeyDown(13)), (a, Message::TextInput), (a, Message::KeyUp(13))]
    );
    assert_eq!(ui.typed_text(), "yo");
}

#[test]
fn press_on_empty_space_changes_nothing() {
    let (mut ui, r, a, _b) = setup();
    ui.pointer_pressed(Point::new_i(15, 15));
    let _ = ui.tick();
    assert_eq!(ui.get_focus(), Some(a));
    // The root window is visible but not focusable: pressing it keeps the
    // focus where it is, and the old holder gets no Unfocus.
    ui.pointer_pressed(Point::new_i(500, 400));
    assert_eq!(ui.get_focus(), Some(a));
    let q = ui.queued_messages().clone();
    assert!(q.contains(&(r, Message::LmbDown)));
    assert!(!q.contains(&(a, Message::Unfocus)));
}

#[test]
fn focus_transfer_unfocuses_previous_holder() {
    let (mut ui, _r, a, b) = setup();
    ui.pointer_pressed(Point::new_i(15, 15));
    let _ = ui.tick();
    ui.pointer_pressed(Point::new_i(205, 15));
    let q = ui.queued_messages().clone();
    let unfocus_at = q.iter().position(|m| *m == (a, Message::Unfocus)).unwrap();
    let focus_at = q.iter().position(|m| *m == (b, Message::Focus)).unwrap();
    let down_at = q.iter().position(|m| *m == (b, Message::LmbDown)).unwrap();
    assert!(unfocus_at < focus_at && focus_at < down_at);
    assert_eq!(ui.get_focus(), Some(b));
}

#[test]
fn secondary_and_middle_buttons_tracked() {
    let (mut ui, _r, _a, _b) = setup();
    assert!(!ui.mouse_state().rmb);
    assert!(!ui.mouse_state().mmb);
    ui.secondary_button_changed(true);
    ui.middle_button_changed(true);
    assert!(ui.mouse_state().rmb);
    assert!(ui.mouse_state().mmb);
    // No messages follow: the closed message set has no secondary events.
    assert!(ui.queued_messages().is_empty());
    ui.secondary_button_changed(false);
    ui.middle_button_changed(false);
    assert!(!ui.mouse_state().rmb);
    assert!(!ui.mouse_state().mmb);
}

#[test]
fn mouse_state_tracks_positions() {
    let (mut ui, _r, _a, _b) = setup();
    ui.pointer_moved(Point::new_i(7, 9));
    assert_eq!(ui.mouse_state().pos, Point::new_i(7, 9));
    ui.pointer_pressed(Point::new_i(7, 9));
    assert!(ui.mouse_state().lmb);
    assert_eq!(ui.mouse_state().lmb_down_pos, Point::new_i(7, 9));
    ui.pointer_released();
    assert!(!ui.mouse_state().lmb);
    // The press point survives the release, for gesture routing.
    assert_eq!(ui.mouse_state().lmb_down_pos, Point::new_i(7, 9));
}
