use ugui_r_rs::alignment::Alignment;
use ugui_r_rs::color::Color;
use ugui_r_rs::controls::button::button_style;
use ugui_r_rs::controls::window::window_style;
use ugui_r_rs::point::Point;
use ugui_r_rs::rect::Rect;
use ugui_r_rs::ugui::Ugui;
use ugui_r_rs::window::Procedure;

fn setup() -> (Ugui, usize, usize) {
    let mut ui = Ugui::new();
    let r = ui
        .create_window(
            "WINDOW".to_string(),
            "root".to_string(),
            window_style(),
            Rect::new(0, 0, 640, 480),
            None,
            Procedure::TopLevel,
        )
        .unwrap();
    let b = ui
        .create_window(
            "BUTTON".to_string(),
            "ok".to_string(),
            button_style(),
            Rect::new(10, 10, 90, 20),
            Some(r),
            Procedure::Button,
        )
        .unwrap();
    (ui, r, b)
}

#[test]
fn composite_runs_exactly_when_dirty() {
    let (mut ui, _r, _b) = setup();
    // Creation invalidated both windows' bounds: the first tick flushes.
    assert!(ui.tick().is_some());
    // Nothing dirty now: no flush.
    assert!(ui.tick().is_none());
    assert!(ui.tick().is_none());
    // One invalidation: exactly one flush again.
    ui.invalidate_rect(Rect::new(0, 0, 10, 10));
    assert!(ui.tick().is_some());
    assert!(ui.tick().is_none());
}

#[test]
fn paint_pass_emits_button_quads_and_caption() {
    let (mut ui, _r, b) = setup();
    let (quads, texts) = ui.tick().unwrap();
    // The root painted its background, the button its face, each clipped to
    // a dirty rectangle.
    assert!(quads
        .iter()
        .any(|q| q.rect == Rect::new(0, 0, 640, 480)
            && q.back_color == Color::rgb(240, 240, 240)));
    assert!(quads
        .iter()
        .any(|q| q.rect == Rect::new(10, 10, 90, 20)
            && q.back_color == Color::rgb(225, 225, 225)
            && q.border_color == Color::rgb(173, 173, 173)));
    assert!(texts.iter().any(|t| t.text == "ok"
        && t.rect == Rect::new(10, 10, 90, 20)
        && t.h_align == Alignment::Center
        && t.v_align == Alignment::Center
        && t.size == 11
        && t.line_height == 4));
    // Every operation carries the clip that was active when it was issued.
    assert!(quads.iter().all(|q| q.clip_rect.is_some()));
    // The invisible button is skipped by the next pass.
    ui.set_window_style(
        b,
        ugui_r_rs::styles::StyleSet { visible: false, enabled: true, focusable: true },
    );
    let (quads2, _texts2) = ui.tick().unwrap();
    assert!(!quads2.iter().any(|q| q.rect == Rect::new(10, 10, 90, 20)
        && q.back_color == Color::rgb(225, 225, 225)));
}

#[test]
fn hover_changes_button_colors() {
    let (mut ui, _r, _b) = setup();
    let _ = ui.tick();
    // Arrive over the root first, then enter the button: the transition
    // between different windows emits MouseEnter, which sets the hover state.
    ui.pointer_moved(Point::new_i(300, 300));
    let _ = ui.tick();
    ui.pointer_moved(Point::new_i(15, 15));
    let (quads, _) = ui.tick().expect("the hover invalidated the button");
    // Hover visual state: highlighted face and accent border.
    assert!(quads
        .iter()
        .any(|q| q.rect == Rect::new(10, 10, 90, 20)
            && q.back_color == Color::rgb(229, 241, 251)
            && q.border_color == Color::rgb(0, 120, 215)));
}

#[test]
fn painter_methods_tag_current_clip() {
    let mut ui = Ugui::new();
    ui.paint_quad(Rect::new(1, 2, 3, 4), Color::rgb(1, 2, 3), Color::rgb(4, 5, 6), 2);
    ui.push_clip(Rect::new(0, 0, 50, 50));
    ui.paint_quad(Rect::new(5, 6, 7, 8), Color::rgb(1, 2, 3), Color::rgb(4, 5, 6), 1);
    ui.paint_text(
        "hi",
        Rect::new(5, 6, 7, 8),
        Color::rgb(0, 0, 0),
        Alignment::Start,
        Alignment::End,
        11,
        4,
    );
    ui.pop_clip();
    ui.paint_text(
        "lo",
        Rect::new(9, 9, 9, 9),
        Color::rgb(0, 0, 0),
        Alignment::Fill,
        Alignment::Center,
        12,
        5,
    );
    // Flush them through a composite.
    ui.invalidate_rect(Rect::new(1000, 1000, 1, 1));
    let (quads, texts) = ui.composite().unwrap();
    assert_eq!(quads[0].clip_rect, None);
    assert_eq!(quads[1].clip_rect, Some(Rect::new(0, 0, 50, 50)));
    assert_eq!(texts[0].clip_rect, Some(Rect::new(0, 0, 50, 50)));
    assert_eq!(texts[0].text, "hi");
    assert_eq!(texts[1].clip_rect, None);
    assert_eq!(texts[1].text, "lo");
}

#[test]
fn composite_clears_all_queues() {
    let (mut ui, _r, _b) = setup();
    let _ = ui.tick().unwrap();
    // A second composite with no dirty work returns nothing and keeps
    // nothing stale around.
    assert!(ui.composite().is_none());
}

#[test]
fn destroy_repaints_last_bounds() {
    let (mut ui, _r, b) = setup();
    let _ = ui.tick();
    ui.destroy_window(b);
    // The destruction forced an immediate repaint of the button's bounds:
    // the root background was redrawn under it, the button itself was not.
    let (quads, _) = ui.tick().expect("destruction leaves dirty bounds behind");
    assert!(quads.iter().any(|q| q.back_color == Color::rgb(240, 240, 240)));
    assert!(!quads.iter().any(|q| q.back_color == Color::rgb(225, 225, 225)));
}
