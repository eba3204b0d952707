use overlay::geometry::{Point, Rect, Size};
use overlay::toast::{
    DisplayInfo, Phase, Toast, ToastAction, ToastConfig, ToastPosition, LABEL_TAG,
};

fn display_1920x1080() -> DisplayInfo {
    DisplayInfo {
        position: Point { x: 0, y: 0 },
        size: Size {
            width: 1920,
            height: 1080,
        },
    }
}

fn bottom_config() -> ToastConfig {
    ToastConfig {
        font_size: 16,
        padding: (15, 10),
        position: ToastPosition::Bottom,
        offset: 50,
        duration: 3000,
        fade_duration: 300,
    }
}

#[test]
fn default_config_values() {
    let c = ToastConfig::default();
    assert_eq!(c.font_size, 16);
    assert_eq!(c.padding, (15, 10));
    assert_eq!(c.position, ToastPosition::Bottom);
    assert_eq!(c.offset, 50);
    assert_eq!(c.duration, 3000);
    assert_eq!(c.fade_duration, 300);
}

#[test]
fn new_widget_starts_hidden_and_transparent() {
    let t = Toast::new(bottom_config());
    assert_eq!(t.phase, Phase::Hidden);
    assert!(!t.panel.on_screen);
    assert_eq!(t.panel.alpha, 0);
    assert!(t.panel.label.is_none());
    assert!(t.pending_timer.is_none());
    let style = t.panel.style;
    assert!(!style.can_become_key);
    assert!(style.nonactivating);
    assert!(style.borderless);
    assert!(style.floating_panel);
    assert!(style.floating_level);
    assert!(!style.has_shadow);
    assert!(!style.opaque);
    assert!(style.joins_all_spaces);
    assert!(style.stationary);
    assert!(style.blur_behind_window);
    assert!(style.blur_material_popover);
    let t = Toast::default();
    assert_eq!(t.options, ToastConfig::default());
    assert_eq!(t.phase, Phase::Hidden);
}

#[test]
fn message_frame_pads_the_content() {
    let t = Toast::new(bottom_config());
    let frame = t.message_frame(Size {
        width: 170,
        height: 20,
    });
    assert_eq!(frame.origin.x, 15);
    assert_eq!(frame.origin.y, -10);
    assert_eq!(frame.size.width, 200);
    assert_eq!(frame.size.height, 40);
}

#[test]
fn bottom_placement_is_centered_and_offset() {
    // A 200 by 40 padded message on a 1920 by 1080 display at the origin,
    // anchored 50 points above the bottom edge.
    let t = Toast::new(bottom_config());
    let msg = Rect {
        origin: Point { x: 15, y: -10 },
        size: Size {
            width: 200,
            height: 40,
        },
    };
    let frame = t.window_frame(display_1920x1080(), msg);
    assert_eq!(frame.origin.x, 860);
    assert_eq!(frame.origin.y, 50);
    assert_eq!(frame.size.width, 200);
    assert_eq!(frame.size.height, 40);
}

#[test]
fn top_placement_hangs_from_the_top_edge() {
    let mut c = bottom_config();
    c.position = ToastPosition::Top;
    let t = Toast::new(c);
    let msg = Rect {
        origin: Point { x: 15, y: -10 },
        size: Size {
            width: 200,
            height: 40,
        },
    };
    let frame = t.window_frame(display_1920x1080(), msg);
    assert_eq!(frame.origin.x, 860);
    assert_eq!(frame.origin.y, 1080 - 50);
}

#[test]
fn placement_follows_the_display_origin() {
    let t = Toast::new(bottom_config());
    let d = DisplayInfo {
        position: Point { x: -1920, y: 200 },
        size: Size {
            width: 1920,
            height: 1080,
        },
    };
    let msg = Rect {
        origin: Point { x: 15, y: -10 },
        size: Size {
            width: 200,
            height: 40,
        },
    };
    let frame = t.window_frame(d, msg);
    assert_eq!(frame.origin.x, -1920 + 960 - 100);
    assert_eq!(frame.origin.y, 250);
}

#[test]
fn message_renders_markup_into_the_styled_document() {
    let t = Toast::new(bottom_config());
    let m = t.message("**hi**");
    assert!(m.truncates_tail);
    assert_eq!(
        m.html,
        "<html><head><meta charset=\"utf-8\"/><style>body { font: caption; font-size: \
         16px; } p { display: inline-block; text-align: center; }</style></head><body>\
         <p><strong>hi</strong></p></body>"
    );
}

#[test]
fn message_uses_the_configured_font_size() {
    let mut c = bottom_config();
    c.font_size = 123;
    let t = Toast::new(c);
    let m = t.message("x");
    assert!(m.html.contains("font-size: 123px;"));
    assert!(m.html.contains("<p>x</p>"));
}

#[test]
fn toast_emits_the_full_show_sequence() {
    let mut t = Toast::new(bottom_config());
    let acts = t.toast(
        "hello",
        display_1920x1080(),
        Size {
            width: 170,
            height: 20,
        },
    );
    let want_frame = Rect {
        origin: Point { x: 860, y: 50 },
        size: Size {
            width: 200,
            height: 40,
        },
    };
    assert_eq!(acts.len(), 5);
    assert_eq!(acts[0], ToastAction::SetWindowFrame(want_frame));
    // The pill shape: corner radius is half the final height.
    assert_eq!(acts[1], ToastAction::SetCornerRadius(20));
    match &acts[2] {
        ToastAction::SetLabel(l) => {
            assert_eq!(l.tag, LABEL_TAG);
            assert!(!l.editable);
            assert!(!l.bordered);
            assert!(!l.draws_background);
            assert!(l.uses_label_color);
            assert!(l.html.contains("<p>hello</p>"));
        }
        other => panic!("expected a label action, got {:?}", other),
    }
    assert_eq!(acts[3], ToastAction::FadeIn(300));
    match acts[4] {
        ToastAction::StartTimer(h) => {
            assert_eq!(h.duration, 3000);
            assert_eq!(Some(h), t.pending_timer);
        }
        ref other => panic!("expected a timer action, got {:?}", other),
    }
    assert_eq!(t.phase, Phase::Showing);
    assert!(t.panel.on_screen);
    assert_eq!(t.panel.frame, want_frame);
    assert_eq!(t.panel.corner_radius, 20);
}

#[test]
fn retrigger_cancels_the_first_timer_and_shows_the_second_message() {
    let mut t = Toast::new(bottom_config());
    let size = Size {
        width: 170,
        height: 20,
    };
    let _ = t.toast("a", display_1920x1080(), size);
    let first = t.pending_timer.unwrap();
    let acts = t.toast("b", display_1920x1080(), size);
    // The old dismissal is cancelled before anything else.
    assert_eq!(acts[0], ToastAction::CancelTimer(first.id));
    assert_eq!(acts.len(), 6);
    // Exactly one timer is pending: a fresh one, timed from the second call.
    let second = t.pending_timer.unwrap();
    assert_ne!(second.id, first.id);
    assert_eq!(second.duration, 3000);
    let starts = acts
        .iter()
        .filter(|a| matches!(a, ToastAction::StartTimer(_)))
        .count();
    assert_eq!(starts, 1);
    // The label shows the second message only.
    let label = t.panel.label.as_ref().unwrap();
    assert!(label.html.contains("<p>b</p>"));
    assert!(!label.html.contains("<p>a</p>"));
}

#[test]
fn timer_fire_starts_the_fade_out() {
    let mut t = Toast::new(bottom_config());
    let _ = t.toast(
        "hello",
        display_1920x1080(),
        Size {
            width: 170,
            height: 20,
        },
    );
    let timer = t.pending_timer.unwrap();
    t.fade_in_completed();
    assert_eq!(t.phase, Phase::Visible);
    let acts = t.timer_fired(timer.id);
    assert_eq!(acts.len(), 1);
    assert_eq!(
        acts[0],
        ToastAction::FadeOut {
            gen: t.fade_gen,
            fade: 300
        }
    );
    assert_eq!(t.phase, Phase::Hiding);
    assert!(t.pending_timer.is_none());
    // Still on screen: the window leaves only after the fade completes.
    assert!(t.panel.on_screen);
}

#[test]
fn hidden_only_after_the_fade_out_completes() {
    let mut t = Toast::new(bottom_config());
    let _ = t.toast(
        "hello",
        display_1920x1080(),
        Size {
            width: 170,
            height: 20,
        },
    );
    t.fade_in_completed();
    let timer = t.pending_timer.unwrap();
    let _ = t.timer_fired(timer.id);
    let gen = t.fade_gen;
    // A stale completion from an older fade changes nothing.
    let acts = t.fade_out_completed(gen - 1);
    assert!(acts.is_empty());
    assert!(t.panel.on_screen);
    // The current fade's completion hides the window.
    let acts = t.fade_out_completed(gen);
    assert_eq!(acts, vec![ToastAction::HideWindow]);
    assert_eq!(t.phase, Phase::Hidden);
    assert!(!t.panel.on_screen);
    assert_eq!(t.panel.alpha, 0);
}

#[test]
fn stale_timer_fire_changes_nothing() {
    let mut t = Toast::new(bottom_config());
    let _ = t.toast(
        "a",
        display_1920x1080(),
        Size {
            width: 170,
            height: 20,
        },
    );
    let first = t.pending_timer.unwrap();
    let _ = t.toast(
        "b",
        display_1920x1080(),
        Size {
            width: 170,
            height: 20,
        },
    );
    // The first call's timer was cancelled; were its firing still delivered,
    // it would be ignored.
    let acts = t.timer_fired(first.id);
    assert!(acts.is_empty());
    assert_eq!(t.phase, Phase::Showing);
    assert!(t.pending_timer.is_some());
}

#[test]
fn retrigger_while_hiding_interrupts_the_dismissal() {
    let mut t = Toast::new(bottom_config());
    let size = Size {
        width: 170,
        height: 20,
    };
    let _ = t.toast("a", display_1920x1080(), size);
    t.fade_in_completed();
    let timer = t.pending_timer.unwrap();
    let _ = t.timer_fired(timer.id);
    let old_gen = t.fade_gen;
    // A new message arrives while the old one is fading out.
    let acts = t.toast("b", display_1920x1080(), size);
    assert_eq!(t.phase, Phase::Showing);
    assert!(t.panel.on_screen);
    // No dismissal was pending, so nothing is cancelled first.
    assert_eq!(acts.len(), 5);
    // The overtaken fade-out's completion no longer hides the window.
    let stale = t.fade_out_completed(old_gen);
    assert!(stale.is_empty());
    assert!(t.panel.on_screen);
}

#[test]
fn empty_message_still_yields_the_document_shell() {
    let t = Toast::new(bottom_config());
    let m = t.message("");
    assert_eq!(
        m.html,
        "<html><head><meta charset=\"utf-8\"/><style>body { font: caption; font-size: \
         16px; } p { display: inline-block; text-align: center; }</style></head><body>\
         </body>"
    );
}

#[test]
fn zero_font_size_is_written_as_a_single_digit() {
    let mut c = bottom_config();
    c.font_size = 0;
    let t = Toast::new(c);
    assert!(t.message("x").html.contains("font-size: 0px;"));
}
