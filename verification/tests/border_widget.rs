use overlay::border::{BorderView, BorderViewConfig, ParentView, Rgba, StrokeCommand};
use overlay::geometry::{Point, Rect, Size};
use overlay::tag::tag_for;

fn bounds(w: i64, h: i64) -> Rect {
    Rect {
        origin: Point { x: 0, y: 0 },
        size: Size {
            width: w,
            height: h,
        },
    }
}

#[test]
fn default_border_config_values() {
    let c = BorderViewConfig::default();
    assert_eq!(c.line_width, 100);
    assert_eq!(
        c.line_color,
        Rgba {
            r: 255,
            g: 255,
            b: 255,
            a: 38
        }
    );
    assert_eq!(c.inset, 50);
    assert_eq!(c.corner_radius, 1000);
}

#[test]
fn new_with_defaults() {
    let v = BorderView::new(None, String::from("frame"));
    assert_eq!(v.line_width, 100);
    assert_eq!(v.inset, 50);
    assert_eq!(v.corner_radius, 1000);
    assert!(!v.accepts_first_mouse);
    assert!(!v.auto_resizing);
    assert_eq!(v.tag, tag_for("frame"));
}

#[test]
fn draw_rect_insets_uniformly() {
    // Default inset of half a point: 50 hundredths on each side.
    let v = BorderView::new(None, String::from("frame"));
    let cmd = v.draw_rect(bounds(40000, 30000));
    assert_eq!(cmd.rect.origin.x, 50);
    assert_eq!(cmd.rect.origin.y, 50);
    assert_eq!(cmd.rect.size.width, 40000 - 2 * 50);
    assert_eq!(cmd.rect.size.height, 30000 - 2 * 50);
    assert!(cmd.layer_backed);
    assert_eq!(cmd.x_radius, 1000);
    assert_eq!(cmd.y_radius, 1000);
    assert_eq!(cmd.line_width, 100);
}

#[test]
fn draw_rect_zero_inset_keeps_bounds() {
    let mut v = BorderView::new(None, String::from("frame"));
    v.set_inset(0);
    let cmd = v.draw_rect(bounds(500, 700));
    assert_eq!(cmd.rect, bounds(500, 700));
}

#[test]
fn draw_rect_degenerate_inset_is_not_rejected() {
    // An inset larger than the bounds collapses the rectangle; the stroke
    // command still reports the arithmetic result.
    let mut v = BorderView::new(None, String::from("frame"));
    v.set_inset(600);
    let cmd = v.draw_rect(bounds(1000, 1000));
    assert_eq!(cmd.rect.size.width, -200);
    assert_eq!(cmd.rect.size.height, -200);
}

#[test]
fn set_line_width_twice_renders_identically() {
    let mut once = BorderView::new(None, String::from("frame"));
    let mut twice = BorderView::new(None, String::from("frame"));
    once.set_line_width(300);
    let first: StrokeCommand = twice.set_line_width(300);
    let second: StrokeCommand = twice.set_line_width(300);
    assert_eq!(first, second);
    assert_eq!(once, twice);
    assert_eq!(once.draw_rect(bounds(2000, 2000)), twice.draw_rect(bounds(2000, 2000)));
}

#[test]
fn setters_update_style_and_repaint() {
    let mut v = BorderView::new(None, String::from("frame"));
    v.set_frame(bounds(8000, 6000));
    let cmd = v.set_line_color(Rgba {
        r: 10,
        g: 20,
        b: 30,
        a: 255,
    });
    assert_eq!(
        cmd.color,
        Rgba {
            r: 10,
            g: 20,
            b: 30,
            a: 255
        }
    );
    let cmd = v.set_corner_radius(250);
    assert_eq!(cmd.x_radius, 250);
    assert_eq!(cmd.y_radius, 250);
    // The repaint covers the view's own frame.
    assert_eq!(cmd.rect.size.width, 8000 - 2 * 50);
}

#[test]
fn accepts_first_mouse_round_trip() {
    let mut v = BorderView::new(None, String::from("frame"));
    assert!(!v.accepts_first_mouse());
    v.set_accepts_first_mouse(true);
    assert!(v.accepts_first_mouse());
}

#[test]
fn attach_then_find_succeeds() {
    let mut parent = ParentView {
        subviews: Vec::new(),
    };
    let other = BorderView::new(None, String::from("shade"));
    other.set_parent(&mut parent);
    let v = BorderView::new(None, String::from("frame"));
    v.set_parent(&mut parent);
    let found = BorderView::find_with_tag(&parent, String::from("frame"));
    assert_eq!(found, Some(1));
    assert_eq!(parent.subviews[1].tag, tag_for("frame"));
}

#[test]
fn find_absent_name_is_none() {
    let mut parent = ParentView {
        subviews: Vec::new(),
    };
    let v = BorderView::new(None, String::from("frame"));
    v.set_parent(&mut parent);
    assert_eq!(BorderView::find_with_tag(&parent, String::from("missing")), None);
}

#[test]
fn remove_detaches_the_view() {
    let mut parent = ParentView {
        subviews: Vec::new(),
    };
    let v = BorderView::new(None, String::from("frame"));
    v.set_parent(&mut parent);
    let idx = BorderView::find_with_tag(&parent, String::from("frame")).unwrap();
    let removed = BorderView::remove(&mut parent, idx);
    assert_eq!(removed.tag, tag_for("frame"));
    assert!(parent.subviews.is_empty());
    assert_eq!(BorderView::find_with_tag(&parent, String::from("frame")), None);
}

#[test]
fn custom_config_is_used() {
    let v = BorderView::new(
        Some(BorderViewConfig {
            line_width: 200,
            line_color: Rgba {
                r: 1,
                g: 2,
                b: 3,
                a: 4,
            },
            inset: 0,
            corner_radius: 0,
        }),
        String::from("frame"),
    );
    assert_eq!(v.line_width, 200);
    assert_eq!(v.inset, 0);
    assert_eq!(v.corner_radius, 0);
}
