//! The border overlay widget: a decorative view that strokes a rounded,
//! inset rectangle just inside its bounds.
//!
//! The view holds its style directly — stroke width, stroke color, inset,
//! corner radius and whether it accepts a first mouse click — together with
//! its frame, its autoresizing flag and the tag derived from its name.
//! Style lengths are kept in hundredths of a point, so that half-point
//! values such as the default inset stay exact integers. Drawing is a pure
//! function of the style and the bounds: it yields a [`StrokeCommand`] that
//! the window system executes whenever the view must repaint.

use vstd::prelude::*;
use crate::MAX_COORD;
use crate::geometry::{Point, Rect, Size, rect_ok, spec_inset_rect, inset_rect};
use crate::tag::{spec_tag_for, tag_for};

verus! {

/// A color with 8-bit red, green, blue and alpha channels.
#[derive(Clone, Copy, Debug, PartialEq, Eq, Structural)]
pub struct Rgba {
    pub r: u8,
    pub g: u8,
    pub b: u8,
    pub a: u8,
}

/// The style a border view is created with. Lengths are in hundredths of a
/// point: a `line_width` of 100 is a one-point stroke.
#[derive(Clone, Copy, Debug, PartialEq, Eq, Structural)]
pub struct BorderViewConfig {
    /// Stroke width, hundredths of a point.
    pub line_width: i64,
    /// Stroke color.
    pub line_color: Rgba,
    /// Uniform inset of the stroked rectangle, hundredths of a point.
    pub inset: i64,
    /// Corner radius of the stroked rectangle, hundredths of a point.
    pub corner_radius: i64,
}

/// A style length: non-negative and small enough for geometry arithmetic.
pub open spec fn style_len_ok(v: int) -> bool {
    0 <= v <= MAX_COORD
}

/// Every length of the configuration is a valid style length.
pub open spec fn config_ok(c: BorderViewConfig) -> bool {
    &&& style_len_ok(c.line_width as int)
    &&& style_len_ok(c.inset as int)
    &&& style_len_ok(c.corner_radius as int)
}

impl Default for BorderViewConfig {
    /// The default style: a one-point translucent white stroke, inset half a
    /// point, with a ten-point corner radius.
    fn default() -> (c: BorderViewConfig)
        ensures
            c == (BorderViewConfig {
                line_width: 100,
                line_color: Rgba { r: 255, g: 255, b: 255, a: 38 },
                inset: 50,
                corner_radius: 1000,
            }),
            config_ok(c),
    {
        BorderViewConfig {
            line_width: 100,
            line_color: Rgba { r: 255, g: 255, b: 255, a: 38 },
            inset: 50,
            corner_radius: 1000,
        }
    }
}

/// A border overlay view: its style, its tag, and its place in the parent's
/// layout.
#[derive(Clone, Copy, Debug, PartialEq, Eq, Structural)]
pub struct BorderView {
    /// Stroke width, hundredths of a point.
    pub line_width: i64,
    /// Stroke color.
    pub line_color: Rgba,
    /// Uniform inset of the stroked rectangle, hundredths of a point.
    pub inset: i64,
    /// Corner radius of the stroked rectangle, hundredths of a point.
    pub corner_radius: i64,
    /// Whether the view may receive the first mouse click while its window
    /// is inactive. The view never consumes the click itself.
    pub accepts_first_mouse: bool,
    /// The integer tag the view is found by among its siblings.
    pub tag: i64,
    /// The view's frame within its parent, hundredths of a point.
    pub frame: Rect,
    /// Whether the view tracks its parent's size, flexible in both axes.
    pub auto_resizing: bool,
}

/// The view's style lengths are valid and its frame is in range.
pub open spec fn view_ok(v: BorderView) -> bool {
    &&& style_len_ok(v.line_width as int)
    &&& style_len_ok(v.inset as int)
    &&& style_len_ok(v.corner_radius as int)
    &&& rect_ok(v.frame)
}

/// One repaint of a border view: stroke `rect` as a rounded rectangle with
/// the given radii, color and width, on a layer-backed surface. No fill and
/// no other content.
#[derive(Clone, Copy, Debug, PartialEq, Eq, Structural)]
pub struct StrokeCommand {
    /// The view requests layer backing before drawing.
    pub layer_backed: bool,
    /// The rectangle to stroke: the bounds shrunk by the view's inset.
    pub rect: Rect,
    /// Corner radius along the horizontal axis.
    pub x_radius: i64,
    /// Corner radius along the vertical axis.
    pub y_radius: i64,
    /// Stroke color.
    pub color: Rgba,
    /// Stroke width.
    pub line_width: i64,
}

/// The repaint a view with style `v` produces for the bounds `bounds`.
pub open spec fn spec_draw(v: BorderView, bounds: Rect) -> StrokeCommand {
    StrokeCommand {
        layer_backed: true,
        rect: spec_inset_rect(bounds, v.inset as int),
        x_radius: v.corner_radius,
        y_radius: v.corner_radius,
        color: v.line_color,
        line_width: v.line_width,
    }
}

/// A parent view's children, in back-to-front order. A border view becomes
/// part of this tree when attached and is owned by it from then on.
pub struct ParentView {
    pub subviews: Vec<BorderView>,
}

/// The index of the first subview carrying tag `t`, if any.
pub open spec fn spec_find_tag(s: Seq<BorderView>, t: i64) -> Option<int>
    decreases s.len(),
{
    if s.len() == 0 {
        None
    } else if s[0].tag == t {
        Some(0)
    } else {
        match spec_find_tag(s.drop_first(), t) {
            Some(i) => Some(i + 1),
            None => None,
        }
    }
}

impl BorderView {
    /// Builds a border view with the given style — or the default style —
    /// and the tag derived from `tag`. Touches no window: the view is not
    /// yet part of any tree.
    pub fn new(config: Option<BorderViewConfig>, tag: String) -> (v: BorderView)
        requires
            config is Some ==> config_ok(config->0),
        ensures
            v.line_width == if config is Some { config->0.line_width } else { 100i64 },
            v.line_color == if config is Some { config->0.line_color } else {
                Rgba { r: 255, g: 255, b: 255, a: 38 }
            },
            v.inset == if config is Some { config->0.inset } else { 50i64 },
            v.corner_radius == if config is Some { config->0.corner_radius } else { 1000i64 },
            v.accepts_first_mouse == false,
            v.tag == spec_tag_for(tag@),
            v.frame == (Rect {
                origin: Point { x: 0, y: 0 },
                size: Size { width: 0, height: 0 },
            }),
            v.auto_resizing == false,
            view_ok(v),
    {
        let config = match config {
            Some(c) => c,
            None => BorderViewConfig::default(),
        };
        BorderView {
            line_width: config.line_width,
            line_color: config.line_color,
            inset: config.inset,
            corner_radius: config.corner_radius,
            accepts_first_mouse: false,
            tag: tag_for(tag.as_str()),
            frame: Rect { origin: Point { x: 0, y: 0 }, size: Size { width: 0, height: 0 } },
            auto_resizing: false,
        }
    }

    /// Attaches the view to `parent`: it joins the front of the parent's
    /// render and hit-test tree, which owns it from now on.
    pub fn set_parent(self, parent: &mut ParentView)
        ensures
            final(parent).subviews@ == old(parent).subviews@.push(self),
    {
        parent.subviews.push(self);
    }

    /// Gives the view an explicit frame within its parent.
    pub fn set_frame(&mut self, frame: Rect)
        ensures
            *final(self) == (BorderView { frame, ..*old(self) }),
    {
        self.frame = frame;
    }

    /// Opts the view into tracking its parent's size: both width and height
    /// resize with the parent.
    pub fn set_auto_resizing(&mut self)
        ensures
            *final(self) == (BorderView { auto_resizing: true, ..*old(self) }),
    {
        self.auto_resizing = true;
    }

    /// Sets the stroke width and repaints.
    pub fn set_line_width(&mut self, width: i64) -> (repaint: StrokeCommand)
        requires
            style_len_ok(width as int),
            view_ok(*old(self)),
        ensures
            *final(self) == (BorderView { line_width: width, ..*old(self) }),
            repaint == spec_draw(*final(self), final(self).frame),
            view_ok(*final(self)),
    {
        self.line_width = width;
        self.display()
    }

    /// Sets the stroke color and repaints.
    pub fn set_line_color(&mut self, color: Rgba) -> (repaint: StrokeCommand)
        requires
            view_ok(*old(self)),
        ensures
            *final(self) == (BorderView { line_color: color, ..*old(self) }),
            repaint == spec_draw(*final(self), final(self).frame),
            view_ok(*final(self)),
    {
        self.line_color = color;
        self.display()
    }

    /// Sets the inset of the stroked rectangle and repaints.
    pub fn set_inset(&mut self, inset: i64) -> (repaint: StrokeCommand)
        requires
            style_len_ok(inset as int),
            view_ok(*old(self)),
        ensures
            *final(self) == (BorderView { inset, ..*old(self) }),
            repaint == spec_draw(*final(self), final(self).frame),
            view_ok(*final(self)),
    {
        self.inset = inset;
        self.display()
    }

    /// Sets the corner radius and repaints.
    pub fn set_corner_radius(&mut self, radius: i64) -> (repaint: StrokeCommand)
        requires
            style_len_ok(radius as int),
            view_ok(*old(self)),
        ensures
            *final(self) == (BorderView { corner_radius: radius, ..*old(self) }),
            repaint == spec_draw(*final(self), final(self).frame),
            view_ok(*final(self)),
    {
        self.corner_radius = radius;
        self.display()
    }

    /// Controls whether the view may receive an initial mouse click while
    /// its window is inactive.
    pub fn set_accepts_first_mouse(&mut self, value: bool)
        ensures
            *final(self) == (BorderView { accepts_first_mouse: value, ..*old(self) }),
    {
        self.accepts_first_mouse = value;
    }

    /// Whether the view accepts the first mouse click. The window system
    /// consults this during hit testing; the view never handles the click.
    pub fn accepts_first_mouse(&self) -> (b: bool)
        ensures
            b == self.accepts_first_mouse,
    {
        self.accepts_first_mouse
    }

    /// The repaint of the view over the bounds `rect`: the bounds shrunk by
    /// the inset on all sides, stroked as a rounded rectangle with the
    /// view's radius, color and width. A degenerate inset rectangle is
    /// stroked as it is.
    pub fn draw_rect(&self, rect: Rect) -> (cmd: StrokeCommand)
        requires
            view_ok(*self),
            rect_ok(rect),
        ensures
            cmd == spec_draw(*self, rect),
            cmd.rect.origin.x == rect.origin.x + self.inset,
            cmd.rect.origin.y == rect.origin.y + self.inset,
            cmd.rect.size.width == rect.size.width - 2 * self.inset,
            cmd.rect.size.height == rect.size.height - 2 * self.inset,
    {
        StrokeCommand {
            layer_backed: true,
            rect: inset_rect(&rect, self.inset),
            x_radius: self.corner_radius,
            y_radius: self.corner_radius,
            color: self.line_color,
            line_width: self.line_width,
        }
    }

    /// Repaints the view over its current frame.
    fn display(&self) -> (cmd: StrokeCommand)
        requires
            view_ok(*self),
        ensures
            cmd == spec_draw(*self, self.frame),
    {
        self.draw_rect(self.frame)
    }

    /// Finds the border view attached to `parent` under the name `name`:
    /// the first subview whose tag is the tag of that name. `None` means no
    /// such view is attached — an expected outcome, not a failure.
    pub fn find_with_tag(parent: &ParentView, name: String) -> (found: Option<usize>)
        ensures
            found matches Some(i) ==> {
                &&& spec_find_tag(parent.subviews@, spec_tag_for(name@)) == Some(i as int)
                &&& i < parent.subviews@.len()
                &&& parent.subviews@[i as int].tag == spec_tag_for(name@)
            },
            found is None ==> {
                &&& spec_find_tag(parent.subviews@, spec_tag_for(name@)) is None
                &&& forall|j: int|
                    0 <= j < parent.subviews@.len()
                        ==> #[trigger] parent.subviews@[j].tag != spec_tag_for(name@)
            },
    {
        let t = tag_for(name.as_str());
        let ghost views = parent.subviews@;
        let mut i: usize = 0;
        proof {
            assert(views.skip(0) =~= views);
        }
        while i < parent.subviews.len()
            invariant
                0 <= i <= views.len(),
                views == parent.subviews@,
                t == spec_tag_for(name@),
                forall|j: int| 0 <= j < i ==> #[trigger] views[j].tag != t,
                spec_find_tag(views, t) == match spec_find_tag(views.skip(i as int), t) {
                    Some(k) => Some(k + i),
                    None => None::<int>,
                },
            decreases views.len() - i,
        {
            proof {
                assert(views.skip(i as int).len() > 0);
                assert(views.skip(i as int)[0] == views[i as int]);
                assert(views.skip(i as int).drop_first() =~= views.skip(i + 1));
            }
            if parent.subviews[i].tag == t {
                proof {
                    assert(spec_find_tag(views.skip(i as int), t) == Some(0int));
                }
                return Some(i);
            }
            i = i + 1;
        }
        proof {
            assert(views.skip(i as int) =~= Seq::<BorderView>::empty());
        }
        None
    }

    /// Detaches the subview at `index` from `parent` and returns it. The
    /// returned view is no longer drawn.
    pub fn remove(parent: &mut ParentView, index: usize) -> (v: BorderView)
        requires
            index < old(parent).subviews@.len(),
        ensures
            final(parent).subviews@ == old(parent).subviews@.remove(index as int),
            v == old(parent).subviews@[index as int],
    {
        parent.subviews.remove(index)
    }
}

/// The tag of a name is stable, and attaching a view under a name makes it
/// findable: after a view whose tag is the tag of `name` joins the subviews,
/// a search for `name`'s tag succeeds.
pub proof fn lemma_attach_then_find(s: Seq<BorderView>, v: BorderView, name: Seq<char>)
    requires
        v.tag == spec_tag_for(name),
    ensures
        spec_find_tag(s.push(v), spec_tag_for(name)) is Some,
    decreases s.len(),
{
    let t = spec_tag_for(name);
    if s.len() == 0 {
        assert(s.push(v)[0] == v);
    } else if s[0].tag == t {
    } else {
        assert(s.push(v).drop_first() =~= s.drop_first().push(v));
        lemma_attach_then_find(s.drop_first(), v, name);
    }
}

/// Setting a style property twice with the same value renders the same as
/// setting it once: the second assignment leaves the view unchanged, so
/// every later repaint produces the identical stroke.
pub proof fn lemma_style_set_idempotent(v: BorderView, width: i64, bounds: Rect)
    ensures
        (BorderView { line_width: width, ..(BorderView { line_width: width, ..v }) })
            == (BorderView { line_width: width, ..v }),
        spec_draw(BorderView { line_width: width, ..(BorderView { line_width: width, ..v }) }, bounds)
            == spec_draw(BorderView { line_width: width, ..v }, bounds),
{
}

} // verus!
