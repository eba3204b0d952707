//! The toast widget: a floating, non-activating panel that shows a styled
//! message above all windows and dismisses itself after a fixed time.
//!
//! The widget owns one long-lived panel. Each call of [`Toast::toast`]
//! cancels any pending dismissal, lays the new message out on the display
//! under the pointer, fades the panel in and arms a fresh one-shot timer.
//! The window system performs the returned [`ToastAction`]s — resizing,
//! label replacement, fades, timer arming — and reports the timer firing
//! and the fade-out finishing back through [`Toast::timer_fired`] and
//! [`Toast::fade_out_completed`]. At most one dismissal timer is ever
//! pending, and the panel leaves the screen only after a fade-out has run
//! to full transparency.
//!
//! Lengths are logical points; times are milliseconds.

use vstd::prelude::*;
use crate::MAX_COORD;
use crate::geometry::{Point, Rect, Size, coord_ok};
use crate::markup::{spec_document, html_of, document_for};

verus! {

/// The tag of the panel's one message label, fixed so repeated calls find
/// and replace the same label node.
pub const LABEL_TAG: i64 = 1;

/// The display edge a toast is anchored to.
#[derive(Clone, Copy, Debug, PartialEq, Eq, Structural)]
pub enum ToastPosition {
    Top,
    Bottom,
}

/// The fixed settings of a toast widget. Set once at construction.
#[derive(Clone, Copy, Debug, PartialEq)]
pub struct ToastConfig {
    /// Font size of the message, pixels.
    pub font_size: u64,
    /// Space around the message on each axis, points `(x, y)`.
    pub padding: (i64, i64),
    /// The display edge the panel is anchored to.
    pub position: ToastPosition,
    /// Distance from that edge, points.
    pub offset: i64,
    /// How long the toast stays before dismissal, milliseconds.
    pub duration: u64,
    /// Length of a fade-in or fade-out, milliseconds.
    pub fade_duration: u64,
}

/// The paddings and the offset are non-negative and in coordinate range.
pub open spec fn config_ok(c: ToastConfig) -> bool {
    &&& 0 <= c.padding.0 <= MAX_COORD
    &&& 0 <= c.padding.1 <= MAX_COORD
    &&& 0 <= c.offset <= MAX_COORD
}

/// The default settings: 16-pixel text, 15 by 10 points of padding,
/// anchored 50 points above the bottom edge, shown for three seconds with
/// a 300-millisecond fade.
pub open spec fn spec_default_config() -> ToastConfig {
    ToastConfig {
        font_size: 16u64,
        padding: (15i64, 10i64),
        position: ToastPosition::Bottom,
        offset: 50i64,
        duration: 3000u64,
        fade_duration: 300u64,
    }
}

impl Default for ToastConfig {
    /// The default settings.
    fn default() -> (c: ToastConfig)
        ensures
            c == spec_default_config(),
            config_ok(c),
    {
        ToastConfig {
            font_size: 16,
            padding: (15, 10),
            position: ToastPosition::Bottom,
            offset: 50,
            duration: 3000,
            fade_duration: 300,
        }
    }
}

/// The display the toast is placed on: the one under the pointer, in
/// logical coordinates, as the host's display locator reports it.
#[derive(Clone, Copy, Debug, PartialEq, Eq, Structural)]
pub struct DisplayInfo {
    /// Origin of the display in the global logical coordinate space.
    pub position: Point,
    /// Logical size of the display.
    pub size: Size,
}

/// The display's origin is in range and its size is non-negative and in
/// range.
pub open spec fn display_ok(d: DisplayInfo) -> bool {
    &&& coord_ok(d.position.x as int)
    &&& coord_ok(d.position.y as int)
    &&& 0 <= d.size.width <= MAX_COORD
    &&& 0 <= d.size.height <= MAX_COORD
}

/// A measured extent: non-negative and in range.
pub open spec fn size_ok(s: Size) -> bool {
    &&& 0 <= s.width <= MAX_COORD
    &&& 0 <= s.height <= MAX_COORD
}

/// A message turned into styled content: the document the platform's
/// rich-text machinery renders, laid out on a single line.
#[derive(Debug)]
pub struct StyledMessage {
    /// The styled document text.
    pub html: String,
    /// Overflowing text is cut with an ellipsis rather than wrapped.
    pub truncates_tail: bool,
}

/// The message label node placed in the panel.
#[derive(Debug, PartialEq)]
pub struct ToastLabel {
    /// The label's frame within the panel's content area.
    pub frame: Rect,
    /// The styled document the label shows.
    pub html: String,
    /// The label is display-only.
    pub editable: bool,
    /// The label draws no border of its own.
    pub bordered: bool,
    /// The label draws no background of its own.
    pub draws_background: bool,
    /// The text uses the platform's standard label color.
    pub uses_label_color: bool,
    /// The tag the label is found by on later calls.
    pub tag: i64,
}

impl Clone for ToastLabel {
    fn clone(&self) -> (r: Self)
        ensures
            r == *self,
    {
        ToastLabel {
            frame: self.frame,
            html: self.html.clone(),
            editable: self.editable,
            bordered: self.bordered,
            draws_background: self.draws_background,
            uses_label_color: self.uses_label_color,
            tag: self.tag,
        }
    }
}

/// The fixed properties the panel window is created with.
#[derive(Clone, Copy, Debug, PartialEq, Eq, Structural)]
pub struct PanelStyle {
    /// The panel never takes keyboard focus.
    pub can_become_key: bool,
    /// Showing the panel does not activate the owning application.
    pub nonactivating: bool,
    /// The panel has no title bar or frame.
    pub borderless: bool,
    /// Drawing is double-buffered.
    pub backing_buffered: bool,
    /// The panel floats above normal windows.
    pub floating_panel: bool,
    /// The panel stays up when the application deactivates.
    pub hides_on_deactivate: bool,
    /// The panel sits at the floating window level.
    pub floating_level: bool,
    /// The panel casts no shadow.
    pub has_shadow: bool,
    /// The window background is fully clear.
    pub background_clear: bool,
    /// The window is not opaque.
    pub opaque: bool,
    /// The panel appears on every virtual desktop.
    pub joins_all_spaces: bool,
    /// The panel does not move between spaces with the user.
    pub stationary: bool,
    /// The content view is layer-backed, for the rounded corners.
    pub content_layer_backed: bool,
    /// A blur view fills the content, blending what is behind the window.
    pub blur_behind_window: bool,
    /// The blur is always active.
    pub blur_active: bool,
    /// The blur uses the popover material.
    pub blur_material_popover: bool,
    /// The blur view resizes with the window in both axes.
    pub blur_resizes: bool,
}

/// The one valid panel style: non-activating, borderless, floating,
/// translucent and blurred, never focusable.
pub open spec fn spec_panel_style() -> PanelStyle {
    PanelStyle {
        can_become_key: false,
        nonactivating: true,
        borderless: true,
        backing_buffered: true,
        floating_panel: true,
        hides_on_deactivate: false,
        floating_level: true,
        has_shadow: false,
        background_clear: true,
        opaque: false,
        joins_all_spaces: true,
        stationary: true,
        content_layer_backed: true,
        blur_behind_window: true,
        blur_active: true,
        blur_material_popover: true,
        blur_resizes: true,
    }
}

/// The panel window's mutable state.
#[derive(Debug)]
pub struct ToastPanel {
    /// The fixed window properties.
    pub style: PanelStyle,
    /// The window's frame on screen.
    pub frame: Rect,
    /// Corner radius of the content layer; half the height gives the pill
    /// shape.
    pub corner_radius: i64,
    /// The opacity the panel has settled at, or is fading toward, in
    /// hundredths: 0 is fully transparent, 100 fully opaque.
    pub alpha: u8,
    /// Whether the window is in the screen's window list.
    pub on_screen: bool,
    /// The message label, once one has been shown.
    pub label: Option<ToastLabel>,
}

/// The state a fresh panel starts in: styled, empty, fully transparent and
/// off screen.
pub open spec fn spec_new_panel() -> ToastPanel {
    ToastPanel {
        style: spec_panel_style(),
        frame: Rect { origin: Point { x: 0, y: 0 }, size: Size { width: 0, height: 0 } },
        corner_radius: 0,
        alpha: 0,
        on_screen: false,
        label: None,
    }
}

impl Default for ToastPanel {
    /// Builds the floating panel: non-activating, borderless, always on
    /// top, on every space, blurred, fully transparent and off screen.
    fn default() -> (p: ToastPanel)
        ensures
            p == spec_new_panel(),
    {
        ToastPanel {
            style: PanelStyle {
                can_become_key: false,
                nonactivating: true,
                borderless: true,
                backing_buffered: true,
                floating_panel: true,
                hides_on_deactivate: false,
                floating_level: true,
                has_shadow: false,
                background_clear: true,
                opaque: false,
                joins_all_spaces: true,
                stationary: true,
                content_layer_backed: true,
                blur_behind_window: true,
                blur_active: true,
                blur_material_popover: true,
                blur_resizes: true,
            },
            frame: Rect { origin: Point { x: 0, y: 0 }, size: Size { width: 0, height: 0 } },
            corner_radius: 0,
            alpha: 0,
            on_screen: false,
            label: None,
        }
    }
}

/// Where the widget stands in its show/hide cycle.
#[derive(Clone, Copy, Debug, PartialEq, Eq, Structural)]
pub enum Phase {
    /// Off screen, fully transparent.
    Hidden,
    /// Fading in.
    Showing,
    /// Fully shown, waiting for the dismissal timer.
    Visible,
    /// Fading out.
    Hiding,
}

/// A handle to a one-shot dismissal timer the window system was asked to
/// arm.
#[derive(Clone, Copy, Debug, PartialEq, Eq, Structural)]
pub struct TimerHandle {
    /// Distinguishes this timer from every earlier one of the widget.
    pub id: u64,
    /// The timer's interval, milliseconds.
    pub duration: u64,
}

/// One instruction to the window system, in the order returned.
#[derive(Debug, PartialEq)]
pub enum ToastAction {
    /// Invalidate the timer with this id. Safe even if it already fired.
    CancelTimer(u64),
    /// Move and resize the panel to this frame, redisplaying.
    SetWindowFrame(Rect),
    /// Round the content layer's corners to this radius.
    SetCornerRadius(i64),
    /// Replace the panel's message label — or insert it, the first time —
    /// with this one.
    SetLabel(ToastLabel),
    /// Order the panel front without activating the application and fade
    /// its opacity from 0 to 1 over this many milliseconds.
    FadeIn(u64),
    /// Arm this one-shot timer; its firing comes back as
    /// [`Toast::timer_fired`].
    StartTimer(TimerHandle),
    /// Fade the panel's opacity from 1 to 0 over `fade` milliseconds; the
    /// end of the fade comes back as [`Toast::fade_out_completed`] with
    /// this `gen`.
    FadeOut { gen: u64, fade: u64 },
    /// Remove the panel from the screen's window list.
    HideWindow,
}

/// The toast widget: one long-lived panel, its settings, and the timer and
/// fade bookkeeping.
#[derive(Debug)]
pub struct Toast {
    /// The floating panel.
    pub panel: ToastPanel,
    /// The widget's fixed settings.
    pub options: ToastConfig,
    /// Where the widget stands in its show/hide cycle.
    pub phase: Phase,
    /// The one pending dismissal timer, if any.
    pub pending_timer: Option<TimerHandle>,
    /// The id the next armed timer will get; grows with every call.
    pub next_timer_id: u64,
    /// The generation of the latest fade-out; an older fade-out's
    /// completion is stale and ignored.
    pub fade_gen: u64,
}

/// The widget's invariant: the settings are in range, the panel carries the
/// fixed style, at most one timer is pending — always a future one, always
/// for the configured duration, and only while the toast is up — and the
/// panel is off screen and transparent exactly when the cycle is at rest.
pub open spec fn inv(t: Toast) -> bool {
    &&& config_ok(t.options)
    &&& t.panel.style == spec_panel_style()
    &&& (t.pending_timer matches Some(h)
        ==> h.id < t.next_timer_id && h.duration == t.options.duration)
    &&& (t.pending_timer is Some ==> t.phase == Phase::Showing || t.phase == Phase::Visible)
    &&& (t.phase == Phase::Hidden ==> !t.panel.on_screen && t.panel.alpha == 0)
    &&& (t.phase != Phase::Hidden ==> t.panel.on_screen)
    &&& (t.phase == Phase::Hiding ==> t.panel.alpha == 0)
    &&& ((t.phase == Phase::Showing || t.phase == Phase::Visible) ==> t.panel.alpha == 100)
}

/// The message's frame inside the panel: inset by the padding, with the
/// content grown by the padding on each side.
pub open spec fn spec_message_frame(c: ToastConfig, content: Size) -> Rect {
    Rect {
        origin: Point { x: c.padding.0, y: (-c.padding.1) as i64 },
        size: Size {
            width: (content.width + 2 * c.padding.0) as i64,
            height: (content.height + 2 * c.padding.1) as i64,
        },
    }
}

/// The panel's frame on the display: horizontally centered, anchored
/// `offset` points from the configured edge, exactly the message frame's
/// size.
pub open spec fn spec_window_frame(c: ToastConfig, d: DisplayInfo, msg: Rect) -> Rect {
    Rect {
        origin: Point {
            x: (d.position.x + d.size.width as int / 2 - msg.size.width as int / 2) as i64,
            y: match c.position {
                ToastPosition::Top => (d.position.y + d.size.height - c.offset) as i64,
                ToastPosition::Bottom => (d.position.y + c.offset) as i64,
            },
        },
        size: msg.size,
    }
}

/// The label `l` shows `text` rendered and styled for `c`, display-only,
/// at `frame`, under the fixed label tag.
pub open spec fn label_is(l: ToastLabel, text: Seq<char>, c: ToastConfig, frame: Rect) -> bool {
    &&& l.html@ == spec_document(c.font_size as nat, html_of(text))
    &&& l.frame == frame
    &&& !l.editable
    &&& !l.bordered
    &&& !l.draws_background
    &&& l.uses_label_color
    &&& l.tag == LABEL_TAG
}

impl Default for Toast {
    /// The widget with the default settings, around a fresh panel. Nothing
    /// is shown yet.
    fn default() -> (t: Toast)
        ensures
            t.options == spec_default_config(),
            t.panel == spec_new_panel(),
            t.phase == Phase::Hidden,
            t.pending_timer is None,
            t.next_timer_id == 0,
            t.fade_gen == 0,
            inv(t),
    {
        Toast::new(ToastConfig::default())
    }
}

impl Toast {
    /// Builds the widget around a fresh panel, with the given settings.
    /// Nothing is shown yet.
    pub fn new(options: ToastConfig) -> (t: Toast)
        requires
            config_ok(options),
        ensures
            t.options == options,
            t.panel == spec_new_panel(),
            t.phase == Phase::Hidden,
            t.pending_timer is None,
            t.next_timer_id == 0,
            t.fade_gen == 0,
            inv(t),
    {
        Toast {
            panel: ToastPanel::default(),
            options,
            phase: Phase::Hidden,
            pending_timer: None,
            next_timer_id: 0,
            fade_gen: 0,
        }
    }

    /// Turns `message`'s markup into the styled document the label shows:
    /// rendered at the configured font size, centered, cut with an ellipsis
    /// instead of wrapped.
    pub fn message(&self, message: &str) -> (m: StyledMessage)
        ensures
            m.html@ == spec_document(self.options.font_size as nat, html_of(message@)),
            m.truncates_tail,
    {
        StyledMessage {
            html: document_for(message, self.options.font_size),
            truncates_tail: true,
        }
    }

    /// The message's frame from its measured content size: the content
    /// grown by the padding on each side, its origin inset by the padding.
    pub fn message_frame(&self, content: Size) -> (r: Rect)
        requires
            config_ok(self.options),
            size_ok(content),
        ensures
            r == spec_message_frame(self.options, content),
    {
        Rect {
            origin: Point { x: self.options.padding.0, y: -self.options.padding.1 },
            size: Size {
                width: content.width + 2 * self.options.padding.0,
                height: content.height + 2 * self.options.padding.1,
            },
        }
    }

    /// Where the panel goes for a message frame `msg_frame` on `display`:
    /// horizontally centered on the display, `offset` points from the
    /// configured edge, exactly the message frame's size.
    pub fn window_frame(&self, display: DisplayInfo, msg_frame: Rect) -> (r: Rect)
        requires
            config_ok(self.options),
            display_ok(display),
            0 <= msg_frame.size.width <= 3 * MAX_COORD,
            0 <= msg_frame.size.height <= 3 * MAX_COORD,
        ensures
            r == spec_window_frame(self.options, display, msg_frame),
    {
        let width: i64 = msg_frame.size.width;
        let height: i64 = msg_frame.size.height;
        let half_display: i64 = ((display.size.width as u64) / 2) as i64;
        let half_width: i64 = ((width as u64) / 2) as i64;
        let x: i64 = display.position.x + half_display - half_width;
        let y: i64 = match self.options.position {
            ToastPosition::Top => display.position.y + display.size.height - self.options.offset,
            ToastPosition::Bottom => display.position.y + self.options.offset,
        };
        Rect { origin: Point { x, y }, size: Size { width, height } }
    }

    /// Moves and resizes the panel to fit the message frame on `display`,
    /// and rounds the content corners to half the height: the pill shape
    /// always matches the content size.
    pub fn resize(&mut self, message_frame: Rect, display: DisplayInfo)
        requires
            config_ok(old(self).options),
            display_ok(display),
            0 <= message_frame.size.width <= 3 * MAX_COORD,
            0 <= message_frame.size.height <= 3 * MAX_COORD,
        ensures
            *final(self) == (Toast {
                panel: ToastPanel {
                    frame: spec_window_frame(old(self).options, display, message_frame),
                    corner_radius: (spec_window_frame(old(self).options, display, message_frame)
                        .size.height as int / 2) as i64,
                    ..old(self).panel
                },
                ..*old(self)
            }),
    {
        let frame = self.window_frame(display, message_frame);
        self.panel.frame = frame;
        self.panel.corner_radius = ((frame.size.height as u64) / 2) as i64;
    }

    /// Builds the label node for styled content and a frame: display-only,
    /// unbordered, without background, in the standard label color, under
    /// the fixed label tag.
    pub fn label(&self, message: StyledMessage, frame: Rect) -> (l: ToastLabel)
        ensures
            l.html@ == message.html@,
            l.frame == frame,
            !l.editable,
            !l.bordered,
            !l.draws_background,
            l.uses_label_color,
            l.tag == LABEL_TAG,
    {
        ToastLabel {
            frame,
            html: message.html,
            editable: false,
            bordered: false,
            draws_background: false,
            uses_label_color: true,
            tag: LABEL_TAG,
        }
    }

    /// Puts `label` in the panel: the node under the fixed label tag is
    /// replaced if one is there, else the label is inserted. Returns
    /// whether a previous label was replaced.
    pub fn update_label(&mut self, label: ToastLabel) -> (replaced: bool)
        ensures
            *final(self) == (Toast {
                panel: ToastPanel { label: Some(label), ..old(self).panel },
                ..*old(self)
            }),
            replaced == old(self).panel.label is Some,
    {
        let replaced = self.panel.label.is_some();
        self.panel.label = Some(label);
        replaced
    }

    /// Shows `text` as the toast. Any pending dismissal is cancelled first,
    /// so exactly one dismissal stays scheduled; the same panel is reused,
    /// resized and relabelled in place, faded in, and a fresh timer armed.
    /// `display` is the display under the pointer and `content` the
    /// measured natural size of the styled message, both from the host.
    pub fn toast(&mut self, text: &str, display: DisplayInfo, content: Size) -> (acts: Vec<
        ToastAction,
    >)
        requires
            inv(*old(self)),
            display_ok(display),
            size_ok(content),
            old(self).next_timer_id < u64::MAX,
        ensures
            toast_rel(*old(self), *final(self), acts@, text@, display, content),
            inv(*final(self)),
    {
        let mut acts: Vec<ToastAction> = Vec::new();
        match &self.pending_timer {
            Some(h) => acts.push(ToastAction::CancelTimer(h.id)),
            None => (),
        }
        self.pending_timer = None;
        let styled = self.message(text);
        let msg_frame = self.message_frame(content);
        self.resize(msg_frame, display);
        acts.push(ToastAction::SetWindowFrame(self.panel.frame));
        acts.push(ToastAction::SetCornerRadius(self.panel.corner_radius));
        let label = self.label(styled, msg_frame);
        acts.push(ToastAction::SetLabel(label.clone()));
        self.update_label(label);
        self.panel.alpha = 100;
        self.panel.on_screen = true;
        self.phase = Phase::Showing;
        acts.push(ToastAction::FadeIn(self.options.fade_duration));
        let handle = TimerHandle { id: self.next_timer_id, duration: self.options.duration };
        self.next_timer_id = self.next_timer_id + 1;
        self.pending_timer = Some(handle);
        acts.push(ToastAction::StartTimer(handle));
        acts
    }

    /// The window system reports that the timer `id` fired. If it is the
    /// pending dismissal, the widget starts fading out; a timer that is no
    /// longer pending is stale and changes nothing.
    pub fn timer_fired(&mut self, id: u64) -> (acts: Vec<ToastAction>)
        requires
            inv(*old(self)),
            old(self).fade_gen < u64::MAX,
        ensures
            timer_rel(*old(self), *final(self), acts@, id),
            inv(*final(self)),
    {
        let hit = match &self.pending_timer {
            Some(h) => h.id == id,
            None => false,
        };
        if hit {
            self.pending_timer = None;
            self.phase = Phase::Hiding;
            self.fade_gen = self.fade_gen + 1;
            self.panel.alpha = 0;
            let mut acts: Vec<ToastAction> = Vec::new();
            acts.push(ToastAction::FadeOut { gen: self.fade_gen, fade: self.options.fade_duration });
            acts
        } else {
            Vec::new()
        }
    }

    /// The window system reports that a fade-in finished: the toast is
    /// fully shown. A fade-in overtaken by a newer call changes nothing.
    pub fn fade_in_completed(&mut self)
        requires
            inv(*old(self)),
        ensures
            fade_in_rel(*old(self), *final(self)),
            inv(*final(self)),
    {
        if matches!(self.phase, Phase::Showing) {
            self.phase = Phase::Visible;
        }
    }

    /// The window system reports that the fade-out of generation `gen`
    /// reached full transparency. Only then, and only if that fade-out is
    /// still current, does the panel leave the screen; the completion of a
    /// fade-out overtaken by a newer call is stale and changes nothing.
    pub fn fade_out_completed(&mut self, gen: u64) -> (acts: Vec<ToastAction>)
        requires
            inv(*old(self)),
        ensures
            fade_out_rel(*old(self), *final(self), acts@, gen),
            inv(*final(self)),
    {
        let current = matches!(self.phase, Phase::Hiding) && gen == self.fade_gen;
        if current {
            self.phase = Phase::Hidden;
            self.panel.on_screen = false;
            let mut acts: Vec<ToastAction> = Vec::new();
            acts.push(ToastAction::HideWindow);
            acts
        } else {
            Vec::new()
        }
    }
}

/// What one call of [`Toast::toast`] does: every pending dismissal is
/// cancelled before anything else, the panel is resized, relabelled, faded
/// in, and exactly one fresh timer is armed, in that order.
pub open spec fn toast_rel(
    pre: Toast,
    post: Toast,
    acts: Seq<ToastAction>,
    text: Seq<char>,
    display: DisplayInfo,
    content: Size,
) -> bool {
    let msg = spec_message_frame(pre.options, content);
    let win = spec_window_frame(pre.options, display, msg);
    let n: int = if pre.pending_timer is Some { 1int } else { 0int };
    let handle = TimerHandle { id: pre.next_timer_id, duration: pre.options.duration };
    &&& post.options == pre.options
    &&& post.phase == Phase::Showing
    &&& post.pending_timer == Some(handle)
    &&& post.next_timer_id == pre.next_timer_id + 1
    &&& post.fade_gen == pre.fade_gen
    &&& post.panel.style == pre.panel.style
    &&& post.panel.frame == win
    &&& post.panel.corner_radius == win.size.height as int / 2
    &&& post.panel.alpha == 100
    &&& post.panel.on_screen
    &&& post.panel.label matches Some(l) && label_is(l, text, pre.options, msg) && acts[n + 2]
        == ToastAction::SetLabel(l)
    &&& acts.len() == n + 5
    &&& (pre.pending_timer matches Some(h) ==> acts[0] == ToastAction::CancelTimer(h.id))
    &&& acts[n] == ToastAction::SetWindowFrame(win)
    &&& acts[n + 1] == ToastAction::SetCornerRadius((win.size.height as int / 2) as i64)
    &&& acts[n + 3] == ToastAction::FadeIn(pre.options.fade_duration)
    &&& acts[n + 4] == ToastAction::StartTimer(handle)
}

/// The timer `id` is the pending dismissal of `t`.
pub open spec fn timer_pending(t: Toast, id: u64) -> bool {
    t.pending_timer matches Some(h) && h.id == id
}

/// What [`Toast::timer_fired`] does: the pending dismissal, and only it,
/// clears the timer slot and starts the fade-out of the next generation;
/// anything else changes nothing.
pub open spec fn timer_rel(pre: Toast, post: Toast, acts: Seq<ToastAction>, id: u64) -> bool {
    if timer_pending(pre, id) {
        &&& post == (Toast {
            phase: Phase::Hiding,
            pending_timer: None,
            fade_gen: (pre.fade_gen + 1) as u64,
            panel: ToastPanel { alpha: 0, ..pre.panel },
            ..pre
        })
        &&& acts =~= seq![
            ToastAction::FadeOut {
                gen: (pre.fade_gen + 1) as u64,
                fade: pre.options.fade_duration,
            },
        ]
    } else {
        &&& post == pre
        &&& acts =~= Seq::<ToastAction>::empty()
    }
}

/// What [`Toast::fade_in_completed`] does: a fade-in still under way
/// settles the widget at fully shown; a stale one changes nothing.
pub open spec fn fade_in_rel(pre: Toast, post: Toast) -> bool {
    if pre.phase == Phase::Showing {
        post == (Toast { phase: Phase::Visible, ..pre })
    } else {
        post == pre
    }
}

/// What [`Toast::fade_out_completed`] does: only the current generation's
/// completed fade-out takes the panel off the screen; a stale one changes
/// nothing. The panel is already fully transparent when this happens.
pub open spec fn fade_out_rel(pre: Toast, post: Toast, acts: Seq<ToastAction>, gen: u64) -> bool {
    if pre.phase == Phase::Hiding && gen == pre.fade_gen {
        &&& post == (Toast {
            phase: Phase::Hidden,
            panel: ToastPanel { on_screen: false, ..pre.panel },
            ..pre
        })
        &&& acts =~= seq![ToastAction::HideWindow]
    } else {
        &&& post == pre
        &&& acts =~= Seq::<ToastAction>::empty()
    }
}

/// Everything the outside world can do to the widget.
pub ghost enum ToastEvent {
    /// A call of [`Toast::toast`].
    Toast { text: Seq<char>, display: DisplayInfo, content: Size },
    /// The window system reports the timer `id` fired.
    TimerFired { id: u64 },
    /// The window system reports a fade-in finished.
    FadeInCompleted,
    /// The window system reports the fade-out of generation `gen` reached
    /// full transparency.
    FadeOutCompleted { gen: u64 },
}

/// One step of the widget: the transition the event's handler makes.
pub open spec fn step_rel(pre: Toast, post: Toast, acts: Seq<ToastAction>, e: ToastEvent) -> bool {
    match e {
        ToastEvent::Toast { text, display, content } => toast_rel(
            pre,
            post,
            acts,
            text,
            display,
            content,
        ),
        ToastEvent::TimerFired { id } => timer_rel(pre, post, acts, id),
        ToastEvent::FadeInCompleted => fade_in_rel(pre, post) && acts =~= Seq::<
            ToastAction,
        >::empty(),
        ToastEvent::FadeOutCompleted { gen } => fade_out_rel(pre, post, acts, gen),
    }
}

/// Every step keeps the widget's invariant.
pub proof fn lemma_step_preserves_inv(pre: Toast, post: Toast, acts: Seq<ToastAction>, e: ToastEvent)
    requires
        inv(pre),
        step_rel(pre, post, acts, e),
    ensures
        inv(post),
{
}

/// Each call schedules exactly one dismissal: afterwards precisely the
/// fresh timer of that call — armed for the configured duration — is
/// pending, and whatever timer was pending before was cancelled, as the
/// first instruction, before the new one was armed.
pub proof fn lemma_at_most_one_timer(
    pre: Toast,
    post: Toast,
    acts: Seq<ToastAction>,
    text: Seq<char>,
    display: DisplayInfo,
    content: Size,
)
    requires
        toast_rel(pre, post, acts, text, display, content),
    ensures
        post.pending_timer == Some(
            TimerHandle { id: pre.next_timer_id, duration: pre.options.duration },
        ),
        pre.pending_timer matches Some(h) ==> acts[0] == ToastAction::CancelTimer(h.id),
        acts.last() == ToastAction::StartTimer(
            TimerHandle { id: pre.next_timer_id, duration: pre.options.duration },
        ),
        forall|i: int|
            (0 <= i < acts.len() && (#[trigger] acts[i]) matches ToastAction::StartTimer(_))
                ==> i == acts.len() - 1,
{
    let n: int = if pre.pending_timer is Some { 1int } else { 0int };
    assert forall|i: int|
        0 <= i < acts.len() && (#[trigger] acts[i]) matches ToastAction::StartTimer(_) implies i
        == acts.len() - 1 by {
        if i != acts.len() - 1 {
            assert(i == 0 || i == n || i == n + 1 || i == n + 2 || i == n + 3);
        }
    }
}

/// Showing a second message while the first is still up cancels the first
/// message's dismissal — before anything else — and leaves the widget
/// showing the second message only, with the one timer of the second call
/// pending: a fresh timer, not the first call's.
pub proof fn lemma_retrigger(
    t0: Toast,
    t1: Toast,
    t2: Toast,
    a1: Seq<ToastAction>,
    a2: Seq<ToastAction>,
    first: Seq<char>,
    second: Seq<char>,
    d1: DisplayInfo,
    d2: DisplayInfo,
    s1: Size,
    s2: Size,
)
    requires
        toast_rel(t0, t1, a1, first, d1, s1),
        toast_rel(t1, t2, a2, second, d2, s2),
    ensures
        t2.pending_timer == Some(
            TimerHandle { id: t1.next_timer_id, duration: t0.options.duration },
        ),
        a2[0] == ToastAction::CancelTimer(t1.pending_timer->0.id),
        t1.pending_timer->0.id != t1.next_timer_id,
        t2.panel.label matches Some(l) && l.html@ == spec_document(
            t0.options.font_size as nat,
            html_of(second),
        ),
{
}

/// The panel leaves the screen only through a completed fade-out: a step
/// takes it off screen, or orders it off, only when the current
/// generation's fade-out has reached full transparency, from the fading
/// state, and the step ends at rest. At rest the panel is always off
/// screen and fully transparent.
pub proof fn lemma_fade_then_hide(pre: Toast, post: Toast, acts: Seq<ToastAction>, e: ToastEvent)
    requires
        inv(pre),
        step_rel(pre, post, acts, e),
    ensures
        pre.panel.on_screen && !post.panel.on_screen ==> {
            &&& e matches ToastEvent::FadeOutCompleted { gen } && gen == pre.fade_gen
            &&& pre.phase == Phase::Hiding
            &&& pre.panel.alpha == 0
            &&& post.phase == Phase::Hidden
        },
        acts.contains(ToastAction::HideWindow) ==> {
            &&& e matches ToastEvent::FadeOutCompleted { gen } && gen == pre.fade_gen
            &&& pre.phase == Phase::Hiding
            &&& pre.panel.alpha == 0
        },
        post.phase == Phase::Hidden ==> !post.panel.on_screen && post.panel.alpha == 0,
{
    match e {
        ToastEvent::Toast { text, display, content } => {
            if acts.contains(ToastAction::HideWindow) {
                let i = choose|i: int| 0 <= i < acts.len() && acts[i] == ToastAction::HideWindow;
                let n: int = if pre.pending_timer is Some { 1int } else { 0int };
                assert(i == 0 || i == n || i == n + 1 || i == n + 2 || i == n + 3 || i == n + 4);
                assert(false);
            }
        },
        ToastEvent::TimerFired { id } => {
            if acts.contains(ToastAction::HideWindow) {
                let i = choose|i: int| 0 <= i < acts.len() && acts[i] == ToastAction::HideWindow;
                assert(false);
            }
        },
        ToastEvent::FadeInCompleted => {},
        ToastEvent::FadeOutCompleted { gen } => {},
    }
}

/// One call of [`Toast::toast`] takes `pre` to `post`, whatever the
/// message, display and content size were.
#[verifier::opaque]
pub open spec fn toast_step(pre: Toast, post: Toast) -> bool {
    exists|acts: Seq<ToastAction>, text: Seq<char>, display: DisplayInfo, content: Size|
        #[trigger] toast_rel(pre, post, acts, text, display, content)
}

/// A run of consecutive calls of [`Toast::toast`]: each state follows from
/// the one before it by one call.
pub open spec fn toast_chain(states: Seq<Toast>) -> bool {
    forall|i: int| 0 <= i < states.len() - 1 ==> toast_step(#[trigger] states[i], states[i + 1])
}

/// A witnessed call is a step: the form callers use to build a run out of
/// the calls they made.
pub proof fn lemma_toast_step_intro(
    pre: Toast,
    post: Toast,
    acts: Seq<ToastAction>,
    text: Seq<char>,
    display: DisplayInfo,
    content: Size,
)
    requires
        toast_rel(pre, post, acts, text, display, content),
    ensures
        toast_step(pre, post),
{
    reveal(toast_step);
}

/// One call keeps the settings and leaves exactly its own fresh timer
/// pending.
pub proof fn lemma_toast_step_effect(pre: Toast, post: Toast)
    requires
        toast_step(pre, post),
    ensures
        post.options == pre.options,
        post.pending_timer == Some(
            TimerHandle { id: pre.next_timer_id, duration: pre.options.duration },
        ),
{
    reveal(toast_step);
    let (acts, text, display, content) = choose|
        acts: Seq<ToastAction>,
        text: Seq<char>,
        display: DisplayInfo,
        content: Size,
    | #[trigger] toast_rel(pre, post, acts, text, display, content);
}

/// The settings never change: every state of a run keeps the first
/// state's settings.
pub proof fn lemma_chain_keeps_options(states: Seq<Toast>)
    requires
        toast_chain(states),
        states.len() >= 1,
    ensures
        forall|i: int| 0 <= i < states.len() ==> (#[trigger] states[i]).options == states[0].options,
    decreases states.len(),
{
    if states.len() > 1 {
        let prefix = states.drop_last();
        assert(toast_chain(prefix)) by {
            assert forall|i: int| 0 <= i < prefix.len() - 1 implies toast_step(
                #[trigger] prefix[i],
                prefix[i + 1],
            ) by {
                assert(prefix[i] == states[i]);
                assert(prefix[i + 1] == states[i + 1]);
                assert(toast_step(states[i], states[i + 1]));
            }
        }
        lemma_chain_keeps_options(prefix);
        let k = states.len() - 2;
        lemma_toast_step_effect(states[k], states[k + 1]);
        assert forall|i: int| 0 <= i < states.len() implies (#[trigger] states[i]).options
            == states[0].options by {
            assert(prefix[0] == states[0]);
            if i < states.len() - 1 {
                assert(prefix[i] == states[i]);
                assert(prefix[i].options == prefix[0].options);
            } else {
                assert(prefix[k] == states[k]);
                assert(prefix[k].options == prefix[0].options);
            }
        }
    }
}

/// However many calls arrive in a row, exactly one dismissal is pending
/// afterwards: the fresh timer of the last call, armed for the configured
/// duration.
pub proof fn lemma_rapid_sequence(states: Seq<Toast>)
    requires
        toast_chain(states),
        states.len() >= 2,
    ensures
        states.last().pending_timer == Some(
            TimerHandle {
                id: states[states.len() - 2].next_timer_id,
                duration: states[0].options.duration,
            },
        ),
{
    lemma_chain_keeps_options(states);
    let k = states.len() - 2;
    lemma_toast_step_effect(states[k], states[k + 1]);
    assert(states.last() == states[k + 1]);
}

} // verus!
