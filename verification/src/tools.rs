//! The tool subsystem: one state machine per tool variant, dispatched over
//! a tagged union.  Exactly one tool is active at a time; it consumes input
//! events and style changes and produces edits.  A tool is stateful across
//! the events of one gesture: a shape tool goes idle, then previews while
//! dragging, then commits a drawable on drag end; the text tool captures
//! composition events while editing and commits on an explicit commit key or
//! on deactivation.

use vstd::prelude::*;

use crate::drawable::{Drawable, SpecDrawable};
use crate::math::{SpecVec2D, Vec2D};
use crate::sketch_board::{InputEvent, Key, KeyEventMsg, MouseButton, MouseEventMsg,
    MouseEventType, TextEventMsg};
use crate::style::Style;

verus! {

/// The tool variants of the registry.
///
/// `Pointer`, `Crop` and `Picker` hold no gesture state here: the pointer
/// only hovers, and cropping and colour picking act on the renderer and the
/// toolbar — collaborators outside this core — so those variants consume no
/// events and never commit a drawable.
#[derive(Clone, Copy, Debug, PartialEq, Eq, Structural)]
pub enum Tools {
    Pointer,
    Crop,
    Line,
    Arrow,
    Rectangle,
    Ellipse,
    Highlight,
    Freehand,
    Text,
    Blur,
    Picker,
}

/// The kinds whose gesture is a single drag producing one shape.
pub open spec fn is_drag_kind(k: Tools) -> bool {
    k == Tools::Line || k == Tools::Arrow || k == Tools::Rectangle || k == Tools::Ellipse
        || k == Tools::Highlight || k == Tools::Blur
}

/// The result of feeding one event to a tool.
#[derive(Clone, Debug)]
pub enum ToolUpdateResult {
    Unmodified,
    Redraw,
    Commit(Drawable),
    StopPropagation,
    RedrawAndStopPropagation,
}

/// Events a tool consumes.
#[derive(Clone, Debug)]
pub enum ToolEvent {
    Activated,
    Deactivated,
    Input(InputEvent),
    StyleChanged(Style),
}

/// An in-progress drag: the absolute image-space start point and the latest
/// image-space delta from it.
#[derive(Clone, Copy, Debug)]
pub struct DragState {
    pub start: Vec2D,
    pub extent: Vec2D,
}

/// An in-progress freehand mark: the drag start and the absolute points
/// collected so far.
#[derive(Clone, Debug)]
pub struct FreehandState {
    pub start: Vec2D,
    pub points: Vec<Vec2D>,
}

/// An in-progress text edit: the anchor, the committed characters, and the
/// current input-method preedit.
#[derive(Clone, Debug)]
pub struct TextState {
    pub pos: Vec2D,
    pub buffer: Vec<char>,
    pub preedit: Vec<char>,
}

/// The gesture state of the active tool.
#[derive(Clone, Debug)]
pub enum ToolState {
    Idle,
    Dragging(DragState),
    Drawing(FreehandState),
    Editing(TextState),
}

/// The active tool: its kind, the style snapshot it draws with, and its
/// gesture state.
#[derive(Clone, Debug)]
pub struct Tool {
    pub kind: Tools,
    pub style: Style,
    pub state: ToolState,
}

// ---------------------------------------------------------------------------
// Ghost views.  Collections become sequences so that contracts can state
// exactly how a transition changes them.
// ---------------------------------------------------------------------------

/// Ghost view of the gesture state.
pub enum SpecToolState {
    Idle,
    Dragging { start: Vec2D, extent: Vec2D },
    Drawing { start: Vec2D, points: Seq<Vec2D> },
    Editing { pos: Vec2D, buffer: Seq<char>, preedit: Seq<char> },
}

impl ToolState {
    pub open spec fn sview(self) -> SpecToolState {
        match self {
            ToolState::Idle => SpecToolState::Idle,
            ToolState::Dragging(d) => SpecToolState::Dragging { start: d.start, extent: d.extent },
            ToolState::Drawing(f) => SpecToolState::Drawing { start: f.start, points: f.points@ },
            ToolState::Editing(t) => SpecToolState::Editing {
                pos: t.pos,
                buffer: t.buffer@,
                preedit: t.preedit@,
            },
        }
    }
}

/// Ghost view of the whole tool.
pub struct SpecTool {
    pub kind: Tools,
    pub style: Style,
    pub state: SpecToolState,
}

impl Tool {
    pub open spec fn tview(self) -> SpecTool {
        SpecTool { kind: self.kind, style: self.style, state: self.state.sview() }
    }
}

/// Ghost view of a tool update result.
pub enum SpecResult {
    Unmodified,
    Redraw,
    Commit(SpecDrawable),
    StopPropagation,
    RedrawAndStopPropagation,
}

impl ToolUpdateResult {
    pub open spec fn rview(self) -> SpecResult {
        match self {
            ToolUpdateResult::Unmodified => SpecResult::Unmodified,
            ToolUpdateResult::Redraw => SpecResult::Redraw,
            ToolUpdateResult::Commit(d) => SpecResult::Commit(d.dview()),
            ToolUpdateResult::StopPropagation => SpecResult::StopPropagation,
            ToolUpdateResult::RedrawAndStopPropagation => SpecResult::RedrawAndStopPropagation,
        }
    }
}

/// Ghost view of a composition event; only the composed text drives the
/// tool transitions.
pub enum SpecTextEvent {
    Commit(Seq<char>),
    Preedit(Seq<char>),
    PreeditEnd,
}

impl TextEventMsg {
    pub open spec fn tev(self) -> SpecTextEvent {
        match self {
            TextEventMsg::Commit(txt) => SpecTextEvent::Commit(txt@),
            TextEventMsg::Preedit { text, cursor_chars, spans } => SpecTextEvent::Preedit(text@),
            TextEventMsg::PreeditEnd => SpecTextEvent::PreeditEnd,
        }
    }
}

/// Ghost view of an input event.
pub enum SpecInput {
    Mouse(MouseEventMsg),
    Key(KeyEventMsg),
    KeyRelease(KeyEventMsg),
    Text(SpecTextEvent),
}

impl InputEvent {
    pub open spec fn iview(self) -> SpecInput {
        match self {
            InputEvent::Mouse(m) => SpecInput::Mouse(m),
            InputEvent::Key(k) => SpecInput::Key(k),
            InputEvent::KeyRelease(k) => SpecInput::KeyRelease(k),
            InputEvent::Text(t) => SpecInput::Text(t.tev()),
        }
    }
}

/// Ghost view of a tool event.
pub enum SpecToolEvent {
    Activated,
    Deactivated,
    Input(SpecInput),
    StyleChanged(Style),
}

impl ToolEvent {
    pub open spec fn eview(self) -> SpecToolEvent {
        match self {
            ToolEvent::Activated => SpecToolEvent::Activated,
            ToolEvent::Deactivated => SpecToolEvent::Deactivated,
            ToolEvent::Input(ie) => SpecToolEvent::Input(ie.iview()),
            ToolEvent::StyleChanged(s) => SpecToolEvent::StyleChanged(s),
        }
    }
}

// ---------------------------------------------------------------------------
// The transition relation, as one spec function per concern.
// ---------------------------------------------------------------------------

/// The drawable a drag produces, by tool kind.
pub open spec fn spec_drag_drawable(kind: Tools, start: Vec2D, extent: Vec2D, style: Style)
    -> SpecDrawable {
    match kind {
        Tools::Line => SpecDrawable::Line { start, delta: extent, style },
        Tools::Arrow => SpecDrawable::Arrow { start, delta: extent, style },
        Tools::Ellipse => SpecDrawable::Ellipse { start, extent, style },
        Tools::Highlight => SpecDrawable::Highlight { start, extent, style },
        Tools::Blur => SpecDrawable::Blur { start, extent, style },
        _ => SpecDrawable::Rect { start, extent, style },
    }
}

impl SpecTool {
    pub open spec fn with_state(self, st: SpecToolState) -> SpecTool {
        SpecTool { kind: self.kind, style: self.style, state: st }
    }

    /// Whether the tool has an in-progress edit.
    pub open spec fn spec_active(self) -> bool {
        !(self.state is Idle)
    }

    /// Whether the tool currently wants raw text and composition events.
    pub open spec fn spec_input_enabled(self) -> bool {
        self.kind == Tools::Text && self.state is Editing
    }

    /// The drawable the in-progress edit would commit, if any geometry
    /// exists.
    pub open spec fn pending_drawable(self) -> Option<SpecDrawable> {
        match self.state {
            SpecToolState::Idle => None,
            SpecToolState::Dragging { start, extent } => Some(
                spec_drag_drawable(self.kind, start, extent, self.style),
            ),
            SpecToolState::Drawing { start, points } => Some(
                SpecDrawable::Freehand { points, style: self.style },
            ),
            SpecToolState::Editing { pos, buffer, preedit } => if buffer.len() > 0 {
                Some(SpecDrawable::Text { pos, text: buffer, style: self.style })
            } else {
                None
            },
        }
    }

    /// Deactivation finalises the in-progress edit: a commit when geometry
    /// exists, otherwise no change.
    pub open spec fn deactivate_step(self) -> (SpecTool, SpecResult) {
        match self.pending_drawable() {
            Some(d) => (self.with_state(SpecToolState::Idle), SpecResult::Commit(d)),
            None => (self.with_state(SpecToolState::Idle), SpecResult::Unmodified),
        }
    }

    /// Pointer, crop and picker gestures change nothing here: their work
    /// lives in the excluded renderer and toolbar collaborators.
    pub open spec fn mouse_step(self, me: MouseEventMsg) -> (SpecTool, SpecResult) {
        if is_drag_kind(self.kind) {
            self.drag_mouse_step(me)
        } else if self.kind == Tools::Freehand {
            self.freehand_mouse_step(me)
        } else if self.kind == Tools::Text {
            self.text_mouse_step(me)
        } else {
            (self, SpecResult::Unmodified)
        }
    }

    pub open spec fn drag_mouse_step(self, me: MouseEventMsg) -> (SpecTool, SpecResult) {
        if me.type_ == MouseEventType::BeginDrag && me.button == MouseButton::Primary {
            (
                self.with_state(
                    SpecToolState::Dragging {
                        start: me.pos,
                        extent: Vec2D { x: crate::rat::Rat { num: 0, den: 1 }, y: crate::rat::Rat {
                            num: 0,
                            den: 1,
                        } },
                    },
                ),
                SpecResult::Redraw,
            )
        } else if me.type_ == MouseEventType::UpdateDrag && me.button == MouseButton::Primary
            && self.state is Dragging {
            (
                self.with_state(
                    SpecToolState::Dragging { start: self.state->Dragging_start, extent: me.pos },
                ),
                SpecResult::Redraw,
            )
        } else if me.type_ == MouseEventType::EndDrag && me.button == MouseButton::Primary
            && self.state is Dragging {
            (
                self.with_state(SpecToolState::Idle),
                SpecResult::Commit(
                    spec_drag_drawable(self.kind, self.state->Dragging_start, me.pos, self.style),
                ),
            )
        } else {
            (self, SpecResult::Unmodified)
        }
    }

    /// The freehand point a drag delta adds: the drag start plus the delta,
    /// skipped when the exact sum overflows.
    pub open spec fn freehand_extended(self, start: Vec2D, points: Seq<Vec2D>, delta: Vec2D)
        -> Seq<Vec2D> {
        if start.sv().plus(delta.sv()).fits() {
            points.push(spec_vec_sum(start, delta))
        } else {
            points
        }
    }

    pub open spec fn freehand_mouse_step(self, me: MouseEventMsg) -> (SpecTool, SpecResult) {
        if me.type_ == MouseEventType::BeginDrag && me.button == MouseButton::Primary {
            (
                self.with_state(SpecToolState::Drawing { start: me.pos, points: seq![me.pos] }),
                SpecResult::Redraw,
            )
        } else if me.type_ == MouseEventType::UpdateDrag && me.button == MouseButton::Primary
            && self.state is Drawing {
            let start = self.state->Drawing_start;
            let pts = self.freehand_extended(start, self.state->Drawing_points, me.pos);
            (
                self.with_state(SpecToolState::Drawing { start, points: pts }),
                SpecResult::Redraw,
            )
        } else if me.type_ == MouseEventType::EndDrag && me.button == MouseButton::Primary
            && self.state is Drawing {
            let start = self.state->Drawing_start;
            let pts = self.freehand_extended(start, self.state->Drawing_points, me.pos);
            (
                self.with_state(SpecToolState::Idle),
                SpecResult::Commit(SpecDrawable::Freehand { points: pts, style: self.style }),
            )
        } else {
            (self, SpecResult::Unmodified)
        }
    }

    pub open spec fn text_mouse_step(self, me: MouseEventMsg) -> (SpecTool, SpecResult) {
        if me.type_ == MouseEventType::Click && me.button == MouseButton::Primary {
            match self.state {
                SpecToolState::Editing { pos, buffer, preedit } => if buffer.len() > 0 {
                    (
                        self.with_state(
                            SpecToolState::Editing {
                                pos: me.pos,
                                buffer: Seq::empty(),
                                preedit: Seq::empty(),
                            },
                        ),
                        SpecResult::Commit(
                            SpecDrawable::Text { pos, text: buffer, style: self.style },
                        ),
                    )
                } else {
                    (
                        self.with_state(
                            SpecToolState::Editing {
                                pos: me.pos,
                                buffer: Seq::empty(),
                                preedit: Seq::empty(),
                            },
                        ),
                        SpecResult::Redraw,
                    )
                },
                _ => (
                    self.with_state(
                        SpecToolState::Editing {
                            pos: me.pos,
                            buffer: Seq::empty(),
                            preedit: Seq::empty(),
                        },
                    ),
                    SpecResult::Redraw,
                ),
            }
        } else {
            (self, SpecResult::Unmodified)
        }
    }

    pub open spec fn key_step(self, ke: KeyEventMsg) -> (SpecTool, SpecResult) {
        match self.state {
            SpecToolState::Editing { pos, buffer, preedit } => if ke.key == Key::Return || ke.key
                == Key::KpEnter || ke.key == Key::Escape {
                if buffer.len() > 0 {
                    (
                        self.with_state(SpecToolState::Idle),
                        SpecResult::Commit(
                            SpecDrawable::Text { pos, text: buffer, style: self.style },
                        ),
                    )
                } else {
                    (self.with_state(SpecToolState::Idle), SpecResult::Redraw)
                }
            } else if ke.key == Key::BackSpace {
                if buffer.len() > 0 {
                    (
                        self.with_state(
                            SpecToolState::Editing {
                                pos,
                                buffer: buffer.drop_last(),
                                preedit,
                            },
                        ),
                        SpecResult::RedrawAndStopPropagation,
                    )
                } else {
                    (self, SpecResult::StopPropagation)
                }
            } else {
                (self, SpecResult::StopPropagation)
            },
            SpecToolState::Dragging { .. } => if ke.key == Key::Escape {
                (self.with_state(SpecToolState::Idle), SpecResult::Redraw)
            } else {
                (self, SpecResult::Unmodified)
            },
            SpecToolState::Drawing { .. } => if ke.key == Key::Escape {
                (self.with_state(SpecToolState::Idle), SpecResult::Redraw)
            } else {
                (self, SpecResult::Unmodified)
            },
            SpecToolState::Idle => (self, SpecResult::Unmodified),
        }
    }

    pub open spec fn text_step(self, te: SpecTextEvent) -> (SpecTool, SpecResult) {
        match self.state {
            SpecToolState::Editing { pos, buffer, preedit } => match te {
                SpecTextEvent::Commit(txt) => (
                    self.with_state(
                        SpecToolState::Editing {
                            pos,
                            buffer: buffer + txt,
                            preedit: Seq::empty(),
                        },
                    ),
                    SpecResult::Redraw,
                ),
                SpecTextEvent::Preedit(txt) => (
                    self.with_state(SpecToolState::Editing { pos, buffer, preedit: txt }),
                    SpecResult::Redraw,
                ),
                SpecTextEvent::PreeditEnd => (
                    self.with_state(
                        SpecToolState::Editing { pos, buffer, preedit: Seq::empty() },
                    ),
                    SpecResult::Redraw,
                ),
            },
            _ => (self, SpecResult::Unmodified),
        }
    }

    pub open spec fn input_step(self, ie: SpecInput) -> (SpecTool, SpecResult) {
        match ie {
            SpecInput::Mouse(me) => self.mouse_step(me),
            SpecInput::Key(ke) => self.key_step(ke),
            SpecInput::KeyRelease(_) => (self, SpecResult::Unmodified),
            SpecInput::Text(te) => self.text_step(te),
        }
    }

    /// The full transition relation of a tool on one event.
    pub open spec fn step(self, ev: SpecToolEvent) -> (SpecTool, SpecResult) {
        match ev {
            SpecToolEvent::Activated => (
                self.with_state(SpecToolState::Idle),
                SpecResult::Unmodified,
            ),
            SpecToolEvent::Deactivated => self.deactivate_step(),
            SpecToolEvent::StyleChanged(s) => (
                SpecTool { kind: self.kind, style: s, state: self.state },
                if self.state is Idle {
                    SpecResult::Unmodified
                } else {
                    SpecResult::Redraw
                },
            ),
            SpecToolEvent::Input(ie) => self.input_step(ie),
        }
    }

    /// A tool mid-edit absorbs undo locally: the text tool removes the last
    /// character, a gesture in progress is cancelled; an idle tool leaves
    /// undo to the history.
    pub open spec fn undo_step(self) -> (SpecTool, SpecResult) {
        match self.state {
            SpecToolState::Editing { pos, buffer, preedit } => if buffer.len() > 0 {
                (
                    self.with_state(
                        SpecToolState::Editing { pos, buffer: buffer.drop_last(), preedit },
                    ),
                    SpecResult::Redraw,
                )
            } else {
                (self, SpecResult::Unmodified)
            },
            SpecToolState::Idle => (self, SpecResult::Unmodified),
            _ => (self.with_state(SpecToolState::Idle), SpecResult::Redraw),
        }
    }
}

// ---------------------------------------------------------------------------
// The executable tool.
// ---------------------------------------------------------------------------

impl ToolEvent {
    /// Positions and styles carried by the event are well-formed.
    pub open spec fn wf(self) -> bool {
        match self {
            ToolEvent::StyleChanged(s) => s.wf(),
            ToolEvent::Input(InputEvent::Mouse(me)) => me.pos.wf(),
            _ => true,
        }
    }
}

/// Executable mirror of `is_drag_kind`.
pub fn kind_is_drag(k: Tools) -> (r: bool)
    ensures
        r == is_drag_kind(k),
{
    k == Tools::Line || k == Tools::Arrow || k == Tools::Rectangle || k == Tools::Ellipse || k
        == Tools::Highlight || k == Tools::Blur
}

/// Build the drawable a finished drag commits.
fn drag_drawable(kind: Tools, start: Vec2D, extent: Vec2D, style: Style) -> (d: Drawable)
    requires
        start.wf(),
        extent.wf(),
        style.wf(),
    ensures
        d.dview() == spec_drag_drawable(kind, start, extent, style),
        d.wf(),
{
    match kind {
        Tools::Line => Drawable::Line { start, delta: extent, style },
        Tools::Arrow => Drawable::Arrow { start, delta: extent, style },
        Tools::Ellipse => Drawable::Ellipse { start, extent, style },
        Tools::Highlight => Drawable::Highlight { start, extent, style },
        Tools::Blur => Drawable::Blur { start, extent, style },
        _ => Drawable::Rect { start, extent, style },
    }
}

impl Tool {
    /// Well-formed: the gesture state matches the tool kind and all
    /// geometry is well-formed.
    pub open spec fn wf(self) -> bool {
        self.style.wf() && match self.state {
            ToolState::Idle => true,
            ToolState::Dragging(d) => is_drag_kind(self.kind) && d.start.wf() && d.extent.wf(),
            ToolState::Drawing(f) => self.kind == Tools::Freehand && f.start.wf() && forall|
                i: int,
            |
                0 <= i < f.points@.len() ==> #[trigger] f.points@[i].wf(),
            ToolState::Editing(t) => self.kind == Tools::Text && t.pos.wf(),
        }
    }

    /// A fresh, idle tool of the given kind: the registry entry.
    pub fn new(kind: Tools, style: Style) -> (t: Tool)
        requires
            style.wf(),
        ensures
            t.wf(),
            t.tview() == (SpecTool { kind, style, state: SpecToolState::Idle }),
    {
        Tool { kind, style, state: ToolState::Idle }
    }

    /// Whether the tool has an in-progress edit.
    pub fn active(&self) -> (r: bool)
        ensures
            r == self.tview().spec_active(),
    {
        match self.state {
            ToolState::Idle => false,
            _ => true,
        }
    }

    /// Whether the tool currently wants raw text and composition events.
    pub fn input_enabled(&self) -> (r: bool)
        ensures
            r == self.tview().spec_input_enabled(),
    {
        match self.state {
            ToolState::Editing(_) => self.kind == Tools::Text,
            _ => false,
        }
    }

    pub fn get_tool_type(&self) -> (r: Tools)
        ensures
            r == self.kind,
    {
        self.kind
    }

    /// Feed one event to the tool; the transition is exactly `SpecTool::step`.
    pub fn handle_event(&mut self, ev: ToolEvent) -> (r: ToolUpdateResult)
        requires
            old(self).wf(),
            ev.wf(),
        ensures
            final(self).wf(),
            final(self).tview() == old(self).tview().step(ev.eview()).0,
            r.rview() == old(self).tview().step(ev.eview()).1,
            final(self).kind == old(self).kind,
            r matches ToolUpdateResult::Commit(d) ==> d.wf(),
    {
        match ev {
            ToolEvent::Activated => {
                self.state = ToolState::Idle;
                ToolUpdateResult::Unmodified
            },
            ToolEvent::Deactivated => self.handle_deactivated(),
            ToolEvent::StyleChanged(s) => {
                self.style = s;
                match self.state {
                    ToolState::Idle => ToolUpdateResult::Unmodified,
                    _ => ToolUpdateResult::Redraw,
                }
            },
            ToolEvent::Input(ie) => self.handle_input(ie),
        }
    }

    /// Finalise any in-progress edit: commit it when geometry exists.
    pub fn handle_deactivated(&mut self) -> (r: ToolUpdateResult)
        requires
            old(self).wf(),
        ensures
            final(self).wf(),
            final(self).tview() == old(self).tview().deactivate_step().0,
            r.rview() == old(self).tview().deactivate_step().1,
            final(self).kind == old(self).kind,
            r matches ToolUpdateResult::Commit(d) ==> d.wf(),
    {
        let mut st = ToolState::Idle;
        core::mem::swap(&mut st, &mut self.state);
        match st {
            ToolState::Idle => ToolUpdateResult::Unmodified,
            ToolState::Dragging(d) => ToolUpdateResult::Commit(
                drag_drawable(self.kind, d.start, d.extent, self.style),
            ),
            ToolState::Drawing(f) => ToolUpdateResult::Commit(
                Drawable::Freehand { points: f.points, style: self.style },
            ),
            ToolState::Editing(t) => {
                if t.buffer.len() > 0 {
                    ToolUpdateResult::Commit(
                        Drawable::Text { pos: t.pos, text: t.buffer, style: self.style },
                    )
                } else {
                    ToolUpdateResult::Unmodified
                }
            },
        }
    }

    pub fn handle_input(&mut self, ie: InputEvent) -> (r: ToolUpdateResult)
        requires
            old(self).wf(),
            ToolEvent::Input(ie).wf(),
        ensures
            final(self).wf(),
            final(self).tview() == old(self).tview().input_step(ie.iview()).0,
            r.rview() == old(self).tview().input_step(ie.iview()).1,
            final(self).kind == old(self).kind,
            r matches ToolUpdateResult::Commit(d) ==> d.wf(),
    {
        match ie {
            InputEvent::Mouse(me) => self.handle_mouse(me),
            InputEvent::Key(ke) => self.handle_key(ke),
            InputEvent::KeyRelease(_) => ToolUpdateResult::Unmodified,
            InputEvent::Text(te) => self.handle_text(te),
        }
    }

    pub fn handle_mouse(&mut self, me: MouseEventMsg) -> (r: ToolUpdateResult)
        requires
            old(self).wf(),
            me.pos.wf(),
        ensures
            final(self).wf(),
            final(self).tview() == old(self).tview().mouse_step(me).0,
            r.rview() == old(self).tview().mouse_step(me).1,
            final(self).kind == old(self).kind,
            r matches ToolUpdateResult::Commit(d) ==> d.wf(),
    {
        if kind_is_drag(self.kind) {
            self.handle_drag_mouse(me)
        } else if self.kind == Tools::Freehand {
            self.handle_freehand_mouse(me)
        } else if self.kind == Tools::Text {
            self.handle_text_mouse(me)
        } else {
            ToolUpdateResult::Unmodified
        }
    }

    fn handle_drag_mouse(&mut self, me: MouseEventMsg) -> (r: ToolUpdateResult)
        requires
            old(self).wf(),
            is_drag_kind(old(self).kind),
            me.pos.wf(),
        ensures
            final(self).wf(),
            final(self).tview() == old(self).tview().drag_mouse_step(me).0,
            r.rview() == old(self).tview().drag_mouse_step(me).1,
            final(self).kind == old(self).kind,
            r matches ToolUpdateResult::Commit(d) ==> d.wf(),
    {
        if me.type_ == MouseEventType::BeginDrag && me.button == MouseButton::Primary {
            self.state = ToolState::Dragging(DragState { start: me.pos, extent: Vec2D::zero() });
            ToolUpdateResult::Redraw
        } else if me.type_ == MouseEventType::UpdateDrag && me.button == MouseButton::Primary {
            match &mut self.state {
                ToolState::Dragging(d) => {
                    d.extent = me.pos;
                    ToolUpdateResult::Redraw
                },
                _ => ToolUpdateResult::Unmodified,
            }
        } else if me.type_ == MouseEventType::EndDrag && me.button == MouseButton::Primary {
            match self.state {
                ToolState::Dragging(d) => {
                    self.state = ToolState::Idle;
                    ToolUpdateResult::Commit(drag_drawable(self.kind, d.start, me.pos, self.style))
                },
                _ => ToolUpdateResult::Unmodified,
            }
        } else {
            ToolUpdateResult::Unmodified
        }
    }

    fn handle_freehand_mouse(&mut self, me: MouseEventMsg) -> (r: ToolUpdateResult)
        requires
            old(self).wf(),
            old(self).kind == Tools::Freehand,
            me.pos.wf(),
        ensures
            final(self).wf(),
            final(self).tview() == old(self).tview().freehand_mouse_step(me).0,
            r.rview() == old(self).tview().freehand_mouse_step(me).1,
            final(self).kind == old(self).kind,
            r matches ToolUpdateResult::Commit(d) ==> d.wf(),
    {
        if me.type_ == MouseEventType::BeginDrag && me.button == MouseButton::Primary {
            let mut points: Vec<Vec2D> = Vec::new();
            points.push(me.pos);
            proof {
                assert(points@ =~= seq![me.pos]);
            }
            self.state = ToolState::Drawing(FreehandState { start: me.pos, points });
            ToolUpdateResult::Redraw
        } else if me.type_ == MouseEventType::UpdateDrag && me.button == MouseButton::Primary {
            match &mut self.state {
                ToolState::Drawing(f) => {
                    match f.start.checked_add(me.pos) {
                        Some(p) => {
                            f.points.push(p);
                        },
                        None => {},
                    }
                    ToolUpdateResult::Redraw
                },
                _ => ToolUpdateResult::Unmodified,
            }
        } else if me.type_ == MouseEventType::EndDrag && me.button == MouseButton::Primary {
            let mut st = ToolState::Idle;
            core::mem::swap(&mut st, &mut self.state);
            match st {
                ToolState::Drawing(f) => {
                    let FreehandState { start, mut points } = f;
                    match start.checked_add(me.pos) {
                        Some(p) => {
                            points.push(p);
                        },
                        None => {},
                    }
                    ToolUpdateResult::Commit(Drawable::Freehand { points, style: self.style })
                },
                st2 => {
                    self.state = st2;
                    ToolUpdateResult::Unmodified
                },
            }
        } else {
            ToolUpdateResult::Unmodified
        }
    }

    fn handle_text_mouse(&mut self, me: MouseEventMsg) -> (r: ToolUpdateResult)
        requires
            old(self).wf(),
            old(self).kind == Tools::Text,
            me.pos.wf(),
        ensures
            final(self).wf(),
            final(self).tview() == old(self).tview().text_mouse_step(me).0,
            r.rview() == old(self).tview().text_mouse_step(me).1,
            final(self).kind == old(self).kind,
            r matches ToolUpdateResult::Commit(d) ==> d.wf(),
    {
        if me.type_ == MouseEventType::Click && me.button == MouseButton::Primary {
            let mut st = ToolState::Editing(
                TextState { pos: me.pos, buffer: Vec::new(), preedit: Vec::new() },
            );
            core::mem::swap(&mut st, &mut self.state);
            match st {
                ToolState::Editing(t) => {
                    if t.buffer.len() > 0 {
                        ToolUpdateResult::Commit(
                            Drawable::Text { pos: t.pos, text: t.buffer, style: self.style },
                        )
                    } else {
                        ToolUpdateResult::Redraw
                    }
                },
                _ => ToolUpdateResult::Redraw,
            }
        } else {
            ToolUpdateResult::Unmodified
        }
    }

    pub fn handle_key(&mut self, ke: KeyEventMsg) -> (r: ToolUpdateResult)
        requires
            old(self).wf(),
        ensures
            final(self).wf(),
            final(self).tview() == old(self).tview().key_step(ke).0,
            r.rview() == old(self).tview().key_step(ke).1,
            final(self).kind == old(self).kind,
            r matches ToolUpdateResult::Commit(d) ==> d.wf(),
    {
        match &mut self.state {
            ToolState::Editing(t) => {
                if ke.key == Key::Return || ke.key == Key::KpEnter || ke.key == Key::Escape {
                    let mut st = ToolState::Idle;
                    core::mem::swap(&mut st, &mut self.state);
                    match st {
                        ToolState::Editing(t2) => {
                            if t2.buffer.len() > 0 {
                                ToolUpdateResult::Commit(
                                    Drawable::Text {
                                        pos: t2.pos,
                                        text: t2.buffer,
                                        style: self.style,
                                    },
                                )
                            } else {
                                ToolUpdateResult::Redraw
                            }
                        },
                        _ => ToolUpdateResult::Redraw,
                    }
                } else if ke.key == Key::BackSpace {
                    if t.buffer.len() > 0 {
                        t.buffer.pop();
                        proof {
                            assert(t.buffer@ =~= old(self).tview().state->Editing_buffer
                                .drop_last());
                        }
                        ToolUpdateResult::RedrawAndStopPropagation
                    } else {
                        ToolUpdateResult::StopPropagation
                    }
                } else {
                    ToolUpdateResult::StopPropagation
                }
            },
            ToolState::Dragging(_) => {
                if ke.key == Key::Escape {
                    self.state = ToolState::Idle;
                    ToolUpdateResult::Redraw
                } else {
                    ToolUpdateResult::Unmodified
                }
            },
            ToolState::Drawing(_) => {
                if ke.key == Key::Escape {
                    self.state = ToolState::Idle;
                    ToolUpdateResult::Redraw
                } else {
                    ToolUpdateResult::Unmodified
                }
            },
            ToolState::Idle => ToolUpdateResult::Unmodified,
        }
    }

    pub fn handle_text(&mut self, te: TextEventMsg) -> (r: ToolUpdateResult)
        requires
            old(self).wf(),
        ensures
            final(self).wf(),
            final(self).tview() == old(self).tview().text_step(te.tev()).0,
            r.rview() == old(self).tview().text_step(te.tev()).1,
            final(self).kind == old(self).kind,
            r matches ToolUpdateResult::Commit(d) ==> d.wf(),
    {
        match &mut self.state {
            ToolState::Editing(t) => match te {
                TextEventMsg::Commit(txt) => {
                    let mut txt = txt;
                    t.buffer.append(&mut txt);
                    t.preedit = Vec::new();
                    proof {
                        assert(t.preedit@ =~= Seq::<char>::empty());
                    }
                    ToolUpdateResult::Redraw
                },
                TextEventMsg::Preedit { text, cursor_chars, spans } => {
                    t.preedit = text;
                    ToolUpdateResult::Redraw
                },
                TextEventMsg::PreeditEnd => {
                    t.preedit = Vec::new();
                    proof {
                        assert(t.preedit@ =~= Seq::<char>::empty());
                    }
                    ToolUpdateResult::Redraw
                },
            },
            _ => ToolUpdateResult::Unmodified,
        }
    }

    /// Absorb an undo locally while an edit is in progress.
    pub fn handle_undo(&mut self) -> (r: ToolUpdateResult)
        requires
            old(self).wf(),
        ensures
            final(self).wf(),
            final(self).tview() == old(self).tview().undo_step().0,
            r.rview() == old(self).tview().undo_step().1,
            final(self).kind == old(self).kind,
            r matches ToolUpdateResult::Commit(d) ==> d.wf(),
    {
        match &mut self.state {
            ToolState::Editing(t) => {
                if t.buffer.len() > 0 {
                    t.buffer.pop();
                    proof {
                        assert(t.buffer@ =~= old(self).tview().state->Editing_buffer.drop_last());
                    }
                    ToolUpdateResult::Redraw
                } else {
                    ToolUpdateResult::Unmodified
                }
            },
            ToolState::Idle => ToolUpdateResult::Unmodified,
            _ => {
                self.state = ToolState::Idle;
                ToolUpdateResult::Redraw
            },
        }
    }

    /// A tool never absorbs a redo; it falls through to the history.
    pub fn handle_redo(&mut self) -> (r: ToolUpdateResult)
        requires
            old(self).wf(),
        ensures
            *final(self) == *old(self),
            r.rview() == SpecResult::Unmodified,
    {
        ToolUpdateResult::Unmodified
    }
}


/// An exact copy of a vector of points.
fn clone_points(v: &Vec<Vec2D>) -> (r: Vec<Vec2D>)
    ensures
        r@ == v@,
{
    let mut r: Vec<Vec2D> = Vec::new();
    let mut i: usize = 0;
    while i < v.len()
        invariant
            0 <= i <= v@.len(),
            r@ =~= v@.take(i as int),
        decreases v@.len() - i,
    {
        r.push(v[i]);
        i = i + 1;
    }
    proof {
        assert(r@ =~= v@);
    }
    r
}

/// An exact copy of a vector of characters.
fn clone_chars(v: &Vec<char>) -> (r: Vec<char>)
    ensures
        r@ == v@,
{
    let mut r: Vec<char> = Vec::new();
    let mut i: usize = 0;
    while i < v.len()
        invariant
            0 <= i <= v@.len(),
            r@ =~= v@.take(i as int),
        decreases v@.len() - i,
    {
        r.push(v[i]);
        i = i + 1;
    }
    proof {
        assert(r@ =~= v@);
    }
    r
}

impl Tool {
    /// The drawable the in-progress edit would commit: the live preview the
    /// renderer composites on top of the committed history.
    pub fn preview_drawable(&self) -> (r: Option<Drawable>)
        requires
            self.wf(),
        ensures
            r is Some <==> self.tview().pending_drawable() is Some,
            r is Some ==> r->0.dview() == self.tview().pending_drawable()->0 && r->0.wf(),
    {
        match &self.state {
            ToolState::Idle => None,
            ToolState::Dragging(d) => Some(
                drag_drawable(self.kind, d.start, d.extent, self.style),
            ),
            ToolState::Drawing(f) => Some(
                Drawable::Freehand { points: clone_points(&f.points), style: self.style },
            ),
            ToolState::Editing(t) => {
                if t.buffer.len() > 0 {
                    Some(
                        Drawable::Text {
                            pos: t.pos,
                            text: clone_chars(&t.buffer),
                            style: self.style,
                        },
                    )
                } else {
                    None
                }
            },
        }
    }
}

/// The exact vector sum, as a `Vec2D`; meaningful when the sum fits.
pub open spec fn spec_vec_sum(a: Vec2D, b: Vec2D) -> Vec2D {
    Vec2D {
        x: crate::rat::Rat {
            num: (a.x.num * b.x.den + b.x.num * a.x.den) as i64,
            den: (a.x.den * b.x.den) as i64,
        },
        y: crate::rat::Rat {
            num: (a.y.num * b.y.den + b.y.num * a.y.den) as i64,
            den: (a.y.den * b.y.den) as i64,
        },
    }
}

} // verus!
