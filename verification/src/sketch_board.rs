//! The sketch board: input events as the host hands them in, and the
//! orchestrator that routes them through the coordinate transform to the
//! active tool or to board-level shortcuts.

use vstd::prelude::*;

use crate::config::{spec_tool_for, Action, Config};
use crate::dispatch::{batch_ok, run_actions, spec_output_template, Effect};
use crate::history::{History, HistoryModel};
use crate::math::{vec_of_ints, vec_zero, Vec2D};
use crate::rat::{in_i64, Rat};
use crate::render::{render, render_spec, Image, RenderQueue, RenderRequest};
use crate::style::{Color, Style};
use crate::tools::{SpecInput, SpecResult, SpecTextEvent, SpecTool, SpecToolEvent, SpecToolState,
    Tool, ToolEvent, ToolUpdateResult, Tools};
use crate::transform::{fit_rat, zoom_reducible, zoomed_scale, Transform};

verus! {

/// Keyboard keys the board and tools distinguish; every other key is
/// `Other`.
#[derive(Clone, Copy, Debug, PartialEq, Eq, Structural)]
pub enum Key {
    Z,
    Y,
    T,
    S,
    C,
    Left,
    Right,
    Up,
    Down,
    Delete,
    Escape,
    Return,
    KpEnter,
    BackSpace,
    Other,
}

/// Keyboard modifier state; only the modifiers the shortcuts read.
#[derive(Clone, Copy, Debug, PartialEq, Eq, Structural)]
pub struct Modifiers {
    pub ctrl: bool,
    pub shift: bool,
    pub alt: bool,
}

impl Modifiers {
    pub open spec fn spec_is_empty(self) -> bool {
        !self.ctrl && !self.shift && !self.alt
    }

    pub fn empty() -> (r: Modifiers)
        ensures
            r.spec_is_empty(),
    {
        Modifiers { ctrl: false, shift: false, alt: false }
    }

    pub fn is_empty(&self) -> (r: bool)
        ensures
            r == self.spec_is_empty(),
    {
        !self.ctrl && !self.shift && !self.alt
    }
}

/// Physical-position keys used by the board shortcuts, matched by their
/// evdev code so the shortcuts work on any keyboard layout.
#[derive(Clone, Copy, Debug, PartialEq, Eq, Structural)]
pub enum PhysKey {
    Z,
    Y,
    T,
    S,
    C,
    Left,
    Right,
    Up,
    Down,
}

/// The evdev code of each shortcut key, as the keycode crate's key table
/// records it.
pub open spec fn spec_evdev(k: PhysKey) -> u16 {
    match k {
        PhysKey::Z => 0x2c,
        PhysKey::Y => 0x15,
        PhysKey::T => 0x14,
        PhysKey::S => 0x1f,
        PhysKey::C => 0x2e,
        PhysKey::Left => 0x69,
        PhysKey::Right => 0x6a,
        PhysKey::Up => 0x67,
        PhysKey::Down => 0x6c,
    }
}

/// Relies on keycode's `KeyMap::from(KeyMappingId)`: the `evdev` field of
/// the returned mapping is the table value that `spec_evdev` records for
/// each key named here.
#[verifier::external_body]
fn evdev_code(k: PhysKey) -> (r: u16)
    ensures
        r == spec_evdev(k),
{
    let id = match k {
        PhysKey::Z => keycode::KeyMappingId::UsZ,
        PhysKey::Y => keycode::KeyMappingId::UsY,
        PhysKey::T => keycode::KeyMappingId::UsT,
        PhysKey::S => keycode::KeyMappingId::UsS,
        PhysKey::C => keycode::KeyMappingId::UsC,
        PhysKey::Left => keycode::KeyMappingId::ArrowLeft,
        PhysKey::Right => keycode::KeyMappingId::ArrowRight,
        PhysKey::Up => keycode::KeyMappingId::ArrowUp,
        PhysKey::Down => keycode::KeyMappingId::ArrowDown,
    };
    keycode::KeyMap::from(id).evdev
}

/// A key event: the logical key, the hardware scancode, and the modifiers.
#[derive(Clone, Copy, Debug)]
pub struct KeyEventMsg {
    pub key: Key,
    pub code: u32,
    pub modifier: Modifiers,
}

impl KeyEventMsg {
    pub fn new(key: Key, code: u32, modifier: Modifiers) -> (r: KeyEventMsg)
        ensures
            r == (KeyEventMsg { key, code, modifier }),
    {
        KeyEventMsg { key, code, modifier }
    }

    /// Whether the event names the given logical key, or sits at the given
    /// physical position (scancodes are offset by 8 from evdev codes).
    pub open spec fn spec_is_one_of(self, key: Key, phys: PhysKey) -> bool {
        self.key == key || (self.code >= 8 && self.code - 8 == spec_evdev(phys))
    }

    pub fn is_one_of(&self, key: Key, phys: PhysKey) -> (r: bool)
        ensures
            r == self.spec_is_one_of(key, phys),
    {
        if self.key == key {
            true
        } else {
            let ev = evdev_code(phys);
            self.code >= 8 && self.code - 8 == ev as u32
        }
    }
}

/// Mouse buttons the board distinguishes.
#[derive(Clone, Copy, Debug, PartialEq, Eq, Structural, PartialOrd, Ord)]
pub enum MouseButton {
    Primary,
    Secondary,
    Middle,
}

impl MouseButton {
    /// The toolkit's numeric buttons: 1 primary, 2 middle, 3 secondary;
    /// anything else maps to primary.
    pub open spec fn spec_from_code(value: u32) -> MouseButton {
        if value == 2 {
            MouseButton::Middle
        } else if value == 3 {
            MouseButton::Secondary
        } else {
            MouseButton::Primary
        }
    }

    pub fn from_code(value: u32) -> (r: MouseButton)
        ensures
            r == MouseButton::spec_from_code(value),
    {
        if value == 2 {
            MouseButton::Middle
        } else if value == 3 {
            MouseButton::Secondary
        } else {
            MouseButton::Primary
        }
    }
}

#[derive(Clone, Copy, Debug, PartialEq, Eq, Structural)]
pub enum MouseEventType {
    BeginDrag,
    EndDrag,
    UpdateDrag,
    Click,
    Scroll,
    PointerPos,
    Release,
}

/// A mouse event; `pos` is a viewport position for discrete events and a
/// drag delta for drag updates, until the board maps it to image space.
#[derive(Clone, Copy, Debug)]
pub struct MouseEventMsg {
    pub type_: MouseEventType,
    pub button: MouseButton,
    pub modifier: Modifiers,
    pub pos: Vec2D,
    pub n_pressed: i32,
    pub release: bool,
}

/// A sub-range of in-progress composed text with distinct styling.
#[derive(Clone, Copy, Debug)]
pub struct PreeditSpan {
    pub start: usize,
    pub end: usize,
}

/// Composed-text state from the input-method adapter.
#[derive(Clone, Debug)]
pub enum TextEventMsg {
    Commit(Vec<char>),
    Preedit { text: Vec<char>, cursor_chars: Option<usize>, spans: Vec<PreeditSpan> },
    PreeditEnd,
}

#[derive(Clone, Debug)]
pub enum InputEvent {
    Mouse(MouseEventMsg),
    Key(KeyEventMsg),
    KeyRelease(KeyEventMsg),
    Text(TextEventMsg),
}

// ---------------------------------------------------------------------------
// Board-level messages.
// ---------------------------------------------------------------------------

/// Events from the toolbar widgets.
#[derive(Clone, Copy, Debug)]
pub enum ToolbarEvent {
    ToolSelected(Tools),
    ColorSelected(Color),
    SizeSelected(u32),
    SaveFile,
    CopyClipboard,
    Undo,
    Redo,
    Reset,
    ToggleFill,
    AnnotationSizeChanged(Rat),
    SaveFileAs,
    Resize,
    OriginalScale,
}

/// Events the board emits back to its host.
#[derive(Clone, Copy, Debug, PartialEq, Eq, Structural)]
pub enum SketchBoardOutput {
    ToggleToolbarsDisplay,
    ToolSwitchShortcut(Tools),
    ColorSwitchShortcut(u64),
    Exit,
}

/// Messages into the board.
#[derive(Debug)]
pub enum SketchBoardInput {
    InputEvent(InputEvent),
    ToolbarEvent(ToolbarEvent),
    RenderResult(Image, Vec<Action>),
    CommitEvent(TextEventMsg),
    Refresh,
    LoadImage(Image),
}

impl InputEvent {
    /// Positions carried by the event are well-formed.
    pub open spec fn ie_wf(self) -> bool {
        match self {
            InputEvent::Mouse(me) => me.pos.wf(),
            _ => true,
        }
    }
}

impl SketchBoardInput {
    /// Positions, sizes and images carried by the message are well-formed.
    pub open spec fn wf(self) -> bool {
        match self {
            SketchBoardInput::InputEvent(ie) => ie.ie_wf(),
            SketchBoardInput::ToolbarEvent(te) => match te {
                ToolbarEvent::AnnotationSizeChanged(r) => r.wf(),
                _ => true,
            },
            SketchBoardInput::RenderResult(img, _) => img.wf(),
            SketchBoardInput::LoadImage(img) => img.wf(),
            _ => true,
        }
    }

    pub fn new_mouse_event(
        event_type: MouseEventType,
        button: u32,
        n_pressed: i32,
        modifier: Modifiers,
        pos: Vec2D,
        release: bool,
    ) -> (r: SketchBoardInput)
        ensures
            r == SketchBoardInput::InputEvent(
                InputEvent::Mouse(
                    MouseEventMsg {
                        type_: event_type,
                        button: MouseButton::spec_from_code(button),
                        modifier,
                        pos,
                        n_pressed,
                        release,
                    },
                ),
            ),
    {
        SketchBoardInput::InputEvent(
            InputEvent::Mouse(
                MouseEventMsg {
                    type_: event_type,
                    button: MouseButton::from_code(button),
                    modifier,
                    pos,
                    n_pressed,
                    release,
                },
            ),
        )
    }

    pub fn new_key_event(event: KeyEventMsg) -> (r: SketchBoardInput)
        ensures
            r == SketchBoardInput::InputEvent(InputEvent::Key(event)),
    {
        SketchBoardInput::InputEvent(InputEvent::Key(event))
    }

    pub fn new_key_release_event(event: KeyEventMsg) -> (r: SketchBoardInput)
        ensures
            r == SketchBoardInput::InputEvent(InputEvent::KeyRelease(event)),
    {
        SketchBoardInput::InputEvent(InputEvent::KeyRelease(event))
    }

    pub fn new_text_event(event: TextEventMsg) -> (r: SketchBoardInput)
        ensures
            r == SketchBoardInput::InputEvent(InputEvent::Text(event)),
    {
        SketchBoardInput::InputEvent(InputEvent::Text(event))
    }

    pub fn new_commit_event(event: TextEventMsg) -> (r: SketchBoardInput)
        ensures
            r == SketchBoardInput::CommitEvent(event),
    {
        SketchBoardInput::CommitEvent(event)
    }

    /// A scroll notch: only the vertical delta matters; its sign picks the
    /// zoom direction.
    pub fn new_scroll_event(delta_y: Rat) -> (r: SketchBoardInput)
        ensures
            r == SketchBoardInput::InputEvent(
                InputEvent::Mouse(
                    MouseEventMsg {
                        type_: MouseEventType::Scroll,
                        button: MouseButton::Middle,
                        modifier: Modifiers { ctrl: false, shift: false, alt: false },
                        pos: Vec2D { x: Rat { num: 0, den: 1 }, y: delta_y },
                        n_pressed: 0,
                        release: false,
                    },
                ),
            ),
    {
        SketchBoardInput::InputEvent(
            InputEvent::Mouse(
                MouseEventMsg {
                    type_: MouseEventType::Scroll,
                    button: MouseButton::Middle,
                    modifier: Modifiers::empty(),
                    pos: Vec2D::new(Rat::zero(), delta_y),
                    n_pressed: 0,
                    release: false,
                },
            ),
        )
    }
}

// ---------------------------------------------------------------------------
// Ghost view of the board and its step relation.
// ---------------------------------------------------------------------------

/// Ghost view of the whole board.
pub struct SpecBoard {
    pub tool: SpecTool,
    pub style: Style,
    pub history: HistoryModel,
    pub transform: Transform,
    pub queue: Seq<Seq<Action>>,
    pub pointer: Vec2D,
    pub vw: u32,
    pub vh: u32,
    pub img_w: u32,
    pub img_h: u32,
}

/// Ghost view of the configuration fields the routing reads.
pub struct SpecConfig {
    pub keybinds: Seq<crate::config::Keybind>,
    pub palette_len: int,
    pub on_enter: Seq<Action>,
    pub on_escape: Seq<Action>,
    pub on_right_click: Seq<Action>,
    pub zoom_factor: Rat,
    pub pan_step: Rat,
}

/// One step outcome: the new board view, whether to redraw, and the
/// emitted host events.
pub struct SpecStep {
    pub b: SpecBoard,
    pub redraw: bool,
    pub outs: Seq<SketchBoardOutput>,
}

pub open spec fn mods_ctrl() -> Modifiers {
    Modifiers { ctrl: true, shift: false, alt: false }
}

pub open spec fn mods_ctrl_shift() -> Modifiers {
    Modifiers { ctrl: true, shift: true, alt: false }
}

pub open spec fn mods_alt() -> Modifiers {
    Modifiers { ctrl: false, shift: false, alt: true }
}

/// The zoom scale after one multiplicative step, normalised by the gcd of
/// its parts; unchanged when even the normalised product overflows.
pub open spec fn zoomed(t: Transform, f: Rat) -> Transform {
    if zoom_reducible(t.scale, f) {
        Transform { scale: zoomed_scale(t.scale, f), offset: t.offset, pending: t.pending }
    } else {
        t
    }
}

/// The pending pan offset after adding a delta; unchanged on overflow.
pub open spec fn panned(t: Transform, delta: Vec2D) -> Transform {
    if t.pending.sv().plus(delta.sv()).fits() {
        Transform { scale: t.scale, offset: t.offset, pending: t.pending.add_exact(delta) }
    } else {
        t
    }
}

/// The pan state after persisting the pending offset; unchanged on
/// overflow.
pub open spec fn stored(t: Transform) -> Transform {
    if t.offset.sv().plus(t.pending.sv()).fits() {
        Transform { scale: t.scale, offset: t.offset.add_exact(t.pending), pending: vec_zero() }
    } else {
        t
    }
}

/// The arrow-key pan delta: one pan step in the key direction; `None` for
/// other keys or when negation overflows.
pub open spec fn pan_delta(cfg: SpecConfig, key: Key) -> Option<Vec2D> {
    if key == Key::Left {
        if in_i64(-(cfg.pan_step.num as int)) {
            Some(
                Vec2D {
                    x: Rat { num: (-cfg.pan_step.num) as i64, den: cfg.pan_step.den },
                    y: Rat { num: 0, den: 1 },
                },
            )
        } else {
            None
        }
    } else if key == Key::Right {
        Some(Vec2D { x: cfg.pan_step, y: Rat { num: 0, den: 1 } })
    } else if key == Key::Up {
        if in_i64(-(cfg.pan_step.num as int)) {
            Some(
                Vec2D {
                    x: Rat { num: 0, den: 1 },
                    y: Rat { num: (-cfg.pan_step.num) as i64, den: cfg.pan_step.den },
                },
            )
        } else {
            None
        }
    } else if key == Key::Down {
        Some(Vec2D { x: Rat { num: 0, den: 1 }, y: cfg.pan_step })
    } else {
        None
    }
}

/// A mouse event with its position mapped into image space: absolutely for
/// discrete events, relatively for drag deltas; `None` when the mapping
/// overflows and the event is dropped.
pub open spec fn transformed_mouse(t: Transform, me: MouseEventMsg) -> Option<MouseEventMsg> {
    if me.type_ == MouseEventType::Click || me.type_ == MouseEventType::Release || me.type_
        == MouseEventType::BeginDrag {
        if t.abs_fits(me.pos) {
            Some(
                MouseEventMsg {
                    type_: me.type_,
                    button: me.button,
                    modifier: me.modifier,
                    pos: t.abs_exact(me.pos),
                    n_pressed: me.n_pressed,
                    release: me.release,
                },
            )
        } else {
            None
        }
    } else if me.type_ == MouseEventType::EndDrag || me.type_ == MouseEventType::UpdateDrag {
        if t.rel_fits(me.pos) {
            Some(
                MouseEventMsg {
                    type_: me.type_,
                    button: me.button,
                    modifier: me.modifier,
                    pos: t.rel_exact(me.pos),
                    n_pressed: me.n_pressed,
                    release: me.release,
                },
            )
        } else {
            None
        }
    } else {
        Some(me)
    }
}

/// The palette index a digit character addresses: `1`..`9` map to indices
/// 0..8, `0` maps to index 9.
pub open spec fn spec_digit_index(ch: char) -> Option<int> {
    let v = ch as u32;
    if 48 <= v <= 57 {
        if v == 48 {
            Some(9int)
        } else {
            Some((v - 49) as int)
        }
    } else {
        None
    }
}

impl SpecBoard {
    pub open spec fn with_tool(self, t: SpecTool) -> SpecBoard {
        SpecBoard {
            tool: t,
            style: self.style,
            history: self.history,
            transform: self.transform,
            queue: self.queue,
            pointer: self.pointer,
            vw: self.vw,
            vh: self.vh,
            img_w: self.img_w,
            img_h: self.img_h,
        }
    }

    pub open spec fn with_history(self, h: HistoryModel) -> SpecBoard {
        SpecBoard {
            tool: self.tool,
            style: self.style,
            history: h,
            transform: self.transform,
            queue: self.queue,
            pointer: self.pointer,
            vw: self.vw,
            vh: self.vh,
            img_w: self.img_w,
            img_h: self.img_h,
        }
    }

    pub open spec fn with_transform(self, t: Transform) -> SpecBoard {
        SpecBoard {
            tool: self.tool,
            style: self.style,
            history: self.history,
            transform: t,
            queue: self.queue,
            pointer: self.pointer,
            vw: self.vw,
            vh: self.vh,
            img_w: self.img_w,
            img_h: self.img_h,
        }
    }

    pub open spec fn with_style(self, s: Style) -> SpecBoard {
        SpecBoard {
            tool: self.tool,
            style: s,
            history: self.history,
            transform: self.transform,
            queue: self.queue,
            pointer: self.pointer,
            vw: self.vw,
            vh: self.vh,
            img_w: self.img_w,
            img_h: self.img_h,
        }
    }

    pub open spec fn with_pointer(self, p: Vec2D) -> SpecBoard {
        SpecBoard {
            tool: self.tool,
            style: self.style,
            history: self.history,
            transform: self.transform,
            queue: self.queue,
            pointer: p,
            vw: self.vw,
            vh: self.vh,
            img_w: self.img_w,
            img_h: self.img_h,
        }
    }

    /// Submitting a render request: the action list joins the queue.
    pub open spec fn request_spec(self, actions: Seq<Action>) -> SpecBoard {
        SpecBoard {
            tool: self.tool,
            style: self.style,
            history: self.history,
            transform: self.transform,
            queue: self.queue.push(actions),
            pointer: self.pointer,
            vw: self.vw,
            vh: self.vh,
            img_w: self.img_w,
            img_h: self.img_h,
        }
    }

    /// What the board does with a tool result: a commit joins the history
    /// and forces a redraw; redraw results repaint; the rest change
    /// nothing.
    pub open spec fn apply_result(self, res: SpecResult) -> SpecStep {
        match res {
            SpecResult::Commit(d) => SpecStep {
                b: self.with_history(self.history.commit(d)),
                redraw: true,
                outs: Seq::empty(),
            },
            SpecResult::Redraw => SpecStep { b: self, redraw: true, outs: Seq::empty() },
            SpecResult::RedrawAndStopPropagation => SpecStep {
                b: self,
                redraw: true,
                outs: Seq::empty(),
            },
            _ => SpecStep { b: self, redraw: false, outs: Seq::empty() },
        }
    }

    /// Deactivating the active tool: an in-progress edit becomes exactly
    /// one committed drawable; reports whether a commit happened.
    pub open spec fn deactivate_spec(self) -> (SpecBoard, bool) {
        if self.tool.spec_active() {
            let step = self.tool.deactivate_step();
            match step.1 {
                SpecResult::Commit(d) => (
                    self.with_tool(step.0).with_history(self.history.commit(d)),
                    true,
                ),
                _ => (self.with_tool(step.0), false),
            }
        } else {
            (self, false)
        }
    }

    /// Undo: absorbed by an active tool, else one step back in the
    /// history.
    pub open spec fn undo_spec(self) -> SpecStep {
        if self.tool.spec_active() {
            let step = self.tool.undo_step();
            SpecStep { b: self.with_tool(step.0), redraw: step.1 is Redraw, outs: Seq::empty() }
        } else {
            SpecStep {
                b: self.with_history(self.history.undo()),
                redraw: self.history.cursor > 0,
                outs: Seq::empty(),
            }
        }
    }

    /// Redo: an active tool absorbs it without effect, else one step
    /// forward in the history.
    pub open spec fn redo_spec(self) -> SpecStep {
        if self.tool.spec_active() {
            SpecStep { b: self, redraw: false, outs: Seq::empty() }
        } else {
            SpecStep {
                b: self.with_history(self.history.redo()),
                redraw: self.history.cursor < self.history.stack.len(),
                outs: Seq::empty(),
            }
        }
    }

    /// Reset: finalise the tool, then discard every commit.
    pub open spec fn reset_spec(self) -> SpecStep {
        let d = self.deactivate_spec();
        let had = d.0.history.stack.len() > 0;
        SpecStep {
            b: d.0.with_history(HistoryModel::empty()),
            redraw: d.1 || had,
            outs: Seq::empty(),
        }
    }

    /// A render request with actions: finalise the tool first, so the
    /// rendered output includes the in-progress edit.
    pub open spec fn action_spec(self, actions: Seq<Action>) -> SpecStep {
        let d = self.deactivate_spec();
        SpecStep { b: d.0.request_spec(actions), redraw: d.1, outs: Seq::empty() }
    }

    /// Tool switching: deactivate the old tool exactly once, committing
    /// any in-progress geometry as exactly one drawable, then install a
    /// fresh idle tool carrying the current style and activate it exactly
    /// once.
    pub open spec fn switch_tool_spec(self, kind: Tools) -> SpecStep {
        let step = self.tool.deactivate_step();
        let h2 = match step.1 {
            SpecResult::Commit(d) => self.history.commit(d),
            _ => self.history,
        };
        let fresh = SpecTool { kind, style: self.style, state: SpecToolState::Idle };
        SpecStep {
            b: self.with_tool(fresh).with_history(h2),
            redraw: step.1 is Commit,
            outs: Seq::empty(),
        }
    }

    /// A style change: the new snapshot is pushed into the active tool.
    pub open spec fn styled_spec(self, s2: Style) -> SpecStep {
        let step = self.tool.step(SpecToolEvent::StyleChanged(s2));
        self.with_tool(step.0).with_style(s2).apply_result(step.1)
    }

    /// Board-level mouse semantics, applied when the tool does not consume
    /// the event: secondary click runs the configured action list; middle
    /// drag pans, persisting the offset on drag end; scroll zooms; pointer
    /// motion moves the crosshair.
    pub open spec fn board_mouse_effects(self, cfg: SpecConfig, me: MouseEventMsg) -> SpecBoard {
        if me.type_ == MouseEventType::Click && me.button == MouseButton::Secondary {
            self.request_spec(cfg.on_right_click)
        } else if (me.type_ == MouseEventType::UpdateDrag || me.type_ == MouseEventType::EndDrag)
            && me.button == MouseButton::Middle {
            let t1 = Transform {
                scale: self.transform.scale,
                offset: self.transform.offset,
                pending: me.pos,
            };
            let t2 = if me.type_ == MouseEventType::EndDrag {
                stored(t1)
            } else {
                t1
            };
            self.with_transform(t2).request_spec(Seq::empty())
        } else if me.type_ == MouseEventType::Scroll {
            let t1 = if me.pos.y.num < 0 {
                zoomed(self.transform, cfg.zoom_factor)
            } else if me.pos.y.num > 0 {
                zoomed(self.transform, cfg.zoom_factor.recip_exact())
            } else {
                self.transform
            };
            self.with_transform(t1).request_spec(Seq::empty())
        } else if me.type_ == MouseEventType::PointerPos {
            self.with_pointer(me.pos)
        } else {
            self
        }
    }

    /// One mouse event: map the position, feed the tool, then the board
    /// semantics unless the tool stopped propagation.
    pub open spec fn mouse_msg_spec(self, cfg: SpecConfig, me: MouseEventMsg) -> SpecStep {
        match transformed_mouse(self.transform, me) {
            None => SpecStep { b: self, redraw: false, outs: Seq::empty() },
            Some(me2) => {
                let step = self.tool.mouse_step(me2);
                let b1 = self.with_tool(step.0);
                if step.1 is StopPropagation || step.1 is RedrawAndStopPropagation {
                    b1.apply_result(step.1)
                } else {
                    b1.board_mouse_effects(cfg, me2).apply_result(step.1)
                }
            },
        }
    }

    /// One key event: the tool first; unless it stops propagation, the
    /// board shortcuts in fixed priority order: undo, redo, toggle
    /// toolbars, save, save-as, copy, pan, reset, then the configured
    /// action lists on escape and enter when the tool did not react.
    pub open spec fn key_msg_spec(self, cfg: SpecConfig, ke: KeyEventMsg) -> SpecStep {
        let step = self.tool.key_step(ke);
        let b1 = self.with_tool(step.0);
        if step.1 is StopPropagation || step.1 is RedrawAndStopPropagation {
            b1.apply_result(step.1)
        } else if ke.spec_is_one_of(Key::Z, PhysKey::Z) && ke.modifier == mods_ctrl() {
            b1.undo_spec()
        } else if ke.spec_is_one_of(Key::Y, PhysKey::Y) && ke.modifier == mods_ctrl() {
            b1.redo_spec()
        } else if ke.spec_is_one_of(Key::T, PhysKey::T) && ke.modifier == mods_ctrl() {
            SpecStep { b: b1, redraw: false, outs: seq![SketchBoardOutput::ToggleToolbarsDisplay] }
        } else if ke.spec_is_one_of(Key::S, PhysKey::S) && ke.modifier == mods_ctrl() {
            SpecStep {
                b: b1.request_spec(seq![Action::SaveToFile]),
                redraw: false,
                outs: Seq::empty(),
            }
        } else if ke.spec_is_one_of(Key::S, PhysKey::S) && ke.modifier == mods_ctrl_shift() {
            SpecStep {
                b: b1.request_spec(seq![Action::SaveToFileAs]),
                redraw: false,
                outs: Seq::empty(),
            }
        } else if ke.spec_is_one_of(Key::C, PhysKey::C) && ke.modifier == mods_ctrl() {
            SpecStep {
                b: b1.request_spec(seq![Action::SaveToClipboard]),
                redraw: false,
                outs: Seq::empty(),
            }
        } else if (ke.spec_is_one_of(Key::Left, PhysKey::Left) || ke.spec_is_one_of(
            Key::Right,
            PhysKey::Right,
        ) || ke.spec_is_one_of(Key::Up, PhysKey::Up) || ke.spec_is_one_of(
            Key::Down,
            PhysKey::Down,
        )) && ke.modifier == mods_alt() {
            let t1 = match pan_delta(cfg, ke.key) {
                Some(d) => panned(b1.transform, d),
                None => b1.transform,
            };
            SpecStep {
                b: b1.with_transform(stored(t1)).request_spec(Seq::empty()),
                redraw: false,
                outs: Seq::empty(),
            }
        } else if ke.modifier.spec_is_empty() && ke.key == Key::Delete {
            b1.reset_spec()
        } else if ke.modifier.spec_is_empty() && (ke.key == Key::Escape || ke.key == Key::Return
            || ke.key == Key::KpEnter) {
            if step.1 is Unmodified {
                let acts = if ke.key == Key::Escape {
                    cfg.on_escape
                } else {
                    cfg.on_enter
                };
                SpecStep { b: b1.request_spec(acts), redraw: false, outs: Seq::empty() }
            } else {
                b1.apply_result(step.1)
            }
        } else {
            b1.apply_result(step.1)
        }
    }

    /// A composed-text event: forwarded verbatim to the text tool while it
    /// accepts input; otherwise the first character is reinterpreted as a
    /// single-key tool switch or a digit palette shortcut.  The digit `0`
    /// addresses the tenth palette slot; a shortcut is only emitted when
    /// the palette has at least `index + 1` entries.
    pub open spec fn commit_text_spec(self, cfg: SpecConfig, te: SpecTextEvent) -> SpecStep {
        match te {
            SpecTextEvent::Commit(txt) => if self.tool.spec_input_enabled() {
                let step = self.tool.text_step(SpecTextEvent::Commit(txt));
                self.with_tool(step.0).apply_result(step.1)
            } else if txt.len() > 0 && spec_tool_for(cfg.keybinds, txt[0]) is Some {
                let k = spec_tool_for(cfg.keybinds, txt[0])->0;
                let st = self.switch_tool_spec(k);
                SpecStep {
                    b: st.b,
                    redraw: st.redraw,
                    outs: seq![SketchBoardOutput::ToolSwitchShortcut(k)],
                }
            } else if txt.len() > 0 && spec_digit_index(txt[0]) is Some {
                let idx = spec_digit_index(txt[0])->0;
                if cfg.palette_len >= idx + 1 {
                    SpecStep {
                        b: self,
                        redraw: false,
                        outs: seq![SketchBoardOutput::ColorSwitchShortcut(idx as u64)],
                    }
                } else {
                    SpecStep { b: self, redraw: false, outs: Seq::empty() }
                }
            } else {
                SpecStep { b: self, redraw: false, outs: Seq::empty() }
            },
            _ => if self.tool.spec_input_enabled() {
                let step = self.tool.text_step(te);
                self.with_tool(step.0).apply_result(step.1)
            } else {
                SpecStep { b: self, redraw: false, outs: Seq::empty() }
            },
        }
    }

    /// A raw input event: keys and mice go through the routing; releases
    /// do nothing, and text events go to the tool alone.
    pub open spec fn input_spec(self, cfg: SpecConfig, ie: SpecInput) -> SpecStep {
        match ie {
            SpecInput::Key(ke) => self.key_msg_spec(cfg, ke),
            SpecInput::Mouse(me) => self.mouse_msg_spec(cfg, me),
            SpecInput::KeyRelease(ke) => SpecStep { b: self, redraw: false, outs: Seq::empty() },
            SpecInput::Text(te) => {
                let step = self.tool.text_step(te);
                self.with_tool(step.0).apply_result(step.1)
            },
        }
    }

    /// A toolbar event.
    pub open spec fn toolbar_spec(self, cfg: SpecConfig, ev: ToolbarEvent) -> SpecStep {
        match ev {
            ToolbarEvent::ToolSelected(k) => self.switch_tool_spec(k),
            ToolbarEvent::ColorSelected(c) => self.styled_spec(
                Style {
                    color: c,
                    stroke_size: self.style.stroke_size,
                    fill: self.style.fill,
                    annotation_size_factor: self.style.annotation_size_factor,
                },
            ),
            ToolbarEvent::SizeSelected(sz) => self.styled_spec(
                Style {
                    color: self.style.color,
                    stroke_size: sz,
                    fill: self.style.fill,
                    annotation_size_factor: self.style.annotation_size_factor,
                },
            ),
            ToolbarEvent::ToggleFill => self.styled_spec(
                Style {
                    color: self.style.color,
                    stroke_size: self.style.stroke_size,
                    fill: !self.style.fill,
                    annotation_size_factor: self.style.annotation_size_factor,
                },
            ),
            ToolbarEvent::AnnotationSizeChanged(f) => self.styled_spec(
                Style {
                    color: self.style.color,
                    stroke_size: self.style.stroke_size,
                    fill: self.style.fill,
                    annotation_size_factor: f,
                },
            ),
            ToolbarEvent::SaveFile => self.action_spec(seq![Action::SaveToFile]),
            ToolbarEvent::CopyClipboard => self.action_spec(seq![Action::SaveToClipboard]),
            ToolbarEvent::SaveFileAs => self.action_spec(seq![Action::SaveToFileAs]),
            ToolbarEvent::Undo => self.undo_spec(),
            ToolbarEvent::Redo => self.redo_spec(),
            ToolbarEvent::Reset => self.reset_spec(),
            ToolbarEvent::Resize => SpecStep {
                b: self.with_transform(
                    Transform {
                        scale: fit_rat(self.vw, self.vh, self.img_w, self.img_h),
                        offset: vec_zero(),
                        pending: vec_zero(),
                    },
                ).request_spec(Seq::empty()),
                redraw: false,
                outs: Seq::empty(),
            },
            ToolbarEvent::OriginalScale => SpecStep {
                b: self.with_transform(
                    Transform {
                        scale: Rat { num: 1, den: 1 },
                        offset: vec_zero(),
                        pending: vec_zero(),
                    },
                ).request_spec(Seq::empty()),
                redraw: false,
                outs: Seq::empty(),
            },
        }
    }
}

// ---------------------------------------------------------------------------
// The executable board.
// ---------------------------------------------------------------------------

/// What one update asks of the host: repaint, emitted events, and side
/// effects from a delivered render result.
pub struct BoardUpdate {
    pub redraw: bool,
    pub outputs: Vec<SketchBoardOutput>,
    pub effects: Vec<Effect>,
}

/// The sketch board orchestrator: the active tool, the shared style, the
/// history, the coordinate transform, the base image, the render queue and
/// the configuration.
pub struct SketchBoard {
    pub active_tool: Tool,
    pub style: Style,
    pub history: History,
    pub transform: Transform,
    pub base_image: Image,
    pub queue: RenderQueue,
    pub config: Config,
    pub pointer_pos: Vec2D,
    pub viewport_width: u32,
    pub viewport_height: u32,
}

impl SketchBoard {
    pub open spec fn wf(self) -> bool {
        self.active_tool.wf() && self.style.wf() && self.history.wf() && self.transform.wf()
            && self.base_image.wf() && self.config.wf() && self.pointer_pos.wf()
    }

    /// The ghost view of the board state.
    pub open spec fn bview(self) -> SpecBoard {
        SpecBoard {
            tool: self.active_tool.tview(),
            style: self.style,
            history: self.history.model(),
            transform: self.transform,
            queue: self.queue.pending@.map_values(|r: RenderRequest| r.actions@),
            pointer: self.pointer_pos,
            vw: self.viewport_width,
            vh: self.viewport_height,
            img_w: self.base_image.width,
            img_h: self.base_image.height,
        }
    }

    /// The ghost view of the configuration fields the routing reads.
    pub open spec fn cview(self) -> SpecConfig {
        SpecConfig {
            keybinds: self.config.keybinds@,
            palette_len: self.config.palette@.len() as int,
            on_enter: self.config.actions_on_enter@,
            on_escape: self.config.actions_on_escape@,
            on_right_click: self.config.actions_on_right_click@,
            zoom_factor: self.config.zoom_factor,
            pan_step: self.config.pan_step,
        }
    }

    /// A fresh board over a base image: the configured initial tool carrying
    /// the starting style, an empty history, the identity transform, an
    /// empty render queue, and a viewport assumed to match the image until
    /// the host reports its real size.
    pub fn new(config: Config, image: Image) -> (b: SketchBoard)
        requires
            config.wf(),
            image.wf(),
        ensures
            b.wf(),
            b.config == config,
            b.base_image == image,
            b.style == (Style {
                color: Color { r: 255, g: 0, b: 0, a: 255 },
                stroke_size: 2,
                fill: false,
                annotation_size_factor: Rat { num: 1, den: 1 },
            }),
            b.history.model() == HistoryModel::empty(),
            b.bview().queue =~= Seq::<Seq<Action>>::empty(),
            b.active_tool.tview() == (SpecTool {
                kind: config.initial_tool,
                style: b.style,
                state: SpecToolState::Idle,
            }),
            b.transform.scale.srat() == crate::rat::SpecRat::from_int(1),
            b.transform.offset.sv() == crate::math::SpecVec2D::zero(),
            b.transform.pending.sv() == crate::math::SpecVec2D::zero(),
            b.pointer_pos == vec_zero(),
            b.viewport_width == image.width,
            b.viewport_height == image.height,
    {
        let style = Style::initial();
        let vw = image.width;
        let vh = image.height;
        let b = SketchBoard {
            active_tool: Tool::new(config.initial_tool, style),
            style,
            history: History::new(),
            transform: Transform::new(),
            base_image: image,
            queue: RenderQueue::new(),
            config,
            pointer_pos: Vec2D::zero(),
            viewport_width: vw,
            viewport_height: vh,
        };
        proof {
            assert(b.bview().queue =~= Seq::<Seq<Action>>::empty());
        }
        b
    }

    pub fn active_tool_type(&self) -> (r: Tools)
        ensures
            r == self.active_tool.kind,
    {
        self.active_tool.get_tool_type()
    }

    /// Record the viewport size the host renders into; used by auto-fit.
    pub fn set_viewport(&mut self, w: u32, h: u32)
        requires
            old(self).wf(),
        ensures
            final(self).wf(),
            final(self).viewport_width == w,
            final(self).viewport_height == h,
            final(self).active_tool == old(self).active_tool,
            final(self).style == old(self).style,
            final(self).history == old(self).history,
            final(self).transform == old(self).transform,
            final(self).base_image == old(self).base_image,
            final(self).queue == old(self).queue,
            final(self).config == old(self).config,
            final(self).pointer_pos == old(self).pointer_pos,
    {
        self.viewport_width = w;
        self.viewport_height = h;
    }

    /// Submit a render request carrying the given actions.
    fn request_render(&mut self, actions: Vec<Action>)
        requires
            old(self).wf(),
        ensures
            final(self).wf(),
            final(self).bview() == old(self).bview().request_spec(actions@),
            final(self).base_image == old(self).base_image,
            final(self).config == old(self).config,
    {
        self.queue.submit(RenderRequest { actions });
        proof {
            assert(self.queue.pending@.map_values(|r: RenderRequest| r.actions@)
                =~= old(self).queue.pending@.map_values(|r: RenderRequest| r.actions@).push(
                actions@,
            ));
        }
    }

    /// Apply a tool result: commits join the history, redraws repaint.
    fn apply_tool_result(&mut self, res: ToolUpdateResult) -> (redraw: bool)
        requires
            old(self).wf(),
            res matches ToolUpdateResult::Commit(d) ==> d.wf(),
        ensures
            final(self).wf(),
            final(self).bview() == old(self).bview().apply_result(res.rview()).b,
            redraw == old(self).bview().apply_result(res.rview()).redraw,
            final(self).base_image == old(self).base_image,
            final(self).config == old(self).config,
    {
        match res {
            ToolUpdateResult::Commit(d) => {
                self.history.commit(d);
                true
            },
            ToolUpdateResult::Redraw => true,
            ToolUpdateResult::RedrawAndStopPropagation => true,
            _ => false,
        }
    }

    /// Deactivate the active tool, committing any in-progress edit;
    /// reports whether a commit happened.
    pub fn deactivate_active_tool(&mut self) -> (r: bool)
        requires
            old(self).wf(),
        ensures
            final(self).wf(),
            final(self).bview() == old(self).bview().deactivate_spec().0,
            r == old(self).bview().deactivate_spec().1,
            final(self).base_image == old(self).base_image,
            final(self).config == old(self).config,
    {
        if self.active_tool.active() {
            let res = self.active_tool.handle_deactivated();
            match res {
                ToolUpdateResult::Commit(d) => {
                    self.history.commit(d);
                    true
                },
                _ => false,
            }
        } else {
            false
        }
    }

    /// Undo falls to the tool while it is mid-edit, else to the history.
    pub fn handle_undo(&mut self) -> (redraw: bool)
        requires
            old(self).wf(),
        ensures
            final(self).wf(),
            final(self).bview() == old(self).bview().undo_spec().b,
            redraw == old(self).bview().undo_spec().redraw,
            final(self).base_image == old(self).base_image,
            final(self).config == old(self).config,
    {
        if self.active_tool.active() {
            let res = self.active_tool.handle_undo();
            match res {
                ToolUpdateResult::Redraw => true,
                _ => false,
            }
        } else {
            self.history.undo()
        }
    }

    /// Redo falls to the tool while it is mid-edit, else to the history.
    pub fn handle_redo(&mut self) -> (redraw: bool)
        requires
            old(self).wf(),
        ensures
            final(self).wf(),
            final(self).bview() == old(self).bview().redo_spec().b,
            redraw == old(self).bview().redo_spec().redraw,
            final(self).base_image == old(self).base_image,
            final(self).config == old(self).config,
    {
        if self.active_tool.active() {
            let res = self.active_tool.handle_redo();
            match res {
                _ => false,
            }
        } else {
            self.history.redo()
        }
    }

    /// Reset: finalise the tool, then discard every commit.
    pub fn handle_reset(&mut self) -> (redraw: bool)
        requires
            old(self).wf(),
        ensures
            final(self).wf(),
            final(self).bview() == old(self).bview().reset_spec().b,
            redraw == old(self).bview().reset_spec().redraw,
            final(self).base_image == old(self).base_image,
            final(self).config == old(self).config,
    {
        let committed = self.deactivate_active_tool();
        let had = self.history.reset();
        committed || had
    }

    /// Request a render with post-render actions, finalising the tool
    /// first.
    pub fn handle_action(&mut self, actions: Vec<Action>) -> (redraw: bool)
        requires
            old(self).wf(),
        ensures
            final(self).wf(),
            final(self).bview() == old(self).bview().action_spec(actions@).b,
            redraw == old(self).bview().action_spec(actions@).redraw,
            final(self).base_image == old(self).base_image,
            final(self).config == old(self).config,
    {
        let committed = self.deactivate_active_tool();
        self.request_render(actions);
        committed
    }

    /// Switch the active tool: deactivate then activate exactly once each.
    fn switch_tool(&mut self, kind: Tools) -> (redraw: bool)
        requires
            old(self).wf(),
        ensures
            final(self).wf(),
            final(self).bview() == old(self).bview().switch_tool_spec(kind).b,
            redraw == old(self).bview().switch_tool_spec(kind).redraw,
            final(self).base_image == old(self).base_image,
            final(self).config == old(self).config,
    {
        let res = self.active_tool.handle_event(ToolEvent::Deactivated);
        let committed = match res {
            ToolUpdateResult::Commit(d) => {
                self.history.commit(d);
                true
            },
            _ => false,
        };
        self.active_tool = Tool::new(kind, self.style);
        let _ = self.active_tool.handle_event(ToolEvent::StyleChanged(self.style));
        let _ = self.active_tool.handle_event(ToolEvent::Activated);
        committed
    }

    /// Push a changed style into the active tool.
    fn set_style(&mut self, s2: Style) -> (redraw: bool)
        requires
            old(self).wf(),
            s2.wf(),
        ensures
            final(self).wf(),
            final(self).bview() == old(self).bview().styled_spec(s2).b,
            redraw == old(self).bview().styled_spec(s2).redraw,
            final(self).base_image == old(self).base_image,
            final(self).config == old(self).config,
    {
        self.style = s2;
        let res = self.active_tool.handle_event(ToolEvent::StyleChanged(s2));
        self.apply_tool_result(res)
    }

    /// Route one toolbar event.
    pub fn handle_toolbar_event(&mut self, ev: ToolbarEvent) -> (redraw: bool)
        requires
            old(self).wf(),
            ev matches ToolbarEvent::AnnotationSizeChanged(r) ==> r.wf(),
        ensures
            final(self).wf(),
            final(self).bview() == old(self).bview().toolbar_spec(old(self).cview(), ev).b,
            redraw == old(self).bview().toolbar_spec(old(self).cview(), ev).redraw,
            final(self).base_image == old(self).base_image,
            final(self).config == old(self).config,
    {
        match ev {
            ToolbarEvent::ToolSelected(k) => self.switch_tool(k),
            ToolbarEvent::ColorSelected(c) => {
                let s2 = Style {
                    color: c,
                    stroke_size: self.style.stroke_size,
                    fill: self.style.fill,
                    annotation_size_factor: self.style.annotation_size_factor,
                };
                self.set_style(s2)
            },
            ToolbarEvent::SizeSelected(sz) => {
                let s2 = Style {
                    color: self.style.color,
                    stroke_size: sz,
                    fill: self.style.fill,
                    annotation_size_factor: self.style.annotation_size_factor,
                };
                self.set_style(s2)
            },
            ToolbarEvent::ToggleFill => {
                let s2 = Style {
                    color: self.style.color,
                    stroke_size: self.style.stroke_size,
                    fill: !self.style.fill,
                    annotation_size_factor: self.style.annotation_size_factor,
                };
                self.set_style(s2)
            },
            ToolbarEvent::AnnotationSizeChanged(f) => {
                let s2 = Style {
                    color: self.style.color,
                    stroke_size: self.style.stroke_size,
                    fill: self.style.fill,
                    annotation_size_factor: f,
                };
                self.set_style(s2)
            },
            ToolbarEvent::SaveFile => {
                let mut actions: Vec<Action> = Vec::new();
                actions.push(Action::SaveToFile);
                proof {
                    assert(actions@ =~= seq![Action::SaveToFile]);
                }
                self.handle_action(actions)
            },
            ToolbarEvent::CopyClipboard => {
                let mut actions: Vec<Action> = Vec::new();
                actions.push(Action::SaveToClipboard);
                proof {
                    assert(actions@ =~= seq![Action::SaveToClipboard]);
                }
                self.handle_action(actions)
            },
            ToolbarEvent::SaveFileAs => {
                let mut actions: Vec<Action> = Vec::new();
                actions.push(Action::SaveToFileAs);
                proof {
                    assert(actions@ =~= seq![Action::SaveToFileAs]);
                }
                self.handle_action(actions)
            },
            ToolbarEvent::Undo => self.handle_undo(),
            ToolbarEvent::Redo => self.handle_redo(),
            ToolbarEvent::Reset => self.handle_reset(),
            ToolbarEvent::Resize => {
                self.transform.reset(
                    false,
                    self.viewport_width,
                    self.viewport_height,
                    self.base_image.width,
                    self.base_image.height,
                );
                let empty_actions: Vec<Action> = Vec::new();
                proof {
                    assert(empty_actions@ =~= Seq::<Action>::empty());
                }
                self.request_render(empty_actions);
                false
            },
            ToolbarEvent::OriginalScale => {
                self.transform.reset(
                    true,
                    self.viewport_width,
                    self.viewport_height,
                    self.base_image.width,
                    self.base_image.height,
                );
                let empty_actions: Vec<Action> = Vec::new();
                proof {
                    assert(empty_actions@ =~= Seq::<Action>::empty());
                }
                self.request_render(empty_actions);
                false
            },
        }
    }
}

fn mods_ctrl_exec() -> (r: Modifiers)
    ensures
        r == mods_ctrl(),
{
    Modifiers { ctrl: true, shift: false, alt: false }
}

fn mods_ctrl_shift_exec() -> (r: Modifiers)
    ensures
        r == mods_ctrl_shift(),
{
    Modifiers { ctrl: true, shift: true, alt: false }
}

fn mods_alt_exec() -> (r: Modifiers)
    ensures
        r == mods_alt(),
{
    Modifiers { ctrl: false, shift: false, alt: true }
}

impl SketchBoard {
    /// Route one key event: the tool first, then the board shortcuts.
    fn handle_key_event(&mut self, ke: KeyEventMsg) -> (r: (bool, Vec<SketchBoardOutput>))
        requires
            old(self).wf(),
        ensures
            final(self).wf(),
            final(self).bview() == old(self).bview().key_msg_spec(old(self).cview(), ke).b,
            r.0 == old(self).bview().key_msg_spec(old(self).cview(), ke).redraw,
            r.1@ == old(self).bview().key_msg_spec(old(self).cview(), ke).outs,
            final(self).base_image == old(self).base_image,
            final(self).config == old(self).config,
    {
        let res = self.active_tool.handle_key(ke);
        let mut outs: Vec<SketchBoardOutput> = Vec::new();
        match res {
            ToolUpdateResult::StopPropagation => {
                return (false, outs);
            },
            ToolUpdateResult::RedrawAndStopPropagation => {
                return (true, outs);
            },
            _ => {},
        }
        if ke.is_one_of(Key::Z, PhysKey::Z) && ke.modifier == mods_ctrl_exec() {
            (self.handle_undo(), outs)
        } else if ke.is_one_of(Key::Y, PhysKey::Y) && ke.modifier == mods_ctrl_exec() {
            (self.handle_redo(), outs)
        } else if ke.is_one_of(Key::T, PhysKey::T) && ke.modifier == mods_ctrl_exec() {
            outs.push(SketchBoardOutput::ToggleToolbarsDisplay);
            proof {
                assert(outs@ =~= seq![SketchBoardOutput::ToggleToolbarsDisplay]);
            }
            (false, outs)
        } else if ke.is_one_of(Key::S, PhysKey::S) && ke.modifier == mods_ctrl_exec() {
            let mut actions: Vec<Action> = Vec::new();
            actions.push(Action::SaveToFile);
            proof {
                assert(actions@ =~= seq![Action::SaveToFile]);
            }
            self.request_render(actions);
            (false, outs)
        } else if ke.is_one_of(Key::S, PhysKey::S) && ke.modifier == mods_ctrl_shift_exec() {
            let mut actions: Vec<Action> = Vec::new();
            actions.push(Action::SaveToFileAs);
            proof {
                assert(actions@ =~= seq![Action::SaveToFileAs]);
            }
            self.request_render(actions);
            (false, outs)
        } else if ke.is_one_of(Key::C, PhysKey::C) && ke.modifier == mods_ctrl_exec() {
            let mut actions: Vec<Action> = Vec::new();
            actions.push(Action::SaveToClipboard);
            proof {
                assert(actions@ =~= seq![Action::SaveToClipboard]);
            }
            self.request_render(actions);
            (false, outs)
        } else if (ke.is_one_of(Key::Left, PhysKey::Left) || ke.is_one_of(
            Key::Right,
            PhysKey::Right,
        ) || ke.is_one_of(Key::Up, PhysKey::Up) || ke.is_one_of(Key::Down, PhysKey::Down))
            && ke.modifier == mods_alt_exec() {
            let step = self.config.pan_step;
            let delta: Option<Vec2D> = if ke.key == Key::Left {
                match step.checked_neg() {
                    Some(n) => Some(Vec2D::new(n, Rat::zero())),
                    None => None,
                }
            } else if ke.key == Key::Right {
                Some(Vec2D::new(step, Rat::zero()))
            } else if ke.key == Key::Up {
                match step.checked_neg() {
                    Some(n) => Some(Vec2D::new(Rat::zero(), n)),
                    None => None,
                }
            } else if ke.key == Key::Down {
                Some(Vec2D::new(Rat::zero(), step))
            } else {
                None
            };
            match delta {
                Some(d) => self.transform.set_pan(d),
                None => {},
            }
            self.transform.store_last_offset();
            let empty_actions: Vec<Action> = Vec::new();
            proof {
                assert(empty_actions@ =~= Seq::<Action>::empty());
            }
            self.request_render(empty_actions);
            (false, outs)
        } else if ke.modifier.is_empty() && ke.key == Key::Delete {
            (self.handle_reset(), outs)
        } else if ke.modifier.is_empty() && (ke.key == Key::Escape || ke.key == Key::Return
            || ke.key == Key::KpEnter) {
            match res {
                ToolUpdateResult::Unmodified => {
                    let actions = if ke.key == Key::Escape {
                        crate::config::clone_actions(&self.config.actions_on_escape)
                    } else {
                        crate::config::clone_actions(&self.config.actions_on_enter)
                    };
                    self.request_render(actions);
                    (false, outs)
                },
                _ => (self.apply_tool_result(res), outs),
            }
        } else {
            (self.apply_tool_result(res), outs)
        }
    }

    /// Route one mouse event: map the position, feed the tool, then the
    /// board-level mouse semantics.
    fn handle_mouse_event(&mut self, me: MouseEventMsg) -> (redraw: bool)
        requires
            old(self).wf(),
            me.pos.wf(),
        ensures
            final(self).wf(),
            final(self).bview() == old(self).bview().mouse_msg_spec(old(self).cview(), me).b,
            redraw == old(self).bview().mouse_msg_spec(old(self).cview(), me).redraw,
            final(self).base_image == old(self).base_image,
            final(self).config == old(self).config,
    {
        let mapped: Option<MouseEventMsg> = if me.type_ == MouseEventType::Click || me.type_
            == MouseEventType::Release || me.type_ == MouseEventType::BeginDrag {
            match self.transform.absolute_to_image(me.pos) {
                Some(p) => Some(
                    MouseEventMsg {
                        type_: me.type_,
                        button: me.button,
                        modifier: me.modifier,
                        pos: p,
                        n_pressed: me.n_pressed,
                        release: me.release,
                    },
                ),
                None => None,
            }
        } else if me.type_ == MouseEventType::EndDrag || me.type_ == MouseEventType::UpdateDrag {
            match self.transform.relative_to_image(me.pos) {
                Some(p) => Some(
                    MouseEventMsg {
                        type_: me.type_,
                        button: me.button,
                        modifier: me.modifier,
                        pos: p,
                        n_pressed: me.n_pressed,
                        release: me.release,
                    },
                ),
                None => None,
            }
        } else {
            Some(me)
        };
        let me2 = match mapped {
            Some(m) => m,
            None => {
                return false;
            },
        };
        let res = self.active_tool.handle_mouse(me2);
        match res {
            ToolUpdateResult::StopPropagation => {
                return false;
            },
            ToolUpdateResult::RedrawAndStopPropagation => {
                return true;
            },
            _ => {},
        }
        if me2.type_ == MouseEventType::Click && me2.button == MouseButton::Secondary {
            let actions = crate::config::clone_actions(&self.config.actions_on_right_click);
            self.request_render(actions);
        } else if (me2.type_ == MouseEventType::UpdateDrag || me2.type_
            == MouseEventType::EndDrag) && me2.button == MouseButton::Middle {
            self.transform.set_drag_offset(me2.pos);
            if me2.type_ == MouseEventType::EndDrag {
                self.transform.store_last_offset();
            }
            let empty_actions: Vec<Action> = Vec::new();
            proof {
                assert(empty_actions@ =~= Seq::<Action>::empty());
            }
            self.request_render(empty_actions);
        } else if me2.type_ == MouseEventType::Scroll {
            if me2.pos.y.num < 0 {
                self.transform.set_zoom(self.config.zoom_factor);
            } else if me2.pos.y.num > 0 {
                match self.config.zoom_factor.recip() {
                    Some(f) => self.transform.set_zoom(f),
                    None => {},
                }
            }
            let empty_actions: Vec<Action> = Vec::new();
            proof {
                assert(empty_actions@ =~= Seq::<Action>::empty());
            }
            self.request_render(empty_actions);
        } else if me2.type_ == MouseEventType::PointerPos {
            self.pointer_pos = me2.pos;
        }
        self.apply_tool_result(res)
    }

    /// Route a composed-text event: to the text tool while it accepts
    /// input, else reinterpret the first character as a tool or palette
    /// shortcut.
    pub fn handle_text_commit(&mut self, te: TextEventMsg) -> (r: (bool, Vec<SketchBoardOutput>))
        requires
            old(self).wf(),
        ensures
            final(self).wf(),
            final(self).bview() == old(self).bview().commit_text_spec(
                old(self).cview(),
                te.tev(),
            ).b,
            r.0 == old(self).bview().commit_text_spec(old(self).cview(), te.tev()).redraw,
            r.1@ == old(self).bview().commit_text_spec(old(self).cview(), te.tev()).outs,
            final(self).base_image == old(self).base_image,
            final(self).config == old(self).config,
    {
        let mut outs: Vec<SketchBoardOutput> = Vec::new();
        match te {
            TextEventMsg::Commit(txt) => {
                if self.active_tool.input_enabled() {
                    let res = self.active_tool.handle_text(TextEventMsg::Commit(txt));
                    (self.apply_tool_result(res), outs)
                } else if txt.len() > 0 {
                    let ch = txt[0];
                    match self.config.tool_for(ch) {
                        Some(k) => {
                            let redraw = self.switch_tool(k);
                            outs.push(SketchBoardOutput::ToolSwitchShortcut(k));
                            proof {
                                assert(outs@ =~= seq![SketchBoardOutput::ToolSwitchShortcut(k)]);
                            }
                            (redraw, outs)
                        },
                        None => {
                            let v = ch as u32;
                            if 48 <= v && v <= 57 {
                                let idx: u32 = if v == 48 {
                                    9
                                } else {
                                    v - 49
                                };
                                if self.config.palette.len() >= (idx as usize) + 1 {
                                    outs.push(SketchBoardOutput::ColorSwitchShortcut(idx as u64));
                                    proof {
                                        assert(outs@ =~= seq![
                                            SketchBoardOutput::ColorSwitchShortcut(idx as u64),
                                        ]);
                                    }
                                    (false, outs)
                                } else {
                                    (false, outs)
                                }
                            } else {
                                (false, outs)
                            }
                        },
                    }
                } else {
                    (false, outs)
                }
            },
            other => {
                if self.active_tool.input_enabled() {
                    let res = self.active_tool.handle_text(other);
                    (self.apply_tool_result(res), outs)
                } else {
                    (false, outs)
                }
            },
        }
    }

    /// Route one message through the board: the heart of the interactive
    /// loop.  Input events go through the transform, the tool, and the
    /// board shortcuts; toolbar events change tools and styles; a
    /// delivered render result is turned into host side effects; loading
    /// an image replaces the base raster.
    pub fn update(&mut self, msg: SketchBoardInput) -> (u: BoardUpdate)
        requires
            old(self).wf(),
            msg.wf(),
        ensures
            final(self).wf(),
            final(self).config == old(self).config,
            msg matches SketchBoardInput::InputEvent(ie) ==> final(self).bview() == old(
                self,
            ).bview().input_spec(old(self).cview(), ie.iview()).b && u.redraw == old(
                self,
            ).bview().input_spec(old(self).cview(), ie.iview()).redraw && u.outputs@ == old(
                self,
            ).bview().input_spec(old(self).cview(), ie.iview()).outs && u.effects@.len() == 0
                && final(self).base_image == old(self).base_image,
            msg matches SketchBoardInput::ToolbarEvent(te) ==> final(self).bview() == old(
                self,
            ).bview().toolbar_spec(old(self).cview(), te).b && u.redraw == old(
                self,
            ).bview().toolbar_spec(old(self).cview(), te).redraw && u.outputs@.len() == 0
                && u.effects@.len() == 0 && final(self).base_image == old(self).base_image,
            msg matches SketchBoardInput::CommitEvent(te) ==> final(self).bview() == old(
                self,
            ).bview().commit_text_spec(old(self).cview(), te.tev()).b && u.redraw == old(
                self,
            ).bview().commit_text_spec(old(self).cview(), te.tev()).redraw && u.outputs@ == old(
                self,
            ).bview().commit_text_spec(old(self).cview(), te.tev()).outs && u.effects@.len() == 0
                && final(self).base_image == old(self).base_image,
            msg is Refresh ==> final(self).bview() == old(self).bview() && u.redraw
                && u.outputs@.len() == 0 && u.effects@.len() == 0 && final(self).base_image == old(
                self,
            ).base_image,
            msg matches SketchBoardInput::LoadImage(img) ==> final(self).base_image == img
                && final(self).bview() == (SpecBoard {
                img_w: img.width,
                img_h: img.height,
                ..old(self).bview()
            }) && u.redraw && u.outputs@.len() == 0 && u.effects@.len() == 0,
            msg matches SketchBoardInput::RenderResult(img, actions) ==> final(self).bview()
                == old(self).bview() && final(self).base_image == old(self).base_image
                && !u.redraw && u.outputs@.len() == 0 && batch_ok(
                u.effects@,
                actions@,
                img.width,
                img.height,
                img.data@,
                spec_output_template(old(self).config),
                old(self).config.copy_command is Some,
                old(self).config.early_exit,
            ),
    {
        match msg {
            SketchBoardInput::InputEvent(ie) => match ie {
                InputEvent::Key(ke) => {
                    let (redraw, outputs) = self.handle_key_event(ke);
                    BoardUpdate { redraw, outputs, effects: Vec::new() }
                },
                InputEvent::Mouse(me) => {
                    let redraw = self.handle_mouse_event(me);
                    BoardUpdate { redraw, outputs: Vec::new(), effects: Vec::new() }
                },
                InputEvent::KeyRelease(_) => BoardUpdate {
                    redraw: false,
                    outputs: Vec::new(),
                    effects: Vec::new(),
                },
                InputEvent::Text(te) => {
                    let res = self.active_tool.handle_text(te);
                    let redraw = self.apply_tool_result(res);
                    BoardUpdate { redraw, outputs: Vec::new(), effects: Vec::new() }
                },
            },
            SketchBoardInput::ToolbarEvent(te) => {
                let redraw = self.handle_toolbar_event(te);
                BoardUpdate { redraw, outputs: Vec::new(), effects: Vec::new() }
            },
            SketchBoardInput::CommitEvent(te) => {
                let (redraw, outputs) = self.handle_text_commit(te);
                BoardUpdate { redraw, outputs, effects: Vec::new() }
            },
            SketchBoardInput::Refresh => BoardUpdate {
                redraw: true,
                outputs: Vec::new(),
                effects: Vec::new(),
            },
            SketchBoardInput::LoadImage(img) => {
                self.base_image = img;
                BoardUpdate { redraw: true, outputs: Vec::new(), effects: Vec::new() }
            },
            SketchBoardInput::RenderResult(img, actions) => {
                let effects = self.handle_render_result(&img, &actions);
                BoardUpdate { redraw: false, outputs: Vec::new(), effects }
            },
        }
    }

    /// Interpret a delivered render result: the batch of actions runs in
    /// order against the rendered image, producing host side effects.
    pub fn handle_render_result(&self, image: &Image, actions: &Vec<Action>) -> (effects: Vec<
        Effect,
    >)
        requires
            self.wf(),
            image.wf(),
        ensures
            batch_ok(
                effects@,
                actions@,
                image.width,
                image.height,
                image.data@,
                spec_output_template(self.config),
                self.config.copy_command is Some,
                self.config.early_exit,
            ),
    {
        run_actions(image, actions, &self.config)
    }

    /// Take the earliest pending render request, if any.
    pub fn take_render_request(&mut self) -> (r: Option<RenderRequest>)
        requires
            old(self).wf(),
        ensures
            final(self).wf(),
            old(self).queue.pending@.len() > 0 ==> r is Some && r->0 == old(
                self,
            ).queue.pending@[0] && final(self).queue.pending@ == old(
                self,
            ).queue.pending@.drop_first(),
            old(self).queue.pending@.len() == 0 ==> r is None && final(self).queue.pending@
                == old(self).queue.pending@,
            final(self).active_tool == old(self).active_tool,
            final(self).style == old(self).style,
            final(self).history == old(self).history,
            final(self).transform == old(self).transform,
            final(self).base_image == old(self).base_image,
            final(self).config == old(self).config,
            final(self).pointer_pos == old(self).pointer_pos,
            final(self).viewport_width == old(self).viewport_width,
            final(self).viewport_height == old(self).viewport_height,
    {
        self.queue.pop_front()
    }

    /// Composite the current scene: the base image, the visible committed
    /// drawables in order, then the active tool's live preview.
    pub fn render_current(&self) -> (out: Image)
        requires
            self.wf(),
        ensures
            out.wf(),
            out.width == self.base_image.width,
            out.height == self.base_image.height,
            out.data@ == render_spec(
                self.base_image.data@,
                self.base_image.width as int,
                self.base_image.height as int,
                self.history.visible(),
                self.active_tool.tview().pending_drawable(),
            ),
    {
        let preview = self.active_tool.preview_drawable();
        match preview {
            Some(d) => render(&self.base_image, &self.history, Some(&d)),
            None => render(&self.base_image, &self.history, None),
        }
    }
}

/// The digit shortcut law: the character `0` addresses palette index 9 and
/// `5` addresses index 4; a digit emits exactly one colour-switch event
/// when the palette has at least `index + 1` entries, and nothing
/// otherwise.  Only the board state never changes on a digit shortcut.
pub proof fn lemma_digit_shortcut(b: SpecBoard, cfg: SpecConfig, ch: char)
    requires
        !b.tool.spec_input_enabled(),
        spec_tool_for(cfg.keybinds, ch) is None,
        spec_digit_index(ch) is Some,
    ensures
        ({
            let idx = spec_digit_index(ch)->0;
            let st = b.commit_text_spec(cfg, SpecTextEvent::Commit(seq![ch]));
            st.b == b && !st.redraw && (cfg.palette_len >= idx + 1 ==> st.outs
                =~= seq![SketchBoardOutput::ColorSwitchShortcut(idx as u64)]) && (cfg.palette_len
                < idx + 1 ==> st.outs =~= Seq::<SketchBoardOutput>::empty())
        }),
        ch == '0' ==> spec_digit_index(ch) == Some(9int),
        ch == '5' ==> spec_digit_index(ch) == Some(4int),
{
}

/// The tool-switch law: switching tools deactivates the old tool exactly
/// once and installs a freshly activated idle tool, and any in-progress
/// geometry becomes exactly one committed drawable: the history grows by
/// one drawable when the old tool held geometry and is untouched
/// otherwise.
pub proof fn lemma_tool_switch(b: SpecBoard, kind: Tools)
    ensures
        ({
            let st = b.switch_tool_spec(kind);
            st.b.tool == (SpecTool { kind, style: b.style, state: SpecToolState::Idle })
                && !st.b.tool.spec_active() && (b.tool.pending_drawable() is Some
                ==> st.b.history.stack =~= b.history.visible().push(
                b.tool.pending_drawable()->0,
            ) && st.b.history.cursor == b.history.cursor + 1) && (b.tool.pending_drawable() is None
                ==> st.b.history == b.history)
        }),
{
    let st = b.switch_tool_spec(kind);
    let step = b.tool.deactivate_step();
    match b.tool.pending_drawable() {
        Some(d) => {
            assert(step.1 == SpecResult::Commit(d));
            assert(st.b.history.stack =~= b.history.visible().push(d));
        },
        None => {
            assert(!(step.1 is Commit));
        },
    }
}

} // verus!
