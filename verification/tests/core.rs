use satty_core::config::{Action, Config, Keybind};
use satty_core::dispatch::{Effect, Notice};
use satty_core::history::History;
use satty_core::math::Vec2D;
use satty_core::rat::Rat;
use satty_core::relay::{encode_frame, parse_frame, RawImage};
use satty_core::render::Image;
use satty_core::sketch_board::{
    InputEvent, Key, KeyEventMsg, Modifiers, MouseEventType, SketchBoard, SketchBoardInput,
    SketchBoardOutput, TextEventMsg, ToolbarEvent,
};
use satty_core::style::{Color, Style};
use satty_core::tools::{Tool, ToolEvent, ToolUpdateResult, Tools};
use satty_core::transform::Transform;
use satty_core::drawable::Drawable;

fn test_style() -> Style {
    Style {
        color: Color { r: 255, g: 0, b: 0, a: 255 },
        stroke_size: 2,
        fill: false,
        annotation_size_factor: Rat { num: 1, den: 1 },
    }
}

fn test_config() -> Config {
    Config {
        initial_tool: Tools::Rectangle,
        palette: vec![
            Color { r: 1, g: 0, b: 0, a: 255 },
            Color { r: 2, g: 0, b: 0, a: 255 },
            Color { r: 3, g: 0, b: 0, a: 255 },
            Color { r: 4, g: 0, b: 0, a: 255 },
            Color { r: 5, g: 0, b: 0, a: 255 },
        ],
        keybinds: vec![Keybind { ch: 'l', tool: Tools::Line }],
        actions_on_enter: vec![Action::SaveToFile],
        actions_on_escape: vec![],
        actions_on_right_click: vec![],
        zoom_factor: Rat { num: 5, den: 4 },
        pan_step: Rat { num: 10, den: 1 },
        output_filename: Some("annotated.png".to_string()),
        copy_command: None,
        early_exit: false,
    }
}

fn white_image(w: u32, h: u32) -> Image {
    Image::solid(w, h, Color { r: 255, g: 255, b: 255, a: 255 })
}

fn rect_drawable(x: i64, y: i64, ex: i64, ey: i64) -> Drawable {
    Drawable::Rect {
        start: Vec2D::from_ints(x, y),
        extent: Vec2D::from_ints(ex, ey),
        style: test_style(),
    }
}

fn pixel(img: &Image, x: u32, y: u32) -> (u8, u8, u8, u8) {
    let i = (4 * (y * img.width + x)) as usize;
    (img.data[i], img.data[i + 1], img.data[i + 2], img.data[i + 3])
}

// --- history: commits, undo, redo, and the discarded redo tail ---

#[test]
fn history_commit_undo_redo() {
    let mut h = History::new();
    h.commit(rect_drawable(0, 0, 1, 1));
    h.commit(rect_drawable(1, 1, 1, 1));
    h.commit(rect_drawable(2, 2, 1, 1));
    assert_eq!(h.visible_len(), 3);
    assert!(h.undo());
    assert!(h.undo());
    assert_eq!(h.visible_len(), 1);
    assert!(h.redo());
    assert_eq!(h.visible_len(), 2);
    assert!(h.undo());
    // a new commit discards the redo tail permanently
    h.commit(rect_drawable(7, 7, 1, 1));
    assert_eq!(h.visible_len(), 2);
    assert!(!h.redo());
    assert_eq!(h.visible_len(), 2);
}

#[test]
fn history_undo_on_empty_is_a_noop() {
    let mut h = History::new();
    assert!(!h.undo());
    assert!(!h.redo());
    assert_eq!(h.visible_len(), 0);
}

// --- coordinate transform: identity, zoom round trip ---

#[test]
fn transform_identity_maps_points_unchanged() {
    let t = Transform::new();
    let p = Vec2D::from_ints(17, -5);
    let q = t.absolute_to_image(p).unwrap();
    assert_eq!(q.x.num, 17);
    assert_eq!(q.x.den, 1);
    assert_eq!(q.y.num, -5);
    assert_eq!(q.y.den, 1);
    let d = t.relative_to_image(p).unwrap();
    assert_eq!(d.x.num, 17);
    assert_eq!(d.y.num, -5);
}

#[test]
fn zoom_in_then_out_restores_scale_exactly() {
    let mut t = Transform::new();
    let f = Rat { num: 5, den: 4 };
    t.set_zoom(f);
    let back = f.recip().unwrap();
    t.set_zoom(back);
    // rationally equal to one: num == den by cross multiplication
    assert_eq!(t.scale.num as i128 * 1, t.scale.den as i128 * 1);
}

#[test]
fn zoom_is_order_independent() {
    let f = Rat { num: 5, den: 4 };
    let g = Rat { num: 7, den: 3 };
    let mut t1 = Transform::new();
    t1.set_zoom(f);
    t1.set_zoom(g);
    let mut t2 = Transform::new();
    t2.set_zoom(g);
    t2.set_zoom(f);
    assert_eq!(
        t1.scale.num as i128 * t2.scale.den as i128,
        t2.scale.num as i128 * t1.scale.den as i128
    );
}

#[test]
fn absolute_mapping_subtracts_pan_and_divides_by_scale() {
    let mut t = Transform::new();
    t.set_zoom(Rat { num: 2, den: 1 });
    t.set_pan(Vec2D::from_ints(10, 20));
    let q = t.absolute_to_image(Vec2D::from_ints(30, 60)).unwrap();
    // (30 - 10) / 2 == 10 and (60 - 20) / 2 == 20
    assert_eq!(q.x.num, 20 * t.scale.den);
    assert_eq!(q.x.den, t.scale.num);
    assert_eq!(q.x.num as i128 * 1, 10 * q.x.den as i128);
    assert_eq!(q.y.num as i128 * 1, 20 * q.y.den as i128);
}

// --- digit palette shortcuts ---

fn digit_outputs(board: &mut SketchBoard, ch: char) -> Vec<SketchBoardOutput> {
    let msg = SketchBoardInput::new_commit_event(
        TextEventMsg::Commit(vec![ch]),
    );
    board.update(msg).outputs
}

#[test]
fn digit_five_maps_to_palette_index_four() {
    let mut board = SketchBoard::new(test_config(), white_image(4, 4));
    let outs = digit_outputs(&mut board, '5');
    assert_eq!(outs.len(), 1);
    assert!(matches!(outs[0], SketchBoardOutput::ColorSwitchShortcut(4)));
}

#[test]
fn digit_zero_maps_to_palette_index_nine_only_if_present() {
    // palette has five entries: index 9 is out of range, nothing is emitted
    let mut board = SketchBoard::new(test_config(), white_image(4, 4));
    let outs = digit_outputs(&mut board, '0');
    assert_eq!(outs.len(), 0);
    // with ten entries the shortcut addresses the last slot
    let mut cfg = test_config();
    cfg.palette = (0..10).map(|i| Color { r: i as u8, g: 0, b: 0, a: 255 }).collect();
    let mut board = SketchBoard::new(cfg, white_image(4, 4));
    let outs = digit_outputs(&mut board, '0');
    assert_eq!(outs.len(), 1);
    assert!(matches!(outs[0], SketchBoardOutput::ColorSwitchShortcut(9)));
}

#[test]
fn single_key_shortcut_switches_tool() {
    let mut board = SketchBoard::new(test_config(), white_image(4, 4));
    let outs = digit_outputs(&mut board, 'l');
    assert_eq!(outs.len(), 1);
    assert!(matches!(
        outs[0],
        SketchBoardOutput::ToolSwitchShortcut(Tools::Line)
    ));
    assert_eq!(board.active_tool_type(), Tools::Line);
}

// --- tool switching commits in-progress geometry exactly once ---

fn begin_drag(x: i64, y: i64) -> SketchBoardInput {
    SketchBoardInput::new_mouse_event(
        MouseEventType::BeginDrag,
        1,
        1,
        Modifiers::empty(),
        Vec2D::from_ints(x, y),
        false,
    )
}

fn update_drag(x: i64, y: i64) -> SketchBoardInput {
    SketchBoardInput::new_mouse_event(
        MouseEventType::UpdateDrag,
        1,
        1,
        Modifiers::empty(),
        Vec2D::from_ints(x, y),
        false,
    )
}

fn end_drag(x: i64, y: i64) -> SketchBoardInput {
    SketchBoardInput::new_mouse_event(
        MouseEventType::EndDrag,
        1,
        1,
        Modifiers::empty(),
        Vec2D::from_ints(x, y),
        false,
    )
}

#[test]
fn tool_switch_commits_in_progress_geometry_exactly_once() {
    let mut board = SketchBoard::new(test_config(), white_image(8, 8));
    board.update(begin_drag(1, 1));
    board.update(update_drag(2, 2));
    assert_eq!(board.history.visible_len(), 0);
    let redraw = board.handle_toolbar_event(ToolbarEvent::ToolSelected(Tools::Ellipse));
    assert!(redraw);
    assert_eq!(board.history.visible_len(), 1);
    assert_eq!(board.active_tool_type(), Tools::Ellipse);
    // the new tool starts idle: switching again commits nothing more
    board.handle_toolbar_event(ToolbarEvent::ToolSelected(Tools::Rectangle));
    assert_eq!(board.history.visible_len(), 1);
}

#[test]
fn tool_switch_without_geometry_commits_nothing() {
    let mut board = SketchBoard::new(test_config(), white_image(8, 8));
    let redraw = board.handle_toolbar_event(ToolbarEvent::ToolSelected(Tools::Line));
    assert!(!redraw);
    assert_eq!(board.history.visible_len(), 0);
}

// --- tool state machines ---

#[test]
fn drag_tool_commits_on_drag_end() {
    let mut tool = Tool::new(Tools::Rectangle, test_style());
    assert!(!tool.active());
    let begin = InputEvent::Mouse(mouse(MouseEventType::BeginDrag, 1, 1));
    let end = InputEvent::Mouse(mouse(MouseEventType::EndDrag, 3, 2));
    assert!(matches!(
        tool.handle_event(ToolEvent::Input(begin)),
        ToolUpdateResult::Redraw
    ));
    assert!(tool.active());
    match tool.handle_event(ToolEvent::Input(end)) {
        ToolUpdateResult::Commit(Drawable::Rect { start, extent, .. }) => {
            assert_eq!(start.x.num, 1);
            assert_eq!(extent.x.num, 3);
            assert_eq!(extent.y.num, 2);
        }
        other => panic!("expected a committed rectangle, got {:?}", other),
    }
    assert!(!tool.active());
}

fn mouse(kind: MouseEventType, x: i64, y: i64) -> satty_core::sketch_board::MouseEventMsg {
    satty_core::sketch_board::MouseEventMsg {
        type_: kind,
        button: satty_core::sketch_board::MouseButton::Primary,
        modifier: Modifiers::empty(),
        pos: Vec2D::from_ints(x, y),
        n_pressed: 1,
        release: false,
    }
}

#[test]
fn escape_cancels_a_drag_in_progress() {
    let mut tool = Tool::new(Tools::Ellipse, test_style());
    let begin = InputEvent::Mouse(mouse(MouseEventType::BeginDrag, 1, 1));
    tool.handle_event(ToolEvent::Input(begin));
    assert!(tool.active());
    let esc = satty_core::sketch_board::InputEvent::Key(KeyEventMsg::new(
        Key::Escape,
        9,
        Modifiers::empty(),
    ));
    assert!(matches!(
        tool.handle_event(ToolEvent::Input(esc)),
        ToolUpdateResult::Redraw
    ));
    assert!(!tool.active());
}

#[test]
fn text_tool_collects_typed_text_and_commits_on_enter() {
    let mut tool = Tool::new(Tools::Text, test_style());
    assert!(!tool.input_enabled());
    tool.handle_event(ToolEvent::Input(InputEvent::Mouse(mouse(MouseEventType::Click, 2, 2))));
    assert!(tool.input_enabled());
    tool.handle_event(ToolEvent::Input(InputEvent::Text(TextEventMsg::Commit(vec!['h', 'i']))));
    // backspace removes the last character and stops propagation
    let bs = InputEvent::Key(KeyEventMsg::new(Key::BackSpace, 22, Modifiers::empty()));
    assert!(matches!(
        tool.handle_event(ToolEvent::Input(bs)),
        ToolUpdateResult::RedrawAndStopPropagation
    ));
    let enter = InputEvent::Key(KeyEventMsg::new(Key::Return, 36, Modifiers::empty()));
    match tool.handle_event(ToolEvent::Input(enter)) {
        ToolUpdateResult::Commit(Drawable::Text { text, .. }) => {
            assert_eq!(text, vec!['h']);
        }
        other => panic!("expected a committed text annotation, got {:?}", other),
    }
    assert!(!tool.input_enabled());
}

#[test]
fn deactivation_commits_pending_text() {
    let mut tool = Tool::new(Tools::Text, test_style());
    tool.handle_event(ToolEvent::Input(InputEvent::Mouse(mouse(MouseEventType::Click, 0, 0))));
    tool.handle_event(ToolEvent::Input(InputEvent::Text(TextEventMsg::Commit(vec!['x']))));
    match tool.handle_event(ToolEvent::Deactivated) {
        ToolUpdateResult::Commit(Drawable::Text { text, .. }) => assert_eq!(text, vec!['x']),
        other => panic!("expected a committed text annotation, got {:?}", other),
    }
}

#[test]
fn freehand_collects_points_along_the_drag() {
    let mut tool = Tool::new(Tools::Freehand, test_style());
    tool.handle_event(ToolEvent::Input(InputEvent::Mouse(mouse(MouseEventType::BeginDrag, 0, 0))));
    tool.handle_event(ToolEvent::Input(InputEvent::Mouse(mouse(MouseEventType::UpdateDrag, 1, 1))));
    match tool.handle_event(ToolEvent::Input(InputEvent::Mouse(mouse(
        MouseEventType::EndDrag,
        2,
        2,
    )))) {
        ToolUpdateResult::Commit(Drawable::Freehand { points, .. }) => {
            assert_eq!(points.len(), 3);
            assert_eq!(points[1].x.num, 1);
            assert_eq!(points[2].y.num, 2);
        }
        other => panic!("expected a committed freehand mark, got {:?}", other),
    }
}

// --- board shortcuts ---

#[test]
fn ctrl_z_undoes_a_commit() {
    let mut board = SketchBoard::new(test_config(), white_image(8, 8));
    board.update(begin_drag(1, 1));
    board.update(end_drag(2, 2));
    assert_eq!(board.history.visible_len(), 1);
    let ke = KeyEventMsg::new(Key::Z, 52, Modifiers { ctrl: true, shift: false, alt: false });
    let u = board.update(SketchBoardInput::new_key_event(ke));
    assert!(u.redraw);
    assert_eq!(board.history.visible_len(), 0);
}

#[test]
fn scroll_zooms_by_the_configured_factor() {
    let mut board = SketchBoard::new(test_config(), white_image(8, 8));
    // a negative vertical delta zooms in by 5/4
    board.update(SketchBoardInput::new_scroll_event(Rat { num: -1, den: 1 }));
    assert_eq!(board.transform.scale.num, 5);
    assert_eq!(board.transform.scale.den, 4);
    // a positive delta zooms back out
    board.update(SketchBoardInput::new_scroll_event(Rat { num: 1, den: 1 }));
    assert_eq!(
        board.transform.scale.num as i128 * 1,
        board.transform.scale.den as i128 * 1
    );
    // a zero delta is a no-op
    let before = (board.transform.scale.num, board.transform.scale.den);
    board.update(SketchBoardInput::new_scroll_event(Rat { num: 0, den: 1 }));
    assert_eq!((board.transform.scale.num, board.transform.scale.den), before);
}

// --- render request ordering (first in, first out) ---

#[test]
fn render_requests_are_delivered_in_submission_order() {
    let mut board = SketchBoard::new(test_config(), white_image(4, 4));
    board.handle_action(vec![]);
    board.handle_action(vec![Action::Exit]);
    let first = board.take_render_request().unwrap();
    let second = board.take_render_request().unwrap();
    assert!(board.take_render_request().is_none());
    assert_eq!(first.actions.len(), 0);
    assert_eq!(second.actions, vec![Action::Exit]);
    // the earlier (empty) batch completes without any exit effect; only the
    // later batch carries one
    let img = board.render_current();
    let effects1 = board.handle_render_result(&img, &first.actions);
    assert!(effects1.iter().all(|e| !matches!(e, Effect::Exit)));
    assert_eq!(effects1.len(), 0);
    let effects2 = board.handle_render_result(&img, &second.actions);
    assert_eq!(effects2.len(), 1);
    assert!(matches!(effects2[0], Effect::Exit));
}

// --- the action dispatcher ---

#[test]
fn save_without_output_filename_notifies() {
    let mut cfg = test_config();
    cfg.output_filename = None;
    let board = SketchBoard::new(cfg, white_image(4, 4));
    let img = board.render_current();
    let effects = board.handle_render_result(&img, &vec![Action::SaveToFile]);
    assert_eq!(effects.len(), 1);
    assert!(matches!(
        effects[0],
        Effect::Notify { notice: Notice::NoOutputFilename }
    ));
}

#[test]
fn stdout_sentinel_writes_to_standard_output() {
    let mut cfg = test_config();
    cfg.output_filename = Some("-".to_string());
    let board = SketchBoard::new(cfg, white_image(4, 4));
    let img = board.render_current();
    let effects = board.handle_render_result(&img, &vec![Action::SaveToFile]);
    assert_eq!(effects.len(), 1);
    assert!(matches!(effects[0], Effect::WriteStdout { .. }));
}

#[test]
fn copy_uses_the_configured_command_or_the_clipboard() {
    let mut cfg = test_config();
    cfg.copy_command = Some("cat > /dev/null".to_string());
    let board = SketchBoard::new(cfg, white_image(4, 4));
    let img = board.render_current();
    let effects = board.handle_render_result(&img, &vec![Action::SaveToClipboard]);
    assert_eq!(effects.len(), 1);
    assert!(matches!(effects[0], Effect::PipeToCommand { .. }));

    let board2 = SketchBoard::new(test_config(), white_image(4, 4));
    let img2 = board2.render_current();
    let effects2 = board2.handle_render_result(&img2, &vec![Action::SaveToClipboard]);
    assert_eq!(effects2.len(), 1);
    match &effects2[0] {
        Effect::SetClipboard { width, height, bytes } => {
            assert_eq!(*width, 4);
            assert_eq!(*height, 4);
            assert_eq!(bytes.len(), 4 * 4 * 4);
        }
        other => panic!("expected a clipboard effect, got {:?}", other),
    }
}

#[test]
fn early_exit_appends_an_exit_after_the_first_action() {
    let mut cfg = test_config();
    cfg.early_exit = true;
    let board = SketchBoard::new(cfg, white_image(4, 4));
    let img = board.render_current();
    let effects = board.handle_render_result(
        &img,
        &vec![Action::SaveToFile, Action::SaveToClipboard],
    );
    // only the first action runs, then the batch exits
    assert_eq!(effects.len(), 2);
    assert!(matches!(effects[0], Effect::WriteFile { .. }));
    assert!(matches!(effects[1], Effect::Exit));
}

#[test]
fn exit_action_stops_the_batch() {
    let board = SketchBoard::new(test_config(), white_image(4, 4));
    let img = board.render_current();
    let effects = board.handle_render_result(
        &img,
        &vec![Action::SaveToFile, Action::Exit, Action::SaveToClipboard],
    );
    assert_eq!(effects.len(), 2);
    assert!(matches!(effects[0], Effect::WriteFile { .. }));
    assert!(matches!(effects[1], Effect::Exit));
}

// --- compositing ---

#[test]
fn filled_rectangle_paints_its_pixels_and_nothing_else() {
    let mut board = SketchBoard::new(test_config(), white_image(8, 8));
    let mut style = test_style();
    style.fill = true;
    board.history.commit(Drawable::Rect {
        start: Vec2D::from_ints(2, 2),
        extent: Vec2D::from_ints(3, 3),
        style,
    });
    let out = board.render_current();
    assert_eq!(pixel(&out, 3, 3), (255, 0, 0, 255));
    assert_eq!(pixel(&out, 2, 2), (255, 0, 0, 255));
    assert_eq!(pixel(&out, 5, 5), (255, 0, 0, 255));
    assert_eq!(pixel(&out, 0, 0), (255, 255, 255, 255));
    assert_eq!(pixel(&out, 6, 6), (255, 255, 255, 255));
}

#[test]
fn highlight_blends_translucently() {
    let mut board = SketchBoard::new(test_config(), white_image(4, 4));
    board.history.commit(Drawable::Highlight {
        start: Vec2D::from_ints(0, 0),
        extent: Vec2D::from_ints(3, 3),
        style: test_style(),
    });
    let out = board.render_current();
    let (r, g, b, a) = pixel(&out, 1, 1);
    // red at half opacity over white: (255*127 + 255*128)/255 = 255 red,
    // (0*127 + 255*128)/255 = 128 green and blue; alpha untouched
    assert_eq!(r, 255);
    assert_eq!(g, 128);
    assert_eq!(b, 128);
    assert_eq!(a, 255);
}

#[test]
fn censored_region_copies_its_block_anchor() {
    // base: first row red, rest white; censoring copies the block's top-left
    let mut data = vec![255u8; 8 * 8 * 4];
    for x in 0..8 {
        data[4 * x + 1] = 0;
        data[4 * x + 2] = 0;
    }
    let base = Image { width: 8, height: 8, data };
    let mut board = SketchBoard::new(test_config(), base);
    board.history.commit(Drawable::Blur {
        start: Vec2D::from_ints(0, 0),
        extent: Vec2D::from_ints(7, 7),
        style: test_style(),
    });
    let out = board.render_current();
    // every pixel of the 8x8 block shows the anchor pixel (0,0): red
    assert_eq!(pixel(&out, 5, 5), (255, 0, 0, 255));
    assert_eq!(pixel(&out, 7, 7), (255, 0, 0, 255));
}

#[test]
fn live_preview_is_composited_without_committing() {
    let mut board = SketchBoard::new(test_config(), white_image(8, 8));
    board.handle_toolbar_event(ToolbarEvent::ToggleFill);
    board.update(begin_drag(1, 1));
    board.update(update_drag(4, 4));
    assert_eq!(board.history.visible_len(), 0);
    let out = board.render_current();
    assert_eq!(pixel(&out, 2, 2), (255, 0, 0, 255));
}

// --- end to end: render, save, undo, save again ---

#[test]
fn end_to_end_save_undo_save() {
    let mut board = SketchBoard::new(test_config(), white_image(4, 4));
    board.update(begin_drag(0, 0));
    board.update(end_drag(3, 3));
    assert_eq!(board.history.visible_len(), 1);

    board.handle_action(vec![Action::SaveToFile]);
    let req = board.take_render_request().unwrap();
    let rendered = board.render_current();
    let effects = board.handle_render_result(&rendered, &req.actions);
    assert_eq!(effects.len(), 1);
    let bytes = match &effects[0] {
        Effect::WriteFile { path, expansion_failed, bytes } => {
            assert_eq!(path, "annotated.png");
            assert!(!expansion_failed);
            bytes.clone()
        }
        other => panic!("expected a file write, got {:?}", other),
    };
    let decoded = image::load_from_memory(&bytes).unwrap().to_rgba8();
    assert_eq!(decoded.dimensions(), (4, 4));
    // the rectangle is visibly composited
    assert_eq!(decoded.get_pixel(0, 0).0, [255, 0, 0, 255]);

    // undo once: the committed list is empty again
    assert!(board.handle_undo());
    assert_eq!(board.history.visible_len(), 0);

    board.handle_action(vec![Action::SaveToFile]);
    let req2 = board.take_render_request().unwrap();
    let rendered2 = board.render_current();
    let effects2 = board.handle_render_result(&rendered2, &req2.actions);
    let bytes2 = match &effects2[0] {
        Effect::WriteFile { bytes, .. } => bytes.clone(),
        other => panic!("expected a file write, got {:?}", other),
    };
    let decoded2 = image::load_from_memory(&bytes2).unwrap().to_rgba8();
    // the output equals the original base image
    for p in decoded2.pixels() {
        assert_eq!(p.0, [255, 255, 255, 255]);
    }
}

// --- the relay framing ---

#[test]
fn relay_frame_round_trips() {
    let img = RawImage {
        width: 640,
        height: 480,
        channels: 4,
        rowstride: 2560,
        data: vec![1, 2, 3, 4, 5, 6, 7, 8],
    };
    let bytes = encode_frame(&img);
    assert_eq!(bytes.len(), 24 + 8);
    let back = parse_frame(&bytes).unwrap();
    assert_eq!(back.width, 640);
    assert_eq!(back.height, 480);
    assert_eq!(back.channels, 4);
    assert_eq!(back.rowstride, 2560);
    assert_eq!(back.data, vec![1, 2, 3, 4, 5, 6, 7, 8]);
}

#[test]
fn truncated_relay_frames_are_rejected() {
    let img = RawImage { width: 2, height: 2, channels: 4, rowstride: 8, data: vec![0; 16] };
    let mut bytes = encode_frame(&img);
    bytes.pop();
    assert!(parse_frame(&bytes).is_none());
    assert!(parse_frame(&vec![0u8; 10]).is_none());
}

// --- auto-fit scale ---

#[test]
fn auto_fit_shrinks_to_eighty_percent_and_never_upscales() {
    // image twice the viewport: fit at 80% of the half ratio
    let mut t = Transform::new();
    t.reset(false, 100, 100, 250, 100);
    // min(4*100/(5*250), 4*100/(5*100), 1) = 400/1250
    assert_eq!(t.scale.num as i128 * 1250, 400 * t.scale.den as i128);
    // small image: the fit would upscale, so the scale stays at one
    t.reset(false, 1000, 1000, 10, 10);
    assert_eq!(t.scale.num, t.scale.den);
    // explicit original scale
    t.reset(true, 1000, 1000, 10, 10);
    assert_eq!(t.scale.num, 1);
    assert_eq!(t.scale.den, 1);
}

// --- save degradation, text compositing and raw repacking ---

#[test]
fn invalid_template_degrades_to_the_literal_filename() {
    let mut cfg = test_config();
    cfg.output_filename = Some("shot-%!.png".to_string());
    let board = SketchBoard::new(cfg, white_image(4, 4));
    let img = board.render_current();
    let effects = board.handle_render_result(&img, &vec![Action::SaveToFile]);
    assert_eq!(effects.len(), 1);
    match &effects[0] {
        Effect::WriteFile { path, expansion_failed, bytes } => {
            // the save degrades to the literal template with a warning flag
            assert_eq!(path, "shot-%!.png");
            assert!(expansion_failed);
            assert!(!bytes.is_empty());
        }
        other => panic!("expected a degraded file write, got {:?}", other),
    }
}

#[test]
fn text_annotation_is_composited_into_the_output() {
    let mut board = SketchBoard::new(test_config(), white_image(16, 16));
    board.history.commit(Drawable::Text {
        pos: Vec2D::from_ints(2, 3),
        text: vec!['A'],
        style: test_style(),
    });
    let out = board.render_current();
    // the glyph paints inside its 8x8 cell and nowhere else
    let mut painted = 0;
    for y in 0..16u32 {
        for x in 0..16u32 {
            let p = pixel(&out, x, y);
            if p != (255, 255, 255, 255) {
                painted += 1;
                assert_eq!(p, (255, 0, 0, 255));
                assert!(x >= 2 && x < 10 && y >= 3 && y < 11, "pixel outside the cell: {x},{y}");
            }
        }
    }
    assert!(painted > 0, "the glyph left no mark");
    // undoing the text restores the plain base image
    let mut board = board;
    assert!(board.handle_undo());
    let plain = board.render_current();
    assert_eq!(plain.data, white_image(16, 16).data);
}

#[test]
fn raw_repacking_honours_stride_and_adds_alpha() {
    // 2x2, three channels, stride 8 (two padding bytes per row)
    let raw = RawImage {
        width: 2,
        height: 2,
        channels: 3,
        rowstride: 8,
        data: vec![
            1, 2, 3, 4, 5, 6, 0, 0, // row 0: two pixels, then padding
            7, 8, 9, 10, 11, 12, 0, 0, // row 1
        ],
    };
    let img = satty_core::relay::repack_raw(&raw).unwrap();
    assert_eq!((img.width, img.height), (2, 2));
    assert_eq!(
        img.data,
        vec![1, 2, 3, 255, 4, 5, 6, 255, 7, 8, 9, 255, 10, 11, 12, 255]
    );
}

#[test]
fn raw_repacking_rejects_short_payloads() {
    let raw = RawImage { width: 2, height: 2, channels: 4, rowstride: 8, data: vec![0; 15] };
    assert!(satty_core::relay::repack_raw(&raw).is_none());
    let raw2 = RawImage { width: 2, height: 2, channels: 4, rowstride: 4, data: vec![0; 16] };
    assert!(satty_core::relay::repack_raw(&raw2).is_none());
}

#[test]
fn repeated_zoom_cycles_stay_reduced() {
    // the normalised scale never accumulates factors across in/out cycles
    let mut t = Transform::new();
    let f = Rat { num: 5, den: 4 };
    let back = f.recip().unwrap();
    let mut i = 0;
    while i < 100 {
        t.set_zoom(f);
        t.set_zoom(back);
        i += 1;
    }
    assert_eq!((t.scale.num, t.scale.den), (1, 1));
    t.set_zoom(f);
    assert_eq!((t.scale.num, t.scale.den), (5, 4));
}
