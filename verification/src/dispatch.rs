//! The action dispatcher: interpret a batch of requested actions against a
//! freshly rendered image.  Actions execute strictly in the order given;
//! an `Exit` action, or the early-exit configuration flag, stops the batch.
//! The dispatcher decides everything and encodes the raster; the host
//! performs the resulting side effects (file writes, the clipboard, the
//! copy subprocess), which cannot live in verified code.

use vstd::prelude::*;

use crate::config::{Action, Config};
use crate::render::Image;

verus! {

/// What the PNG encoder produces for a pixel buffer: a pure function of the
/// dimensions and bytes, named here because the encoding itself takes pages
/// to state.
pub uninterp spec fn png_of(width: u32, height: u32, data: Seq<u8>) -> Seq<u8>;

/// Relies on the image crate's `ImageBuffer::from_raw` and
/// `ImageBuffer::write_to` with `ImageFormat::Png`: encoding is a pure
/// function of the dimensions and pixel bytes, reports failure through its
/// result rather than panicking, and always succeeds for a nonzero-size
/// raster whose buffer holds exactly four bytes per pixel (`from_raw`
/// checks the length, and the PNG encoder writing to an in-memory buffer
/// has no other failure case).
#[verifier::external_body]
fn encode_png(width: u32, height: u32, data: &Vec<u8>) -> (r: Option<Vec<u8>>)
    ensures
        r is Some ==> r->0@ == png_of(width, height, data@),
        1 <= width <= 0x7fff && 1 <= height <= 0x7fff && data@.len() == width * height * 4
            ==> r is Some,
{
    let buf: image::ImageBuffer<image::Rgba<u8>, Vec<u8>> = match image::ImageBuffer::from_raw(
        width,
        height,
        data.clone(),
    ) {
        Some(b) => b,
        None => return None,
    };
    let mut out: Vec<u8> = Vec::new();
    let mut cursor = std::io::Cursor::new(&mut out);
    match buf.write_to(&mut cursor, image::ImageFormat::Png) {
        Ok(()) => Some(out),
        Err(_) => None,
    }
}

/// Relies on chrono's `Local::now`, `DateTime::format` and
/// `DelayedFormat::write_to`: expands a strftime template against the
/// current local time, and reports an invalid template as an error instead
/// of output or a panic.  The result depends on the clock, so nothing more
/// is stated.
#[verifier::external_body]
fn expand_time_template(template: &String) -> (r: Option<String>)
{
    let delayed = chrono::Local::now().format(template.as_str());
    let mut out = String::new();
    match delayed.write_to(&mut out) {
        Ok(()) => Some(out),
        Err(_) => None,
    }
}

/// A user-facing notification; the host renders the text.
#[derive(Clone, Copy, Debug, PartialEq, Eq, Structural)]
pub enum Notice {
    /// A save was requested but no output filename is configured.
    NoOutputFilename,
    /// The raster could not be encoded; the save or copy was abandoned.
    /// Defensive: unreachable for the well-formed images the dispatcher
    /// requires.
    EncodeFailed,
}

/// A side effect the host must perform.  Ownership of the bytes moves with
/// the effect.
#[derive(Clone, Debug)]
pub enum Effect {
    /// Write the encoded image to this path: the time-expanded output
    /// template.  When expansion failed, `expansion_failed` is set and the
    /// path is the literal template — the save degrades and the host owes
    /// the user a warning.
    WriteFile { path: String, expansion_failed: bool, bytes: Vec<u8> },
    /// Write the encoded image to standard output (the `-` sentinel path).
    WriteStdout { bytes: Vec<u8> },
    /// Ask the user for a destination, then write the encoded image there.
    PromptSaveAs { bytes: Vec<u8> },
    /// Pipe the encoded image to the configured copy command.
    PipeToCommand { bytes: Vec<u8> },
    /// Hand the raw pixel buffer to the platform clipboard.
    SetClipboard { width: u32, height: u32, bytes: Vec<u8> },
    /// Tell the user what happened.
    Notify { notice: Notice },
    /// Terminate the host after the earlier effects of the batch.
    Exit,
}

/// The output path a template and an expansion outcome resolve to: the
/// expansion when it succeeded, the literal template otherwise.
pub open spec fn resolved_path(template: Seq<char>, expansion: Option<Seq<char>>) -> Seq<char> {
    match expansion {
        Some(p) => p,
        None => template,
    }
}

/// The one save effect a resolved expansion outcome dictates: the `-`
/// sentinel goes to standard output, anything else to that exact path,
/// carrying the degraded-template warning flag; the bytes are always the
/// encoded image.
pub open spec fn save_effect_ok(
    e: Effect,
    template: Seq<char>,
    expansion: Option<Seq<char>>,
    png: Seq<u8>,
) -> bool {
    let path = resolved_path(template, expansion);
    if path == seq!['-'] {
        e matches Effect::WriteStdout { bytes } && bytes@ == png
    } else {
        e matches Effect::WriteFile { path: p, expansion_failed, bytes } && p@ == path && bytes@
            == png && expansion_failed == (expansion is None)
    }
}

/// What one action must produce, given the rendered image and the
/// configuration: exactly one effect, with the encoded bytes pinned to the
/// encoder's output.  A save is owed its effect: the `-` sentinel template
/// always goes to standard output, and for any other template the only
/// freedom left is the clock-dependent expansion, quantified over its
/// outcomes.
pub open spec fn effect_matches(
    e: Effect,
    a: Action,
    width: u32,
    height: u32,
    data: Seq<u8>,
    output_template: Option<Seq<char>>,
    has_copy_cmd: bool,
) -> bool {
    match a {
        Action::SaveToClipboard => if has_copy_cmd {
            e matches Effect::PipeToCommand { bytes } && bytes@ == png_of(width, height, data)
        } else {
            e matches Effect::SetClipboard { width: w2, height: h2, bytes } && w2 == width && h2
                == height && bytes@ == data
        },
        Action::SaveToFile => match output_template {
            None => e == (Effect::Notify { notice: Notice::NoOutputFilename }),
            Some(t) => if t == seq!['-'] {
                e matches Effect::WriteStdout { bytes } && bytes@ == png_of(width, height, data)
            } else {
                exists|x: Option<Seq<char>>|
                    save_effect_ok(e, t, x, png_of(width, height, data))
            },
        },
        Action::SaveToFileAs => e matches Effect::PromptSaveAs { bytes } && bytes@ == png_of(
            width,
            height,
            data,
        ),
        Action::Exit => e is Exit,
    }
}

/// Pick the output path from the expansion outcome: the expanded string
/// when expansion succeeded, the literal template otherwise — the save
/// degrades, it does not fail; reports whether it degraded.
pub fn resolve_output_path(template: &String, expansion: Option<String>) -> (r: (String, bool))
    ensures
        expansion matches Some(p) ==> r.0 == p && !r.1,
        expansion is None ==> r.0@ == template@ && r.1,
{
    match expansion {
        Some(p) => (p, false),
        None => (template.clone(), true),
    }
}

/// Route a save to standard output for the `-` sentinel path, and to the
/// file otherwise.
pub fn build_save_effect(path: String, expansion_failed: bool, bytes: Vec<u8>) -> (e: Effect)
    ensures
        path@ == seq!['-'] ==> e == (Effect::WriteStdout { bytes }),
        path@ != seq!['-'] ==> e == (Effect::WriteFile { path, expansion_failed, bytes }),
{
    let dash: String = "-".to_owned();
    proof {
        reveal_strlit("-");
        assert("-"@ =~= seq!['-']);
    }
    if path.eq(&dash) {
        Effect::WriteStdout { bytes }
    } else {
        Effect::WriteFile { path, expansion_failed, bytes }
    }
}

/// The template the configuration saves to, as a ghost value.
pub open spec fn spec_output_template(c: Config) -> Option<Seq<char>> {
    match c.output_filename {
        Some(t) => Some(t@),
        None => None,
    }
}

/// Perform one action against the rendered image.
pub fn dispatch_action(a: Action, image: &Image, config: &Config) -> (e: Effect)
    requires
        image.wf(),
    ensures
        effect_matches(
            e,
            a,
            image.width,
            image.height,
            image.data@,
            spec_output_template(*config),
            config.copy_command is Some,
        ),
{
    match a {
        Action::SaveToClipboard => {
            match &config.copy_command {
                Some(_) => match encode_png(image.width, image.height, &image.data) {
                    Some(bytes) => Effect::PipeToCommand { bytes },
                    None => Effect::Notify { notice: Notice::EncodeFailed },
                },
                None => Effect::SetClipboard {
                    width: image.width,
                    height: image.height,
                    bytes: crate::render::clone_bytes(&image.data),
                },
            }
        },
        Action::SaveToFile => {
            match &config.output_filename {
                None => Effect::Notify { notice: Notice::NoOutputFilename },
                Some(template) => {
                    let dash: String = "-".to_owned();
                    proof {
                        reveal_strlit("-");
                        assert("-"@ =~= seq!['-']);
                    }
                    if template.eq(&dash) {
                        return match encode_png(image.width, image.height, &image.data) {
                            Some(bytes) => Effect::WriteStdout { bytes },
                            None => Effect::Notify { notice: Notice::EncodeFailed },
                        };
                    }
                    let expansion = expand_time_template(template);
                    let ghost x: Option<Seq<char>> = if expansion is Some {
                        Some(expansion->0@)
                    } else {
                        None
                    };
                    let (path, expansion_failed) = resolve_output_path(template, expansion);
                    match encode_png(image.width, image.height, &image.data) {
                        Some(bytes) => {
                            let e = build_save_effect(path, expansion_failed, bytes);
                            proof {
                                assert(spec_output_template(*config) == Some(template@));
                                assert(save_effect_ok(
                                    e,
                                    spec_output_template(*config)->0,
                                    x,
                                    png_of(image.width, image.height, image.data@),
                                ));
                                assert(effect_matches(
                                    e,
                                    Action::SaveToFile,
                                    image.width,
                                    image.height,
                                    image.data@,
                                    spec_output_template(*config),
                                    config.copy_command is Some,
                                ));
                            }
                            e
                        },
                        None => Effect::Notify { notice: Notice::EncodeFailed },
                    }
                },
            }
        },
        Action::SaveToFileAs => {
            match encode_png(image.width, image.height, &image.data) {
                Some(bytes) => Effect::PromptSaveAs { bytes },
                None => Effect::Notify { notice: Notice::EncodeFailed },
            }
        },
        Action::Exit => Effect::Exit,
    }
}

/// How many actions of a batch run before it stops: everything up to and
/// including the first `Exit`, or only the first action when the early-exit
/// flag is set.
pub open spec fn batch_stop(actions: Seq<Action>, early_exit: bool) -> int
    decreases actions.len(),
{
    if actions.len() == 0 {
        0
    } else if actions[0] == Action::Exit || early_exit {
        1
    } else {
        1 + batch_stop(actions.drop_first(), early_exit)
    }
}

/// The stop point moves through the batch one action at a time.
proof fn lemma_batch_stop_skip(actions: Seq<Action>, early_exit: bool, i: int)
    requires
        0 <= i < actions.len(),
        actions[i] != Action::Exit,
        !early_exit,
    ensures
        batch_stop(actions.skip(i), early_exit) == 1 + batch_stop(actions.skip(i + 1), early_exit),
    decreases actions.len() - i,
{
    assert(actions.skip(i).len() > 0);
    assert(actions.skip(i)[0] == actions[i]);
    assert(actions.skip(i).drop_first() =~= actions.skip(i + 1));
}

/// The batch stops within the batch.
proof fn lemma_batch_stop_bounds(actions: Seq<Action>, early_exit: bool)
    ensures
        0 <= batch_stop(actions, early_exit) <= actions.len(),
    decreases actions.len(),
{
    if actions.len() > 0 && !(actions[0] == Action::Exit || early_exit) {
        lemma_batch_stop_bounds(actions.drop_first(), early_exit);
    }
}

/// The batch contract: exactly the actions before the stop point produce
/// their effect, in the order given; a batch cut short by the early-exit
/// flag gets one trailing `Exit` effect.
pub open spec fn batch_ok(
    effects: Seq<Effect>,
    actions: Seq<Action>,
    width: u32,
    height: u32,
    data: Seq<u8>,
    output_template: Option<Seq<char>>,
    has_copy_cmd: bool,
    early_exit: bool,
) -> bool {
    let stop = batch_stop(actions, early_exit);
    let cut_short = early_exit && stop > 0 && actions[stop - 1] != Action::Exit;
    effects.len() == stop + (if cut_short {
        1int
    } else {
        0int
    }) && (forall|i: int|
        0 <= i < stop ==> effect_matches(
            #[trigger] effects[i],
            actions[i],
            width,
            height,
            data,
            output_template,
            has_copy_cmd,
        )) && (cut_short ==> effects[stop] is Exit)
}

/// Interpret a batch of actions against a freshly rendered image, in order.
pub fn run_actions(image: &Image, actions: &Vec<Action>, config: &Config) -> (effects: Vec<
    Effect,
>)
    requires
        image.wf(),
    ensures
        batch_ok(
            effects@,
            actions@,
            image.width,
            image.height,
            image.data@,
            spec_output_template(*config),
            config.copy_command is Some,
            config.early_exit,
        ),
{
    proof {
        lemma_batch_stop_bounds(actions@, config.early_exit);
        assert(actions@.skip(0) =~= actions@);
    }
    let ghost stop = batch_stop(actions@, config.early_exit);
    let mut effects: Vec<Effect> = Vec::new();
    let mut i: usize = 0;
    while i < actions.len()
        invariant
            image.wf(),
            0 <= i <= actions@.len(),
            stop == batch_stop(actions@, config.early_exit),
            i > 0 ==> !config.early_exit,
            forall|j: int| 0 <= j < i ==> actions@[j] != Action::Exit,
            i < actions@.len() ==> stop == i + batch_stop(
                actions@.skip(i as int),
                config.early_exit,
            ),
            i == actions@.len() ==> stop == i,
            effects@.len() == i,
            forall|j: int|
                0 <= j < i ==> effect_matches(
                    #[trigger] effects@[j],
                    actions@[j],
                    image.width,
                    image.height,
                    image.data@,
                    spec_output_template(*config),
                    config.copy_command is Some,
                ),
        decreases actions@.len() - i,
    {
        let a = actions[i];
        let e = dispatch_action(a, image, config);
        effects.push(e);
        proof {
            assert(actions@.skip(i as int)[0] == actions@[i as int]);
            assert(actions@.skip(i as int).len() > 0);
        }
        if config.early_exit || a == Action::Exit {
            if !(a == Action::Exit) {
                effects.push(Effect::Exit);
            }
            proof {
                assert(batch_stop(actions@.skip(i as int), config.early_exit) == 1);
            }
            return effects;
        }
        proof {
            lemma_batch_stop_skip(actions@, config.early_exit, i as int);
        }
        i = i + 1;
        proof {
            if i < actions@.len() {
            } else {
                assert(actions@.skip(i as int) =~= Seq::<Action>::empty());
            }
        }
    }
    effects
}

} // verus!
