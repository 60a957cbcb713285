//! The configuration the host supplies at startup: the initial tool, the
//! colour palette, single-key tool bindings, the action lists per trigger,
//! and the output settings.  Constructed once and passed by reference; no
//! ambient global state.

use vstd::prelude::*;

use crate::rat::Rat;
use crate::style::Color;
use crate::tools::Tools;

verus! {

/// A requested post-render side effect.
#[derive(Clone, Copy, Debug, PartialEq, Eq, Structural)]
pub enum Action {
    SaveToFile,
    SaveToFileAs,
    SaveToClipboard,
    Exit,
}

/// A single-key tool binding.
#[derive(Clone, Copy, Debug)]
pub struct Keybind {
    pub ch: char,
    pub tool: Tools,
}

pub struct Config {
    /// The tool active at startup.
    pub initial_tool: Tools,
    /// The ordered colour palette, index-addressable by digit shortcuts.
    pub palette: Vec<Color>,
    /// Character-to-tool shortcut bindings.
    pub keybinds: Vec<Keybind>,
    pub actions_on_enter: Vec<Action>,
    pub actions_on_escape: Vec<Action>,
    pub actions_on_right_click: Vec<Action>,
    /// The multiplicative zoom step per scroll notch; greater than one.
    pub zoom_factor: Rat,
    /// How far one arrow-key pan moves, in viewport units.
    pub pan_step: Rat,
    /// The save-to-file target: a strftime template, or `-` for standard
    /// output; absent when saving to file is not configured.
    pub output_filename: Option<String>,
    /// An external command to pipe encoded bytes to instead of the platform
    /// clipboard.
    pub copy_command: Option<String>,
    /// Exit right after the first action of any render batch.
    pub early_exit: bool,
}

/// The tool bound to a character; the first binding wins.
pub open spec fn spec_tool_for(binds: Seq<Keybind>, ch: char) -> Option<Tools>
    decreases binds.len(),
{
    if binds.len() == 0 {
        None
    } else if binds[0].ch == ch {
        Some(binds[0].tool)
    } else {
        spec_tool_for(binds.drop_first(), ch)
    }
}

/// Skipping past a non-matching binding keeps the lookup result.
proof fn lemma_tool_for_skip(binds: Seq<Keybind>, ch: char, i: int)
    requires
        0 <= i < binds.len(),
        binds[i].ch != ch,
    ensures
        spec_tool_for(binds.skip(i), ch) == spec_tool_for(binds.skip(i + 1), ch),
{
    assert(binds.skip(i).drop_first() =~= binds.skip(i + 1));
    assert(binds.skip(i)[0] == binds[i]);
}

impl Config {
    pub open spec fn wf(self) -> bool {
        self.zoom_factor.wf() && self.zoom_factor.is_pos() && self.pan_step.wf()
    }

    /// Look up the tool bound to a character; the first binding wins.
    pub fn tool_for(&self, ch: char) -> (r: Option<Tools>)
        ensures
            r == spec_tool_for(self.keybinds@, ch),
    {
        let binds = &self.keybinds;
        let ghost all = binds@;
        proof {
            assert(all.skip(0) =~= all);
        }
        let mut i: usize = 0;
        while i < binds.len()
            invariant
                0 <= i <= all.len(),
                all == self.keybinds@,
                all == binds@,
                spec_tool_for(all.skip(i as int), ch) == spec_tool_for(all, ch),
            decreases all.len() - i,
        {
            if binds[i].ch == ch {
                proof {
                    assert(all.skip(i as int).len() > 0);
                    assert(all.skip(i as int)[0] == all[i as int]);
                    assert(spec_tool_for(all.skip(i as int), ch) == Some(all[i as int].tool));
                }
                return Some(binds[i].tool);
            }
            proof {
                lemma_tool_for_skip(all, ch, i as int);
            }
            i = i + 1;
        }
        proof {
            assert(all.skip(i as int) =~= Seq::<Keybind>::empty());
        }
        None
    }
}

/// An exact copy of an action list.
pub fn clone_actions(v: &Vec<Action>) -> (r: Vec<Action>)
    ensures
        r@ == v@,
{
    let mut r: Vec<Action> = Vec::new();
    let mut i: usize = 0;
    while i < v.len()
        invariant
            0 <= i <= v@.len(),
            r@ =~= v@.take(i as int),
        decreases v@.len() - i,
    {
        r.push(v[i]);
        i = i + 1;
    }
    proof {
        assert(r@ =~= v@);
    }
    r
}

} // verus!
