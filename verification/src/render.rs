//! The render/apply step: the pure function from the catalog and the
//! cursor position to the commands handed to the external display engine,
//! and the one-cycle evaluation that couples an input signal to a cursor
//! transition and a fresh frame.

use vstd::prelude::*;

use crate::font_info::CurrentFont;
use crate::font_info::FontEntry;
use crate::font_info::FontNames;
use crate::font_info::advance_spec;
use crate::font_info::retreat_spec;

verus! {

/// The decimal digit character for a value below ten.
pub open spec fn digit_char(d: nat) -> char
    recommends
        d < 10,
{
    if d == 0 {
        '0'
    } else if d == 1 {
        '1'
    } else if d == 2 {
        '2'
    } else if d == 3 {
        '3'
    } else if d == 4 {
        '4'
    } else if d == 5 {
        '5'
    } else if d == 6 {
        '6'
    } else if d == 7 {
        '7'
    } else if d == 8 {
        '8'
    } else {
        '9'
    }
}

/// The decimal digit string of `n`, most significant digit first,
/// without leading zeros (a lone zero for `n == 0`).
pub open spec fn dec_str(n: nat) -> Seq<char>
    decreases n,
{
    if n < 10 {
        seq![digit_char(n)]
    } else {
        dec_str(n / 10).push(digit_char(n % 10))
    }
}

/// The one-character string slice holding the digit character of `d`.
fn digit_str(d: u32) -> (s: &'static str)
    requires
        d < 10,
    ensures
        s@ =~= seq![digit_char(d as nat)],
{
    proof {
        reveal_strlit("0");
        reveal_strlit("1");
        reveal_strlit("2");
        reveal_strlit("3");
        reveal_strlit("4");
        reveal_strlit("5");
        reveal_strlit("6");
        reveal_strlit("7");
        reveal_strlit("8");
        reveal_strlit("9");
    }
    if d == 0 {
        "0"
    } else if d == 1 {
        "1"
    } else if d == 2 {
        "2"
    } else if d == 3 {
        "3"
    } else if d == 4 {
        "4"
    } else if d == 5 {
        "5"
    } else if d == 6 {
        "6"
    } else if d == 7 {
        "7"
    } else if d == 8 {
        "8"
    } else {
        "9"
    }
}

/// Render `n` in decimal.
pub fn u32_to_decimal(n: u32) -> (s: String)
    ensures
        s@ == dec_str(n as nat),
    decreases n,
{
    if n < 10 {
        String::from_str(digit_str(n))
    } else {
        let mut s = u32_to_decimal(n / 10);
        s.append(digit_str(n % 10));
        proof {
            assert(s@ =~= dec_str(n as nat));
        }
        s
    }
}

/// Foreground tint of one drawn text.
#[derive(Debug, Clone, Copy, PartialEq, Eq, Structural)]
pub enum TextTint {
    Plain,
    Green,
}

/// Mathematical value of one draw-text command.
#[verifier::ext_equal]
pub ghost struct TextCmd {
    pub column: int,
    pub row: int,
    pub top_anchored: bool,
    pub tint: TextTint,
    pub text: Seq<char>,
}

/// One draw-text command for the external display engine: a cell position
/// (anchored to the top-left or the bottom-left of the surface), a tint,
/// and the text to draw there.
#[derive(Debug)]
pub struct TextCommand {
    pub column: u32,
    pub row: u32,
    pub top_anchored: bool,
    pub tint: TextTint,
    pub text: String,
}

impl View for TextCommand {
    type V = TextCmd;

    open spec fn view(&self) -> TextCmd {
        TextCmd {
            column: self.column as int,
            row: self.row as int,
            top_anchored: self.top_anchored,
            tint: self.tint,
            text: self.text@,
        }
    }
}

/// Mathematical value of one frame's worth of display commands.
#[verifier::ext_equal]
pub ghost struct Frame {
    pub active_font_key: Seq<char>,
    pub commands: Seq<TextCmd>,
}

/// Everything one evaluation hands to the external display engine: the
/// asset key of the font to activate, and the texts to draw after the
/// surface is cleared.
#[derive(Debug)]
pub struct FrameOutput {
    pub active_font_key: String,
    pub commands: Vec<TextCommand>,
}

impl View for FrameOutput {
    type V = Frame;

    open spec fn view(&self) -> Frame {
        Frame {
            active_font_key: self.active_font_key@,
            commands: self.commands@.map_values(|c: TextCommand| c@),
        }
    }
}

/// The frame drawn for a catalog and a cursor position: activate the
/// entry's font resource, then draw the key help, the cursor index, the
/// sample alphabets and glyph charts, and the entry's display name.
/// A pure function of its arguments: the whole render step is determined
/// by `(catalog, p)`.
pub open spec fn frame_spec(catalog: Seq<FontEntry>, p: nat) -> Frame
    recommends
        p < catalog.len(),
{
    Frame {
        active_font_key: catalog[p as int].asset_key,
        commands: seq![
            TextCmd {
                column: 0,
                row: 1,
                top_anchored: true,
                tint: TextTint::Plain,
                text: "Press [SPACEBAR]/[BACKSPACE] to page through fonts"@,
            },
            TextCmd {
                column: 0,
                row: 2,
                top_anchored: false,
                tint: TextTint::Plain,
                text: "CurrentFont is "@ + dec_str(p),
            },
            TextCmd {
                column: 0,
                row: 3,
                top_anchored: true,
                tint: TextTint::Plain,
                text: "ABCDEFGHIJKLMNOPQRSTUVWXYZ"@,
            },
            TextCmd {
                column: 0,
                row: 5,
                top_anchored: true,
                tint: TextTint::Plain,
                text: "abcdefghijklmnopqrstuvwxyz"@,
            },
            TextCmd {
                column: 0,
                row: 7,
                top_anchored: true,
                tint: TextTint::Plain,
                text: "☺☻♥♦♣♠•◘○◙♂♀♪♫☼►◄↕‼¶§▬↨↑↓→←∟↔▲▼"@,
            },
            TextCmd {
                column: 0,
                row: 9,
                top_anchored: true,
                tint: TextTint::Plain,
                text: "░▒▓│┤╡╢╖╕╣║╗╝╜╛┐└╒╓╫╪┘┌█▄▌▐▀αßΓπΣσµτΦΘΩδ∞"@,
            },
            TextCmd {
                column: 0,
                row: 3,
                top_anchored: false,
                tint: TextTint::Plain,
                text: "Font Name: "@ + catalog[p as int].name,
            },
            TextCmd { column: 5, row: 5, top_anchored: false, tint: TextTint::Green, text: "☺"@ },
        ],
    }
}

/// Compute the display commands for the current selection.
/// The output is exactly `frame_spec(catalog@, position.0)`: identical
/// inputs always yield identical commands.
pub fn render_step(catalog: &FontNames, position: &CurrentFont) -> (out: FrameOutput)
    requires
        (position.0 as nat) < catalog@.len(),
    ensures
        out@ == frame_spec(catalog@, position.0 as nat),
{
    let d = catalog.descriptor_at(position.0 as usize);
    let mut commands: Vec<TextCommand> = Vec::new();
    commands.push(
        TextCommand {
            column: 0,
            row: 1,
            top_anchored: true,
            tint: TextTint::Plain,
            text: String::from_str("Press [SPACEBAR]/[BACKSPACE] to page through fonts"),
        },
    );
    let index_text = u32_to_decimal(position.0);
    commands.push(
        TextCommand {
            column: 0,
            row: 2,
            top_anchored: false,
            tint: TextTint::Plain,
            text: String::from_str("CurrentFont is ").concat(index_text.as_str()),
        },
    );
    commands.push(
        TextCommand {
            column: 0,
            row: 3,
            top_anchored: true,
            tint: TextTint::Plain,
            text: String::from_str("ABCDEFGHIJKLMNOPQRSTUVWXYZ"),
        },
    );
    commands.push(
        TextCommand {
            column: 0,
            row: 5,
            top_anchored: true,
            tint: TextTint::Plain,
            text: String::from_str("abcdefghijklmnopqrstuvwxyz"),
        },
    );
    commands.push(
        TextCommand {
            column: 0,
            row: 7,
            top_anchored: true,
            tint: TextTint::Plain,
            text: String::from_str("☺☻♥♦♣♠•◘○◙♂♀♪♫☼►◄↕‼¶§▬↨↑↓→←∟↔▲▼"),
        },
    );
    commands.push(
        TextCommand {
            column: 0,
            row: 9,
            top_anchored: true,
            tint: TextTint::Plain,
            text: String::from_str("░▒▓│┤╡╢╖╕╣║╗╝╜╛┐└╒╓╫╪┘┌█▄▌▐▀αßΓπΣσµτΦΘΩδ∞"),
        },
    );
    commands.push(
        TextCommand {
            column: 0,
            row: 3,
            top_anchored: false,
            tint: TextTint::Plain,
            text: String::from_str("Font Name: ").concat(d.name.as_str()),
        },
    );
    commands.push(
        TextCommand {
            column: 5,
            row: 5,
            top_anchored: false,
            tint: TextTint::Green,
            text: String::from_str("☺"),
        },
    );
    let out = FrameOutput { active_font_key: d.asset_key.clone(), commands };
    proof {
        assert(out@ =~= frame_spec(catalog@, position.0 as nat));
    }
    out
}

/// A recognized input signal, delivered at most once per evaluation cycle.
#[derive(Debug, Clone, Copy, PartialEq, Eq, Structural)]
pub enum InputSignal {
    Next,
    Previous,
    Refresh,
}

/// The cursor position after one signal: "next" advances with wraparound,
/// "previous" retreats with wraparound, "refresh" keeps the selection.
pub open spec fn apply_signal(sig: InputSignal, p: nat, count: nat) -> nat
    recommends
        1 <= count,
        p < count,
{
    match sig {
        InputSignal::Next => advance_spec(p, count),
        InputSignal::Previous => retreat_spec(p, count),
        InputSignal::Refresh => p,
    }
}

/// One atomic evaluation cycle: apply the requested cursor transition, if
/// any, then compute the frame for the resulting selection. A cycle with
/// no recognized signal leaves the cursor alone and issues no commands at
/// all; a cycle with a signal yields exactly the frame of the new position.
pub fn evaluate(catalog: &FontNames, position: &mut CurrentFont, signal: Option<InputSignal>) -> (out:
    Option<FrameOutput>)
    requires
        1 <= catalog@.len() <= u32::MAX,
        old(position).0 < catalog@.len(),
    ensures
        final(position).0 < catalog@.len(),
        signal is None ==> out is None && *final(position) == *old(position),
        signal matches Some(sig) ==> {
            &&& final(position).0 == apply_signal(sig, old(position).0 as nat, catalog@.len() as nat)
            &&& out matches Some(f) && f@ == frame_spec(catalog@, final(position).0 as nat)
        },
{
    match signal {
        None => None,
        Some(sig) => {
            let count = catalog.size() as u32;
            match sig {
                InputSignal::Next => position.advance(count),
                InputSignal::Previous => position.retreat(count),
                InputSignal::Refresh => (),
            }
            Some(render_step(catalog, position))
        },
    }
}

} // verus!
