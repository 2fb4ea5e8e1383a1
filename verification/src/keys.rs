//! Virtual key names: the key vocabulary of the mapper, the parser from
//! configuration names ("ctrl", "f5", ";") to keys, and the `+`-separated
//! combo parser.

use vstd::prelude::*;
use vstd::string::StringSliceAdditionalSpecFns;

use crate::bytes::{
    bytes_eq, find_byte, lower_vec, spec_find, spec_lower_seq, spec_trim, trim,
};

verus! {

/// Virtual keys the mapper can emit.
#[derive(Debug, Clone, Copy, PartialEq, Eq, Structural)]
pub enum VKey {
    Return,
    Escape,
    Tab,
    Up,
    Down,
    Left,
    Right,
    Alt,
    Shift,
    Control,
    Win,
    A, B, C, D, E, F, G, H, I, J, K, L, M, N, O, P, Q, R, S, T, U, V, W, X, Y, Z,
    D0, D1, D2, D3, D4, D5, D6, D7, D8, D9,
    Semicolon,
    LeftBracket,
    RightBracket,
    Backslash,
    Quote,
    Slash,
    Minus,
    Equals,
    Comma,
    Period,
    Backtick,
    Space,
    F1, F2, F3, F4, F5, F6, F7, F8, F9, F10, F11, F12,
}

/// The key named by a single lowercased byte: a letter, a digit, or one of
/// the OEM symbol characters.
pub open spec fn spec_single_vkey(b: u8) -> Option<VKey> {
    if b == 97 {
        Some(VKey::A)
    } else if b == 98 {
        Some(VKey::B)
    } else if b == 99 {
        Some(VKey::C)
    } else if b == 100 {
        Some(VKey::D)
    } else if b == 101 {
        Some(VKey::E)
    } else if b == 102 {
        Some(VKey::F)
    } else if b == 103 {
        Some(VKey::G)
    } else if b == 104 {
        Some(VKey::H)
    } else if b == 105 {
        Some(VKey::I)
    } else if b == 106 {
        Some(VKey::J)
    } else if b == 107 {
        Some(VKey::K)
    } else if b == 108 {
        Some(VKey::L)
    } else if b == 109 {
        Some(VKey::M)
    } else if b == 110 {
        Some(VKey::N)
    } else if b == 111 {
        Some(VKey::O)
    } else if b == 112 {
        Some(VKey::P)
    } else if b == 113 {
        Some(VKey::Q)
    } else if b == 114 {
        Some(VKey::R)
    } else if b == 115 {
        Some(VKey::S)
    } else if b == 116 {
        Some(VKey::T)
    } else if b == 117 {
        Some(VKey::U)
    } else if b == 118 {
        Some(VKey::V)
    } else if b == 119 {
        Some(VKey::W)
    } else if b == 120 {
        Some(VKey::X)
    } else if b == 121 {
        Some(VKey::Y)
    } else if b == 122 {
        Some(VKey::Z)
    } else if b == 48 {
        Some(VKey::D0)
    } else if b == 49 {
        Some(VKey::D1)
    } else if b == 50 {
        Some(VKey::D2)
    } else if b == 51 {
        Some(VKey::D3)
    } else if b == 52 {
        Some(VKey::D4)
    } else if b == 53 {
        Some(VKey::D5)
    } else if b == 54 {
        Some(VKey::D6)
    } else if b == 55 {
        Some(VKey::D7)
    } else if b == 56 {
        Some(VKey::D8)
    } else if b == 57 {
        Some(VKey::D9)
    } else if b == 59 {
        Some(VKey::Semicolon)
    } else if b == 91 {
        Some(VKey::LeftBracket)
    } else if b == 93 {
        Some(VKey::RightBracket)
    } else if b == 92 {
        Some(VKey::Backslash)
    } else if b == 39 {
        Some(VKey::Quote)
    } else if b == 47 {
        Some(VKey::Slash)
    } else if b == 45 {
        Some(VKey::Minus)
    } else if b == 61 {
        Some(VKey::Equals)
    } else if b == 44 {
        Some(VKey::Comma)
    } else if b == 46 {
        Some(VKey::Period)
    } else if b == 96 {
        Some(VKey::Backtick)
    } else {
        None
    }
}

fn single_vkey(b: u8) -> (r: Option<VKey>)
    ensures
        r == spec_single_vkey(b),
{
    match b {
        97 => Some(VKey::A),
        98 => Some(VKey::B),
        99 => Some(VKey::C),
        100 => Some(VKey::D),
        101 => Some(VKey::E),
        102 => Some(VKey::F),
        103 => Some(VKey::G),
        104 => Some(VKey::H),
        105 => Some(VKey::I),
        106 => Some(VKey::J),
        107 => Some(VKey::K),
        108 => Some(VKey::L),
        109 => Some(VKey::M),
        110 => Some(VKey::N),
        111 => Some(VKey::O),
        112 => Some(VKey::P),
        113 => Some(VKey::Q),
        114 => Some(VKey::R),
        115 => Some(VKey::S),
        116 => Some(VKey::T),
        117 => Some(VKey::U),
        118 => Some(VKey::V),
        119 => Some(VKey::W),
        120 => Some(VKey::X),
        121 => Some(VKey::Y),
        122 => Some(VKey::Z),
        48 => Some(VKey::D0),
        49 => Some(VKey::D1),
        50 => Some(VKey::D2),
        51 => Some(VKey::D3),
        52 => Some(VKey::D4),
        53 => Some(VKey::D5),
        54 => Some(VKey::D6),
        55 => Some(VKey::D7),
        56 => Some(VKey::D8),
        57 => Some(VKey::D9),
        59 => Some(VKey::Semicolon),
        91 => Some(VKey::LeftBracket),
        93 => Some(VKey::RightBracket),
        92 => Some(VKey::Backslash),
        39 => Some(VKey::Quote),
        47 => Some(VKey::Slash),
        45 => Some(VKey::Minus),
        61 => Some(VKey::Equals),
        44 => Some(VKey::Comma),
        46 => Some(VKey::Period),
        96 => Some(VKey::Backtick),
        _ => None,
    }
}

/// The key named by a lowercased multi-byte word ("enter", "ctrl", ...).
pub open spec fn spec_word_vkey(l: Seq<u8>) -> Option<VKey> {
    if l == seq![114u8, 101u8, 116u8, 117u8, 114u8, 110u8] {  // "return"
        Some(VKey::Return)
    } else if l == seq![101u8, 110u8, 116u8, 101u8, 114u8] {  // "enter"
        Some(VKey::Return)
    } else if l == seq![101u8, 115u8, 99u8, 97u8, 112u8, 101u8] {  // "escape"
        Some(VKey::Escape)
    } else if l == seq![101u8, 115u8, 99u8] {  // "esc"
        Some(VKey::Escape)
    } else if l == seq![116u8, 97u8, 98u8] {  // "tab"
        Some(VKey::Tab)
    } else if l == seq![117u8, 112u8] {  // "up"
        Some(VKey::Up)
    } else if l == seq![100u8, 111u8, 119u8, 110u8] {  // "down"
        Some(VKey::Down)
    } else if l == seq![108u8, 101u8, 102u8, 116u8] {  // "left"
        Some(VKey::Left)
    } else if l == seq![114u8, 105u8, 103u8, 104u8, 116u8] {  // "right"
        Some(VKey::Right)
    } else if l == seq![97u8, 108u8, 116u8] {  // "alt"
        Some(VKey::Alt)
    } else if l == seq![115u8, 104u8, 105u8, 102u8, 116u8] {  // "shift"
        Some(VKey::Shift)
    } else if l == seq![99u8, 116u8, 114u8, 108u8] {  // "ctrl"
        Some(VKey::Control)
    } else if l == seq![99u8, 111u8, 110u8, 116u8, 114u8, 111u8, 108u8] {  // "control"
        Some(VKey::Control)
    } else if l == seq![119u8, 105u8, 110u8] {  // "win"
        Some(VKey::Win)
    } else if l == seq![119u8, 105u8, 110u8, 100u8, 111u8, 119u8, 115u8] {  // "windows"
        Some(VKey::Win)
    } else if l == seq![115u8, 117u8, 112u8, 101u8, 114u8] {  // "super"
        Some(VKey::Win)
    } else if l == seq![109u8, 101u8, 116u8, 97u8] {  // "meta"
        Some(VKey::Win)
    } else if l == seq![115u8, 101u8, 109u8, 105u8, 99u8, 111u8, 108u8, 111u8, 110u8] {  // "semicolon"
        Some(VKey::Semicolon)
    } else if l == seq![108u8, 101u8, 102u8, 116u8, 98u8, 114u8, 97u8, 99u8, 107u8, 101u8, 116u8] {  // "leftbracket"
        Some(VKey::LeftBracket)
    } else if l == seq![114u8, 105u8, 103u8, 104u8, 116u8, 98u8, 114u8, 97u8, 99u8, 107u8, 101u8, 116u8] {  // "rightbracket"
        Some(VKey::RightBracket)
    } else if l == seq![98u8, 97u8, 99u8, 107u8, 115u8, 108u8, 97u8, 115u8, 104u8] {  // "backslash"
        Some(VKey::Backslash)
    } else if l == seq![113u8, 117u8, 111u8, 116u8, 101u8] {  // "quote"
        Some(VKey::Quote)
    } else if l == seq![115u8, 108u8, 97u8, 115u8, 104u8] {  // "slash"
        Some(VKey::Slash)
    } else if l == seq![109u8, 105u8, 110u8, 117u8, 115u8] {  // "minus"
        Some(VKey::Minus)
    } else if l == seq![101u8, 113u8, 117u8, 97u8, 108u8, 115u8] {  // "equals"
        Some(VKey::Equals)
    } else if l == seq![99u8, 111u8, 109u8, 109u8, 97u8] {  // "comma"
        Some(VKey::Comma)
    } else if l == seq![112u8, 101u8, 114u8, 105u8, 111u8, 100u8] {  // "period"
        Some(VKey::Period)
    } else if l == seq![98u8, 97u8, 99u8, 107u8, 116u8, 105u8, 99u8, 107u8] {  // "backtick"
        Some(VKey::Backtick)
    } else if l == seq![115u8, 112u8, 97u8, 99u8, 101u8] {  // "space"
        Some(VKey::Space)
    } else {
        None
    }
}

/// The function key named by a lowercased "f1".."f12".
pub open spec fn spec_fkey(l: Seq<u8>) -> Option<VKey> {
    if l.len() == 2 && l[0] == 102 {
        if l[1] == 49 {
            Some(VKey::F1)
        } else if l[1] == 50 {
            Some(VKey::F2)
        } else if l[1] == 51 {
            Some(VKey::F3)
        } else if l[1] == 52 {
            Some(VKey::F4)
        } else if l[1] == 53 {
            Some(VKey::F5)
        } else if l[1] == 54 {
            Some(VKey::F6)
        } else if l[1] == 55 {
            Some(VKey::F7)
        } else if l[1] == 56 {
            Some(VKey::F8)
        } else if l[1] == 57 {
            Some(VKey::F9)
        } else {
            None
        }
    } else if l.len() == 3 && l[0] == 102 && l[1] == 49 {
        if l[2] == 48 {
            Some(VKey::F10)
        } else if l[2] == 49 {
            Some(VKey::F11)
        } else if l[2] == 50 {
            Some(VKey::F12)
        } else {
            None
        }
    } else {
        None
    }
}

fn fkey(l: &[u8]) -> (r: Option<VKey>)
    ensures
        r == spec_fkey(l@),
{
    if l.len() == 2 && l[0] == 102 {
        match l[1] {
            49 => Some(VKey::F1),
            50 => Some(VKey::F2),
            51 => Some(VKey::F3),
            52 => Some(VKey::F4),
            53 => Some(VKey::F5),
            54 => Some(VKey::F6),
            55 => Some(VKey::F7),
            56 => Some(VKey::F8),
            57 => Some(VKey::F9),
            _ => None,
        }
    } else if l.len() == 3 && l[0] == 102 && l[1] == 49 {
        match l[2] {
            48 => Some(VKey::F10),
            49 => Some(VKey::F11),
            50 => Some(VKey::F12),
            _ => None,
        }
    } else {
        None
    }
}

/// The key a name denotes, case-insensitively: single characters name
/// letters, digits and symbols; words name the named keys and modifiers;
/// "f1".."f12" name the function keys. Anything else names no key.
pub open spec fn spec_vkey_from_name(s: Seq<u8>) -> Option<VKey> {
    let l = spec_lower_seq(s);
    if l.len() == 1 {
        spec_single_vkey(l[0])
    } else if spec_word_vkey(l) is Some {
        spec_word_vkey(l)
    } else {
        spec_fkey(l)
    }
}

fn word_vkey(l: &[u8]) -> (r: Option<VKey>)
    ensures
        r == spec_word_vkey(l@),
{
    let lit_return: [u8; 6] = [114, 101, 116, 117, 114, 110];
    proof {
        assert(lit_return@ =~= seq![114u8, 101u8, 116u8, 117u8, 114u8, 110u8]);
    }
    if bytes_eq(l, lit_return.as_slice()) {
        return Some(VKey::Return);
    }
    let lit_enter: [u8; 5] = [101, 110, 116, 101, 114];
    proof {
        assert(lit_enter@ =~= seq![101u8, 110u8, 116u8, 101u8, 114u8]);
    }
    if bytes_eq(l, lit_enter.as_slice()) {
        return Some(VKey::Return);
    }
    let lit_escape: [u8; 6] = [101, 115, 99, 97, 112, 101];
    proof {
        assert(lit_escape@ =~= seq![101u8, 115u8, 99u8, 97u8, 112u8, 101u8]);
    }
    if bytes_eq(l, lit_escape.as_slice()) {
        return Some(VKey::Escape);
    }
    let lit_esc: [u8; 3] = [101, 115, 99];
    proof {
        assert(lit_esc@ =~= seq![101u8, 115u8, 99u8]);
    }
    if bytes_eq(l, lit_esc.as_slice()) {
        return Some(VKey::Escape);
    }
    let lit_tab: [u8; 3] = [116, 97, 98];
    proof {
        assert(lit_tab@ =~= seq![116u8, 97u8, 98u8]);
    }
    if bytes_eq(l, lit_tab.as_slice()) {
        return Some(VKey::Tab);
    }
    let lit_up: [u8; 2] = [117, 112];
    proof {
        assert(lit_up@ =~= seq![117u8, 112u8]);
    }
    if bytes_eq(l, lit_up.as_slice()) {
        return Some(VKey::Up);
    }
    let lit_down: [u8; 4] = [100, 111, 119, 110];
    proof {
        assert(lit_down@ =~= seq![100u8, 111u8, 119u8, 110u8]);
    }
    if bytes_eq(l, lit_down.as_slice()) {
        return Some(VKey::Down);
    }
    let lit_left: [u8; 4] = [108, 101, 102, 116];
    proof {
        assert(lit_left@ =~= seq![108u8, 101u8, 102u8, 116u8]);
    }
    if bytes_eq(l, lit_left.as_slice()) {
        return Some(VKey::Left);
    }
    let lit_right: [u8; 5] = [114, 105, 103, 104, 116];
    proof {
        assert(lit_right@ =~= seq![114u8, 105u8, 103u8, 104u8, 116u8]);
    }
    if bytes_eq(l, lit_right.as_slice()) {
        return Some(VKey::Right);
    }
    let lit_alt: [u8; 3] = [97, 108, 116];
    proof {
        assert(lit_alt@ =~= seq![97u8, 108u8, 116u8]);
    }
    if bytes_eq(l, lit_alt.as_slice()) {
        return Some(VKey::Alt);
    }
    let lit_shift: [u8; 5] = [115, 104, 105, 102, 116];
    proof {
        assert(lit_shift@ =~= seq![115u8, 104u8, 105u8, 102u8, 116u8]);
    }
    if bytes_eq(l, lit_shift.as_slice()) {
        return Some(VKey::Shift);
    }
    let lit_ctrl: [u8; 4] = [99, 116, 114, 108];
    proof {
        assert(lit_ctrl@ =~= seq![99u8, 116u8, 114u8, 108u8]);
    }
    if bytes_eq(l, lit_ctrl.as_slice()) {
        return Some(VKey::Control);
    }
    let lit_control: [u8; 7] = [99, 111, 110, 116, 114, 111, 108];
    proof {
        assert(lit_control@ =~= seq![99u8, 111u8, 110u8, 116u8, 114u8, 111u8, 108u8]);
    }
    if bytes_eq(l, lit_control.as_slice()) {
        return Some(VKey::Control);
    }
    let lit_win: [u8; 3] = [119, 105, 110];
    proof {
        assert(lit_win@ =~= seq![119u8, 105u8, 110u8]);
    }
    if bytes_eq(l, lit_win.as_slice()) {
        return Some(VKey::Win);
    }
    let lit_windows: [u8; 7] = [119, 105, 110, 100, 111, 119, 115];
    proof {
        assert(lit_windows@ =~= seq![119u8, 105u8, 110u8, 100u8, 111u8, 119u8, 115u8]);
    }
    if bytes_eq(l, lit_windows.as_slice()) {
        return Some(VKey::Win);
    }
    let lit_super: [u8; 5] = [115, 117, 112, 101, 114];
    proof {
        assert(lit_super@ =~= seq![115u8, 117u8, 112u8, 101u8, 114u8]);
    }
    if bytes_eq(l, lit_super.as_slice()) {
        return Some(VKey::Win);
    }
    let lit_meta: [u8; 4] = [109, 101, 116, 97];
    proof {
        assert(lit_meta@ =~= seq![109u8, 101u8, 116u8, 97u8]);
    }
    if bytes_eq(l, lit_meta.as_slice()) {
        return Some(VKey::Win);
    }
    let lit_semicolon: [u8; 9] = [115, 101, 109, 105, 99, 111, 108, 111, 110];
    proof {
        assert(lit_semicolon@ =~= seq![115u8, 101u8, 109u8, 105u8, 99u8, 111u8, 108u8, 111u8, 110u8]);
    }
    if bytes_eq(l, lit_semicolon.as_slice()) {
        return Some(VKey::Semicolon);
    }
    let lit_leftbracket: [u8; 11] = [108, 101, 102, 116, 98, 114, 97, 99, 107, 101, 116];
    proof {
        assert(lit_leftbracket@ =~= seq![108u8, 101u8, 102u8, 116u8, 98u8, 114u8, 97u8, 99u8, 107u8, 101u8, 116u8]);
    }
    if bytes_eq(l, lit_leftbracket.as_slice()) {
        return Some(VKey::LeftBracket);
    }
    let lit_rightbracket: [u8; 12] = [114, 105, 103, 104, 116, 98, 114, 97, 99, 107, 101, 116];
    proof {
        assert(lit_rightbracket@ =~= seq![114u8, 105u8, 103u8, 104u8, 116u8, 98u8, 114u8, 97u8, 99u8, 107u8, 101u8, 116u8]);
    }
    if bytes_eq(l, lit_rightbracket.as_slice()) {
        return Some(VKey::RightBracket);
    }
    let lit_backslash: [u8; 9] = [98, 97, 99, 107, 115, 108, 97, 115, 104];
    proof {
        assert(lit_backslash@ =~= seq![98u8, 97u8, 99u8, 107u8, 115u8, 108u8, 97u8, 115u8, 104u8]);
    }
    if bytes_eq(l, lit_backslash.as_slice()) {
        return Some(VKey::Backslash);
    }
    let lit_quote: [u8; 5] = [113, 117, 111, 116, 101];
    proof {
        assert(lit_quote@ =~= seq![113u8, 117u8, 111u8, 116u8, 101u8]);
    }
    if bytes_eq(l, lit_quote.as_slice()) {
        return Some(VKey::Quote);
    }
    let lit_slash: [u8; 5] = [115, 108, 97, 115, 104];
    proof {
        assert(lit_slash@ =~= seq![115u8, 108u8, 97u8, 115u8, 104u8]);
    }
    if bytes_eq(l, lit_slash.as_slice()) {
        return Some(VKey::Slash);
    }
    let lit_minus: [u8; 5] = [109, 105, 110, 117, 115];
    proof {
        assert(lit_minus@ =~= seq![109u8, 105u8, 110u8, 117u8, 115u8]);
    }
    if bytes_eq(l, lit_minus.as_slice()) {
        return Some(VKey::Minus);
    }
    let lit_equals: [u8; 6] = [101, 113, 117, 97, 108, 115];
    proof {
        assert(lit_equals@ =~= seq![101u8, 113u8, 117u8, 97u8, 108u8, 115u8]);
    }
    if bytes_eq(l, lit_equals.as_slice()) {
        return Some(VKey::Equals);
    }
    let lit_comma: [u8; 5] = [99, 111, 109, 109, 97];
    proof {
        assert(lit_comma@ =~= seq![99u8, 111u8, 109u8, 109u8, 97u8]);
    }
    if bytes_eq(l, lit_comma.as_slice()) {
        return Some(VKey::Comma);
    }
    let lit_period: [u8; 6] = [112, 101, 114, 105, 111, 100];
    proof {
        assert(lit_period@ =~= seq![112u8, 101u8, 114u8, 105u8, 111u8, 100u8]);
    }
    if bytes_eq(l, lit_period.as_slice()) {
        return Some(VKey::Period);
    }
    let lit_backtick: [u8; 8] = [98, 97, 99, 107, 116, 105, 99, 107];
    proof {
        assert(lit_backtick@ =~= seq![98u8, 97u8, 99u8, 107u8, 116u8, 105u8, 99u8, 107u8]);
    }
    if bytes_eq(l, lit_backtick.as_slice()) {
        return Some(VKey::Backtick);
    }
    let lit_space: [u8; 5] = [115, 112, 97, 99, 101];
    proof {
        assert(lit_space@ =~= seq![115u8, 112u8, 97u8, 99u8, 101u8]);
    }
    if bytes_eq(l, lit_space.as_slice()) {
        return Some(VKey::Space);
    }
    None
}

/// `from_name` on raw bytes; used by the combo parser on slices.
pub fn vkey_from_name_bytes(s: &[u8]) -> (r: Option<VKey>)
    ensures
        r == spec_vkey_from_name(s@),
{
    let low = lower_vec(s);
    if low.len() == 1 {
        single_vkey(low.as_slice()[0])
    } else {
        let w = word_vkey(low.as_slice());
        if w.is_some() {
            w
        } else {
            fkey(low.as_slice())
        }
    }
}

impl VKey {
    /// Parse a key name string into a key, case-insensitively.
    pub fn from_name(s: &str) -> (r: Option<VKey>)
        ensures
            r == spec_vkey_from_name(s.spec_bytes()),
    {
        vkey_from_name_bytes(s.as_bytes())
    }
}

/// The combo a `+`-separated byte string denotes: each part is trimmed and
/// must name a key; one unknown part makes the whole combo unknown.
pub open spec fn spec_parse_key_combo(s: Seq<u8>) -> Option<Seq<VKey>>
    decreases s.len(),
    via spec_parse_key_combo_dec
{
    match spec_find(s, 43) {
        None => match spec_vkey_from_name(spec_trim(s)) {
            Some(k) => Some(seq![k]),
            None => None,
        },
        Some(i) => match spec_vkey_from_name(spec_trim(s.take(i))) {
            None => None,
            Some(k) => match spec_parse_key_combo(s.skip(i + 1)) {
                None => None,
                Some(rest) => Some(seq![k] + rest),
            },
        },
    }
}

#[via_fn]
proof fn spec_parse_key_combo_dec(s: Seq<u8>) {
    crate::bytes::lemma_find_char(s, 43);
}

/// The combo parser on raw bytes.
pub fn parse_key_combo_bytes(s: &[u8]) -> (r: Option<Vec<VKey>>)
    ensures
        r is Some <==> spec_parse_key_combo(s@) is Some,
        r matches Some(v) ==> spec_parse_key_combo(s@) == Some(v@),
    decreases s.len(),
{
    proof {
        crate::bytes::lemma_find_char(s@, 43);
    }
    match find_byte(s, 43) {
        None => {
            let t = trim(s);
            match vkey_from_name_bytes(t.as_slice()) {
                Some(k) => {
                    let mut v: Vec<VKey> = Vec::new();
                    v.push(k);
                    proof {
                        assert(v@ =~= seq![k]);
                    }
                    Some(v)
                },
                None => None,
            }
        },
        Some(i) => {
            let head = trim(&s[0..i]);
            match vkey_from_name_bytes(head.as_slice()) {
                None => None,
                Some(k) => {
                    let rest = parse_key_combo_bytes(&s[i + 1..s.len()]);
                    match rest {
                        None => None,
                        Some(mut tail) => {
                            let ghost tail0 = tail@;
                            let mut v: Vec<VKey> = Vec::new();
                            v.push(k);
                            v.append(&mut tail);
                            proof {
                                assert(v@ =~= seq![k] + tail0);
                            }
                            Some(v)
                        },
                    }
                },
            }
        },
    }
}

/// Parse a key combo string like "Ctrl+B" or "p" into its key list.
pub fn parse_key_combo(s: &str) -> (r: Option<Vec<VKey>>)
    ensures
        r is Some <==> spec_parse_key_combo(s.spec_bytes()) is Some,
        r matches Some(v) ==> spec_parse_key_combo(s.spec_bytes()) == Some(v@),
{
    parse_key_combo_bytes(s.as_bytes())
}

/// One resolved binding: a command name and the key combo bound to it.
pub struct BindingEntry {
    pub name: Vec<u8>,
    pub keys: Vec<VKey>,
}

/// Spec view of a binding entry.
pub struct BindingEntryV {
    pub name: Seq<u8>,
    pub keys: Seq<VKey>,
}

impl View for BindingEntry {
    type V = BindingEntryV;

    open spec fn view(&self) -> BindingEntryV {
        BindingEntryV { name: self.name@, keys: self.keys@ }
    }
}

/// The views of a binding table.
pub open spec fn spec_bindings_view(v: Seq<BindingEntry>) -> Seq<BindingEntryV> {
    v.map_values(|e: BindingEntry| e@)
}

/// The first binding for a name, if any.
pub open spec fn spec_binding_lookup(entries: Seq<BindingEntryV>, name: Seq<u8>) -> Option<
    Seq<VKey>,
>
    decreases entries.len(),
{
    if entries.len() == 0 {
        None
    } else if entries[0].name == name {
        Some(entries[0].keys)
    } else {
        spec_binding_lookup(entries.skip(1), name)
    }
}

/// `spec_binding_lookup` characterized: the keys of the first entry whose
/// name matches, or None when no entry matches.
pub proof fn lemma_binding_lookup_char(entries: Seq<BindingEntryV>, name: Seq<u8>)
    ensures
        match spec_binding_lookup(entries, name) {
            Some(keys) => exists|i: int|
                0 <= i < entries.len() && entries[i].name == name && entries[i].keys == keys,
            None => forall|i: int| 0 <= i < entries.len() ==> entries[i].name != name,
        },
    decreases entries.len(),
{
    if entries.len() > 0 && entries[0].name != name {
        lemma_binding_lookup_char(entries.skip(1), name);
        match spec_binding_lookup(entries.skip(1), name) {
            Some(keys) => {
                let i = choose|i: int|
                    0 <= i < entries.skip(1).len() && entries.skip(1)[i].name == name
                        && entries.skip(1)[i].keys == keys;
                assert(entries[i + 1].name == name && entries[i + 1].keys == keys);
            },
            None => {
                assert(forall|i: int|
                    1 <= i < entries.len() ==> entries[i] == entries.skip(1)[i - 1]);
            },
        }
    }
}

/// Copy a key combo.
pub fn clone_keys(v: &Vec<VKey>) -> (r: Vec<VKey>)
    ensures
        r@ == v@,
{
    let mut out: Vec<VKey> = Vec::new();
    let mut i: usize = 0;
    while i < v.len()
        invariant
            i <= v.len(),
            out@ =~= v@.take(i as int),
        decreases v.len() - i,
    {
        out.push(v[i]);
        proof {
            assert(out@ =~= v@.take(i + 1));
        }
        i += 1;
    }
    proof {
        assert(out@ =~= v@);
    }
    out
}

/// Look up the first binding for a name in a table.
pub fn binding_lookup(entries: &Vec<BindingEntry>, name: &[u8]) -> (r: Option<Vec<VKey>>)
    ensures
        match r {
            Some(keys) => spec_binding_lookup(spec_bindings_view(entries@), name@) == Some(keys@),
            None => spec_binding_lookup(spec_bindings_view(entries@), name@) is None,
        },
{
    let ghost ev = spec_bindings_view(entries@);
    proof {
        assert(ev.skip(0) =~= ev);
    }
    let mut i: usize = 0;
    while i < entries.len()
        invariant
            ev == spec_bindings_view(entries@),
            i <= entries.len(),
            spec_binding_lookup(ev, name@) == spec_binding_lookup(
                ev.skip(i as int),
                name@,
            ),
        decreases entries.len() - i,
    {
        proof {
            assert(ev.skip(i as int)[0] == ev[i as int]);
            assert(ev[i as int] == entries@[i as int]@);
            assert(ev.skip(i as int).skip(1) =~= ev.skip(i + 1));
        }
        if bytes_eq(entries[i].name.as_slice(), name) {
            return Some(clone_keys(&entries[i].keys));
        }
        i += 1;
    }
    proof {
        assert(ev.skip(entries@.len() as int) =~= Seq::<BindingEntryV>::empty());
    }
    None
}

/// Insert a binding unless the command already has one (first wins), under
/// both the full command ("resize-pane -Z") and, when different, its base
/// word ("resize-pane"). Empty commands are dropped.
pub fn insert_binding(actions: &mut Vec<BindingEntry>, command: Vec<u8>, vkeys: Vec<VKey>)
    ensures
        ({
            let ev0 = spec_bindings_view(old(actions)@);
            let ev = spec_bindings_view(final(actions)@);
            if command@.len() == 0 {
                ev == ev0
            } else {
                &&& spec_binding_lookup(ev, command@) is Some
                &&& spec_binding_lookup(ev0, command@) is None ==> spec_binding_lookup(
                    ev,
                    command@,
                ) == Some(vkeys@)
                &&& forall|n: Seq<u8>|
                    spec_binding_lookup(ev0, n) is Some ==> spec_binding_lookup(ev, n)
                        == spec_binding_lookup(ev0, n)
            }
        }),
{
    if command.len() == 0 {
        return;
    }
    // base word: up to the first space
    let mut base_len: usize = 0;
    while base_len < command.len() && !crate::bytes::is_ws(command[base_len])
        invariant
            base_len <= command.len(),
        decreases command.len() - base_len,
    {
        base_len += 1;
    }
    let base: Vec<u8> = clone_slice(&command.as_slice()[0..base_len]);
    let base_differs = !bytes_eq(base.as_slice(), command.as_slice());
    let keys_for_base = clone_keys(&vkeys);
    let ghost cmd = command@;
    if binding_lookup(actions, command.as_slice()).is_none() {
        push_preserves_lookup(actions, BindingEntry { name: command, keys: vkeys });
    } else {
        proof {
            assert(spec_binding_lookup(spec_bindings_view(actions@), cmd) is Some);
        }
    }
    if base_differs {
        if binding_lookup(actions, base.as_slice()).is_none() {
            push_preserves_lookup(actions, BindingEntry { name: base, keys: keys_for_base });
        }
    }
}


pub fn clone_slice(s: &[u8]) -> (r: Vec<u8>)
    ensures
        r@ == s@,
{
    let mut out: Vec<u8> = Vec::new();
    let mut i: usize = 0;
    while i < s.len()
        invariant
            i <= s.len(),
            out@ =~= s@.take(i as int),
        decreases s.len() - i,
    {
        out.push(s[i]);
        proof {
            assert(out@ =~= s@.take(i + 1));
        }
        i += 1;
    }
    proof {
        assert(out@ =~= s@);
    }
    out
}

/// Push an entry, extending the table: lookups that hit before still hit
/// the same keys, the new entry's name now resolves, and a name that was
/// free now resolves to the pushed keys.
fn push_preserves_lookup(actions: &mut Vec<BindingEntry>, e: BindingEntry)
    ensures
        spec_bindings_view(final(actions)@) == spec_bindings_view(old(actions)@).push(e@),
        forall|n: Seq<u8>|
            spec_binding_lookup(spec_bindings_view(old(actions)@), n) is Some
                ==> spec_binding_lookup(spec_bindings_view(final(actions)@), n)
                == spec_binding_lookup(spec_bindings_view(old(actions)@), n),
        spec_binding_lookup(spec_bindings_view(final(actions)@), e@.name) is Some,
        spec_binding_lookup(spec_bindings_view(old(actions)@), e@.name) is None
            ==> spec_binding_lookup(spec_bindings_view(final(actions)@), e@.name) == Some(e@.keys),
{
    let ghost ev0 = spec_bindings_view(actions@);
    let ghost enew = e@;
    actions.push(e);
    proof {
        assert(spec_bindings_view(actions@) =~= ev0.push(enew));
        lemma_lookup_push(ev0, enew);
    }
}

proof fn lemma_lookup_push(entries: Seq<BindingEntryV>, e: BindingEntryV)
    ensures
        forall|n: Seq<u8>|
            spec_binding_lookup(entries, n) is Some ==> spec_binding_lookup(
                entries.push(e),
                n,
            ) == spec_binding_lookup(entries, n),
        spec_binding_lookup(entries.push(e), e.name) is Some,
        spec_binding_lookup(entries, e.name) is None ==> spec_binding_lookup(entries.push(e), e.name)
            == Some(e.keys),
    decreases entries.len(),
{
    let p = entries.push(e);
    if entries.len() == 0 {
        assert(p[0] == e);
    } else {
        assert(p[0] == entries[0]);
        assert(p.skip(1) =~= entries.skip(1).push(e));
        lemma_lookup_push(entries.skip(1), e);
        if entries[0].name != e.name {
            assert(spec_binding_lookup(p, e.name) == spec_binding_lookup(p.skip(1), e.name));
        }
    }
    assert forall|n: Seq<u8>| spec_binding_lookup(entries, n) is Some implies spec_binding_lookup(
        p,
        n,
    ) == spec_binding_lookup(entries, n) by {
        if entries.len() > 0 {
            if entries[0].name == n {
                assert(spec_binding_lookup(p, n) == Some(p[0].keys));
            } else {
                assert(spec_binding_lookup(entries, n) == spec_binding_lookup(
                    entries.skip(1),
                    n,
                ));
                assert(spec_binding_lookup(p, n) == spec_binding_lookup(p.skip(1), n));
            }
        }
    }
}


} // verus!
