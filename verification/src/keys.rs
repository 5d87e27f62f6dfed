//! Keyboard events and the input handling shared by dialogs: the bytes a key
//! sends to the terminal, text-field editing, and y/n confirmations.

use vstd::prelude::*;
use vstd::utf8::encode_scalar;
use crate::state::InputMode;
use crate::text_input::{
    TextInput,
    TextInputView,
    backspace_spec,
    delete_spec,
    insert_spec,
    move_left_spec,
    move_right_spec,
    move_word_left_spec,
    move_word_right_spec,
};

verus! {

/// A key.
#[derive(Debug, Clone, Copy, PartialEq, Eq, Structural)]
pub enum KeyCode {
    Backspace,
    Enter,
    Left,
    Right,
    Up,
    Down,
    Home,
    End,
    PageUp,
    PageDown,
    Tab,
    BackTab,
    Delete,
    Insert,
    /// Function key `F(n)`
    F(u8),
    Char(char),
    Null,
    Esc,
    CapsLock,
    ScrollLock,
    NumLock,
    PrintScreen,
    Pause,
    Menu,
    KeypadBegin,
    /// A media key
    Media,
    /// A modifier key pressed on its own
    Modifier,
}

/// The modifier keys held with a key.
#[derive(Debug, Clone, Copy, PartialEq, Eq, Structural)]
pub struct KeyModifiers {
    pub shift: bool,
    pub control: bool,
    pub alt: bool,
    pub super_key: bool,
    pub hyper: bool,
    pub meta: bool,
}

impl KeyModifiers {
    /// No modifier.
    pub fn empty() -> (r: Self)
        ensures
            !r.shift && !r.control && !r.alt && !r.super_key && !r.hyper && !r.meta,
    {
        KeyModifiers {
            shift: false,
            control: false,
            alt: false,
            super_key: false,
            hyper: false,
            meta: false,
        }
    }

    /// Shift alone.
    pub fn shift() -> (r: Self)
        ensures
            r.shift && !r.control && !r.alt && !r.super_key && !r.hyper && !r.meta,
    {
        KeyModifiers {
            shift: true,
            control: false,
            alt: false,
            super_key: false,
            hyper: false,
            meta: false,
        }
    }

    /// Control alone.
    pub fn control() -> (r: Self)
        ensures
            !r.shift && r.control && !r.alt && !r.super_key && !r.hyper && !r.meta,
    {
        KeyModifiers {
            shift: false,
            control: true,
            alt: false,
            super_key: false,
            hyper: false,
            meta: false,
        }
    }
}

/// A key press.
#[derive(Debug, Clone, Copy, PartialEq, Eq, Structural)]
pub struct KeyEvent {
    pub code: KeyCode,
    pub modifiers: KeyModifiers,
}

impl KeyEvent {
    /// A key press with the given modifiers.
    pub fn new(code: KeyCode, modifiers: KeyModifiers) -> (r: Self)
        ensures
            r.code == code,
            r.modifiers == modifiers,
    {
        KeyEvent { code, modifiers }
    }
}

/// ASCII upper-case letters to lower case; every other character unchanged.
pub open spec fn ascii_lower(c: char) -> char {
    if 'A' <= c <= 'Z' {
        ((c as u32) + 32) as char
    } else {
        c
    }
}

/// The control byte of Ctrl+`c`: the low byte of the (ASCII-lower-cased)
/// character minus 96, wrapping (Ctrl+A is 1, Ctrl+B is 2, ...).
pub open spec fn ctrl_byte(c: char) -> u8 {
    (((ascii_lower(c) as u32) % 256) as u8).wrapping_sub(96)
}

/// The escape sequence `ESC [ <tail>`.
pub open spec fn csi(tail: Seq<u8>) -> Seq<u8> {
    seq![0x1bu8, 0x5bu8] + tail
}

/// The bytes a function key sends (F1 to F12; nothing for others).
pub open spec fn function_key_bytes(n: u8) -> Seq<u8> {
    if n == 1 {
        seq![0x1bu8, 0x4fu8, 0x50u8]
    } else if n == 2 {
        seq![0x1bu8, 0x4fu8, 0x51u8]
    } else if n == 3 {
        seq![0x1bu8, 0x4fu8, 0x52u8]
    } else if n == 4 {
        seq![0x1bu8, 0x4fu8, 0x53u8]
    } else if n == 5 {
        csi(seq![0x31u8, 0x35u8, 0x7eu8])
    } else if n == 6 {
        csi(seq![0x31u8, 0x37u8, 0x7eu8])
    } else if n == 7 {
        csi(seq![0x31u8, 0x38u8, 0x7eu8])
    } else if n == 8 {
        csi(seq![0x31u8, 0x39u8, 0x7eu8])
    } else if n == 9 {
        csi(seq![0x32u8, 0x30u8, 0x7eu8])
    } else if n == 10 {
        csi(seq![0x32u8, 0x31u8, 0x7eu8])
    } else if n == 11 {
        csi(seq![0x32u8, 0x33u8, 0x7eu8])
    } else if n == 12 {
        csi(seq![0x32u8, 0x34u8, 0x7eu8])
    } else {
        seq![]
    }
}

/// The bytes a key press sends to the terminal: Ctrl+letter is a control byte,
/// Shift+Enter a newline, characters their UTF-8 encoding, and the special keys
/// their usual escape sequences.
pub open spec fn key_bytes_spec(key: KeyEvent) -> Seq<u8> {
    if key.modifiers.control && key.code is Char {
        seq![ctrl_byte(key.code->Char_0)]
    } else if key.code == KeyCode::Enter && key.modifiers.shift {
        seq![0x0au8]
    } else {
        match key.code {
            KeyCode::Char(c) => encode_scalar(c as u32),
            KeyCode::Enter => seq![0x0du8],
            KeyCode::Tab => seq![0x09u8],
            KeyCode::BackTab => csi(seq![0x5au8]),
            KeyCode::Backspace => seq![0x7fu8],
            KeyCode::Esc => seq![0x1bu8],
            KeyCode::Up => csi(seq![0x41u8]),
            KeyCode::Down => csi(seq![0x42u8]),
            KeyCode::Right => csi(seq![0x43u8]),
            KeyCode::Left => csi(seq![0x44u8]),
            KeyCode::Home => csi(seq![0x48u8]),
            KeyCode::End => csi(seq![0x46u8]),
            KeyCode::PageUp => csi(seq![0x35u8, 0x7eu8]),
            KeyCode::PageDown => csi(seq![0x36u8, 0x7eu8]),
            KeyCode::Delete => csi(seq![0x33u8, 0x7eu8]),
            KeyCode::Insert => csi(seq![0x32u8, 0x7eu8]),
            KeyCode::F(n) => function_key_bytes(n),
            _ => seq![],
        }
    }
}

/// ASCII upper-case letters to lower case (`char::to_ascii_lowercase`).
fn to_ascii_lowercase(c: char) -> (r: char)
    ensures
        r == ascii_lower(c),
{
    if 'A' <= c && c <= 'Z' {
        ((c as u8) + 32) as char
    } else {
        c
    }
}

/// The UTF-8 encoding of a character.
fn utf8_bytes(c: char) -> (r: Vec<u8>)
    ensures
        r@ == encode_scalar(c as u32),
{
    let v = c as u32;
    if v <= 0x7F {
        vec![(v & 0x7F) as u8]
    } else if v <= 0x7FF {
        vec![0xC0 | ((v >> 6) & 0x1F) as u8, 0x80 | (v & 0x3F) as u8]
    } else if v <= 0xFFFF {
        vec![0xE0 | ((v >> 12) & 0x0F) as u8, 0x80 | ((v >> 6) & 0x3F) as u8, 0x80 | (v & 0x3F) as u8]
    } else {
        vec![
            0xF0 | ((v >> 18) & 0x7) as u8,
            0x80 | ((v >> 12) & 0x3F) as u8,
            0x80 | ((v >> 6) & 0x3F) as u8,
            0x80 | (v & 0x3F) as u8,
        ]
    }
}

/// The bytes of `ESC [ <tail>`.
fn csi_bytes(tail: &[u8]) -> (r: Vec<u8>)
    ensures
        r@ == csi(tail@),
{
    let mut r: Vec<u8> = vec![0x1b, 0x5b];
    let mut i: usize = 0;
    while i < tail.len()
        invariant
            i <= tail@.len(),
            r@ == csi(tail@.take(i as int)),
        decreases tail.len() - i,
    {
        r.push(tail[i]);
        i = i + 1;
        assert(r@ =~= csi(tail@.take(i as int)));
    }
    assert(tail@.take(tail@.len() as int) =~= tail@);
    r
}

fn function_key_to_bytes(n: u8) -> (r: Vec<u8>)
    ensures
        r@ == function_key_bytes(n),
{
    let r = match n {
        1 => vec![0x1b, 0x4f, 0x50],
        2 => vec![0x1b, 0x4f, 0x51],
        3 => vec![0x1b, 0x4f, 0x52],
        4 => vec![0x1b, 0x4f, 0x53],
        5 => csi_bytes(&[0x31, 0x35, 0x7e]),
        6 => csi_bytes(&[0x31, 0x37, 0x7e]),
        7 => csi_bytes(&[0x31, 0x38, 0x7e]),
        8 => csi_bytes(&[0x31, 0x39, 0x7e]),
        9 => csi_bytes(&[0x32, 0x30, 0x7e]),
        10 => csi_bytes(&[0x32, 0x31, 0x7e]),
        11 => csi_bytes(&[0x32, 0x33, 0x7e]),
        12 => csi_bytes(&[0x32, 0x34, 0x7e]),
        _ => vec![],
    };
    assert(r@ =~= function_key_bytes(n));
    r
}

/// Convert a key press to the bytes to send to the terminal.
pub fn key_to_bytes(key: &KeyEvent) -> (r: Vec<u8>)
    ensures
        r@ == key_bytes_spec(*key),
{
    if key.modifiers.control {
        if let KeyCode::Char(c) = key.code {
            // Ctrl+A = 0x01, Ctrl+B = 0x02, etc.
            let lower = to_ascii_lowercase(c);
            let byte = ((lower as u32) % 256) as u8;
            return vec![byte.wrapping_sub(96)];
        }
    }
    // Shift+Enter sends a newline (for multi-line input).
    if key.code == KeyCode::Enter && key.modifiers.shift {
        return vec![0x0a];
    }
    let r = match key.code {
        KeyCode::Char(c) => utf8_bytes(c),
        KeyCode::Enter => vec![0x0d],
        KeyCode::Tab => vec![0x09],
        KeyCode::BackTab => csi_bytes(&[0x5a]),
        KeyCode::Backspace => vec![0x7f],
        KeyCode::Esc => vec![0x1b],
        KeyCode::Up => csi_bytes(&[0x41]),
        KeyCode::Down => csi_bytes(&[0x42]),
        KeyCode::Right => csi_bytes(&[0x43]),
        KeyCode::Left => csi_bytes(&[0x44]),
        KeyCode::Home => csi_bytes(&[0x48]),
        KeyCode::End => csi_bytes(&[0x46]),
        KeyCode::PageUp => csi_bytes(&[0x35, 0x7e]),
        KeyCode::PageDown => csi_bytes(&[0x36, 0x7e]),
        KeyCode::Delete => csi_bytes(&[0x33, 0x7e]),
        KeyCode::Insert => csi_bytes(&[0x32, 0x7e]),
        KeyCode::F(n) => function_key_to_bytes(n),
        _ => vec![],
    };
    assert(r@ =~= key_bytes_spec(*key));
    r
}

/// Result of text input handling.
#[derive(Debug, Clone, Copy, PartialEq, Eq, Structural)]
pub enum TextInputResult {
    /// Esc: cancel the input
    Cancel,
    /// Enter: submit the buffer content
    Submit,
    /// The key edited the buffer or moved the cursor
    Handled,
    /// The key is not a text-editing key
    Unhandled,
}

/// What a key does to a text field: the result and the field afterwards.
pub open spec fn text_input_spec(key: KeyEvent, v: TextInputView) -> (
    TextInputResult,
    TextInputView,
) {
    if key.code == KeyCode::Enter && key.modifiers.shift {
        (TextInputResult::Handled, insert_spec(v, '\n'))
    } else if key.modifiers.control && key.code == KeyCode::Left {
        (TextInputResult::Handled, move_word_left_spec(v))
    } else if key.modifiers.control && key.code == KeyCode::Right {
        (TextInputResult::Handled, move_word_right_spec(v))
    } else {
        match key.code {
            KeyCode::Esc => (TextInputResult::Cancel, v),
            KeyCode::Enter => (TextInputResult::Submit, v),
            KeyCode::Backspace => (TextInputResult::Handled, backspace_spec(v)),
            KeyCode::Delete => (TextInputResult::Handled, delete_spec(v)),
            KeyCode::Left => (TextInputResult::Handled, move_left_spec(v)),
            KeyCode::Right => (TextInputResult::Handled, move_right_spec(v)),
            KeyCode::Home => (TextInputResult::Handled, TextInputView { text: v.text, cursor: 0 }),
            KeyCode::End => (
                TextInputResult::Handled,
                TextInputView { text: v.text, cursor: v.text.len() },
            ),
            KeyCode::Char(c) => (TextInputResult::Handled, insert_spec(v, c)),
            _ => (TextInputResult::Unhandled, v),
        }
    }
}

/// Apply a key to a text field: Esc cancels, Enter submits, Shift+Enter inserts
/// a newline, Backspace/Delete delete, the arrows, Home and End move the cursor
/// (by words with Ctrl), and a character is inserted at the cursor.
pub fn handle_text_input(key: &KeyEvent, input: &mut TextInput) -> (r: TextInputResult)
    requires
        old(input).wf(),
        old(input)@.text.len() < usize::MAX,
    ensures
        final(input).wf(),
        (r, final(input)@) == text_input_spec(*key, old(input)@),
{
    // Shift+Enter: insert a newline.
    if key.code == KeyCode::Enter && key.modifiers.shift {
        input.insert('\n');
        return TextInputResult::Handled;
    }
    // Ctrl+arrows: move by words.
    if key.modifiers.control {
        match key.code {
            KeyCode::Left => {
                input.move_word_left();
                return TextInputResult::Handled;
            },
            KeyCode::Right => {
                input.move_word_right();
                return TextInputResult::Handled;
            },
            _ => {},
        }
    }
    match key.code {
        KeyCode::Esc => TextInputResult::Cancel,
        KeyCode::Enter => TextInputResult::Submit,
        KeyCode::Backspace => {
            input.backspace();
            TextInputResult::Handled
        },
        KeyCode::Delete => {
            input.delete();
            TextInputResult::Handled
        },
        KeyCode::Left => {
            input.move_left();
            TextInputResult::Handled
        },
        KeyCode::Right => {
            input.move_right();
            TextInputResult::Handled
        },
        KeyCode::Home => {
            input.move_home();
            TextInputResult::Handled
        },
        KeyCode::End => {
            input.move_end();
            TextInputResult::Handled
        },
        KeyCode::Char(c) => {
            input.insert(c);
            TextInputResult::Handled
        },
        _ => TextInputResult::Unhandled,
    }
}

/// What a key does in a confirmation dialog.
#[derive(Debug, Clone, Copy, PartialEq, Eq, Structural)]
pub enum Confirmation {
    /// Carry out the confirmed action
    Confirm,
    /// Close the dialog without acting
    Cancel,
    /// Nothing happens
    Ignore,
}

/// y/Y confirm (and Enter, when `enter_confirms`); n/N/Esc cancel; other keys do nothing.
pub open spec fn confirmation_spec(key: KeyEvent, enter_confirms: bool) -> Confirmation {
    match key.code {
        KeyCode::Char(c) => if c == 'y' || c == 'Y' {
            Confirmation::Confirm
        } else if c == 'n' || c == 'N' {
            Confirmation::Cancel
        } else {
            Confirmation::Ignore
        },
        KeyCode::Enter => if enter_confirms {
            Confirmation::Confirm
        } else {
            Confirmation::Ignore
        },
        KeyCode::Esc => Confirmation::Cancel,
        _ => Confirmation::Ignore,
    }
}

/// A y/n confirmation dialog: y or Y confirms, n, N or Esc cancels.
pub fn handle_confirmation(key: &KeyEvent) -> (r: Confirmation)
    ensures
        r == confirmation_spec(*key, false),
{
    match key.code {
        KeyCode::Char('y') | KeyCode::Char('Y') => Confirmation::Confirm,
        KeyCode::Char('n') | KeyCode::Char('N') | KeyCode::Esc => Confirmation::Cancel,
        _ => Confirmation::Ignore,
    }
}

/// A confirmation dialog where Enter also confirms.
pub fn handle_confirmation_with_enter(key: &KeyEvent) -> (r: Confirmation)
    ensures
        r == confirmation_spec(*key, true),
{
    match key.code {
        KeyCode::Char('y') | KeyCode::Char('Y') | KeyCode::Enter => Confirmation::Confirm,
        KeyCode::Char('n') | KeyCode::Char('N') | KeyCode::Esc => Confirmation::Cancel,
        _ => Confirmation::Ignore,
    }
}

/// The input modes in which the user types text (where the prefix key must not act).
pub open spec fn is_text_input_mode_spec(mode: InputMode) -> bool {
    ||| mode is NewBranch
    ||| mode is AddWorktree
    ||| mode is RenameSession
    ||| mode is AddTodo
    ||| mode is EditTodo
    ||| mode is EditTodoDescription
}

/// Whether the key is the default prefix key, Ctrl+s (other modifiers may be
/// held as well).
pub fn is_prefix_key(key: &KeyEvent) -> (r: bool)
    ensures
        r == (key.modifiers.control && key.code == KeyCode::Char('s')),
{
    key.modifiers.control && match key.code {
        KeyCode::Char(c) => c == 's',
        _ => false,
    }
}

/// Whether the input mode is one where text is being typed.
pub fn is_text_input_mode(mode: &InputMode) -> (r: bool)
    ensures
        r == is_text_input_mode_spec(*mode),
{
    match mode {
        InputMode::NewBranch
        | InputMode::AddWorktree { .. }
        | InputMode::RenameSession { .. }
        | InputMode::AddTodo { .. }
        | InputMode::EditTodo { .. }
        | InputMode::EditTodoDescription { .. } => true,
        _ => false,
    }
}

/// The arrow keys send the ANSI cursor sequences, whatever modifiers are
/// held: Up ESC [ A, Down ESC [ B, Right ESC [ C, Left ESC [ D; so no two
/// arrows send the same bytes.
pub proof fn law_arrow_key_bytes(m: KeyModifiers)
    ensures
        key_bytes_spec(KeyEvent { code: KeyCode::Up, modifiers: m }) == seq![0x1bu8, 0x5bu8, 0x41u8],
        key_bytes_spec(KeyEvent { code: KeyCode::Down, modifiers: m }) == seq![0x1bu8, 0x5bu8, 0x42u8],
        key_bytes_spec(KeyEvent { code: KeyCode::Right, modifiers: m }) == seq![0x1bu8, 0x5bu8, 0x43u8],
        key_bytes_spec(KeyEvent { code: KeyCode::Left, modifiers: m }) == seq![0x1bu8, 0x5bu8, 0x44u8],
        forall|a: KeyCode, b: KeyCode|
            (a == KeyCode::Up || a == KeyCode::Down || a == KeyCode::Right || a == KeyCode::Left) && (b
                == KeyCode::Up || b == KeyCode::Down || b == KeyCode::Right || b == KeyCode::Left)
                && a != b ==> #[trigger] key_bytes_spec(KeyEvent { code: a, modifiers: m })
                != #[trigger] key_bytes_spec(KeyEvent { code: b, modifiers: m }),
{
    assert(csi(seq![0x41u8]) =~= seq![0x1bu8, 0x5bu8, 0x41u8]);
    assert(csi(seq![0x42u8]) =~= seq![0x1bu8, 0x5bu8, 0x42u8]);
    assert(csi(seq![0x43u8]) =~= seq![0x1bu8, 0x5bu8, 0x43u8]);
    assert(csi(seq![0x44u8]) =~= seq![0x1bu8, 0x5bu8, 0x44u8]);
    assert forall|a: KeyCode, b: KeyCode|
        (a == KeyCode::Up || a == KeyCode::Down || a == KeyCode::Right || a == KeyCode::Left) && (b
            == KeyCode::Up || b == KeyCode::Down || b == KeyCode::Right || b == KeyCode::Left) && a
            != b implies #[trigger] key_bytes_spec(KeyEvent { code: a, modifiers: m })
        != #[trigger] key_bytes_spec(KeyEvent { code: b, modifiers: m }) by {
        let x = key_bytes_spec(KeyEvent { code: a, modifiers: m });
        let y = key_bytes_spec(KeyEvent { code: b, modifiers: m });
        assert(x[2] != y[2]);
    }
}

/// The editing keys send their usual sequences, whatever modifiers are held:
/// Home ESC [ H, End ESC [ F, Page Up ESC [ 5 ~, Page Down ESC [ 6 ~,
/// Delete ESC [ 3 ~, Insert ESC [ 2 ~, Shift+Tab ESC [ Z; Tab a tab,
/// Backspace DEL (0x7f) and Esc a lone ESC.
pub proof fn law_editing_key_bytes(m: KeyModifiers)
    ensures
        key_bytes_spec(KeyEvent { code: KeyCode::Home, modifiers: m }) == seq![0x1bu8, 0x5bu8, 0x48u8],
        key_bytes_spec(KeyEvent { code: KeyCode::End, modifiers: m }) == seq![0x1bu8, 0x5bu8, 0x46u8],
        key_bytes_spec(KeyEvent { code: KeyCode::PageUp, modifiers: m }) == seq![0x1bu8, 0x5bu8, 0x35u8, 0x7eu8],
        key_bytes_spec(KeyEvent { code: KeyCode::PageDown, modifiers: m }) == seq![0x1bu8, 0x5bu8, 0x36u8, 0x7eu8],
        key_bytes_spec(KeyEvent { code: KeyCode::Delete, modifiers: m }) == seq![0x1bu8, 0x5bu8, 0x33u8, 0x7eu8],
        key_bytes_spec(KeyEvent { code: KeyCode::Insert, modifiers: m }) == seq![0x1bu8, 0x5bu8, 0x32u8, 0x7eu8],
        key_bytes_spec(KeyEvent { code: KeyCode::BackTab, modifiers: m }) == seq![0x1bu8, 0x5bu8, 0x5au8],
        key_bytes_spec(KeyEvent { code: KeyCode::Tab, modifiers: m }) == seq![0x09u8],
        key_bytes_spec(KeyEvent { code: KeyCode::Backspace, modifiers: m }) == seq![0x7fu8],
        key_bytes_spec(KeyEvent { code: KeyCode::Esc, modifiers: m }) == seq![0x1bu8],
{
    assert(csi(seq![0x48u8]) =~= seq![0x1bu8, 0x5bu8, 0x48u8]);
    assert(csi(seq![0x46u8]) =~= seq![0x1bu8, 0x5bu8, 0x46u8]);
    assert(csi(seq![0x35u8, 0x7eu8]) =~= seq![0x1bu8, 0x5bu8, 0x35u8, 0x7eu8]);
    assert(csi(seq![0x36u8, 0x7eu8]) =~= seq![0x1bu8, 0x5bu8, 0x36u8, 0x7eu8]);
    assert(csi(seq![0x33u8, 0x7eu8]) =~= seq![0x1bu8, 0x5bu8, 0x33u8, 0x7eu8]);
    assert(csi(seq![0x32u8, 0x7eu8]) =~= seq![0x1bu8, 0x5bu8, 0x32u8, 0x7eu8]);
    assert(csi(seq![0x5au8]) =~= seq![0x1bu8, 0x5bu8, 0x5au8]);
}

/// Enter sends a carriage return, and Shift+Enter a line feed.
pub proof fn law_enter_bytes(m: KeyModifiers)
    ensures
        key_bytes_spec(KeyEvent { code: KeyCode::Enter, modifiers: m }) == if m.shift {
            seq![0x0au8]
        } else {
            seq![0x0du8]
        },
{
}

/// Ctrl with a letter sends that letter's control code, upper or lower case
/// alike: Ctrl+A (or Ctrl+a) is 1, Ctrl+B is 2, ..., Ctrl+Z is 26.
pub proof fn law_ctrl_letter_bytes(c: char, m: KeyModifiers)
    requires
        m.control,
        ('a' <= c && c <= 'z') || ('A' <= c && c <= 'Z'),
    ensures
        key_bytes_spec(KeyEvent { code: KeyCode::Char(c), modifiers: m }) == seq![
            (if c <= 'Z' { (c as u32) - 0x40 } else { (c as u32) - 0x60 }) as u8,
        ],
{
    let v = ascii_lower(c) as u32;
    assert(0x61 <= v <= 0x7a);
    assert(((v % 256) as u8) as int == v);
    assert(((v % 256) as u8).wrapping_sub(96) as int == v - 96);
}

/// Without Ctrl, an ASCII character is sent as its own byte.
pub proof fn law_ascii_char_bytes(c: char, m: KeyModifiers)
    requires
        !m.control,
        (c as u32) < 0x80,
    ensures
        key_bytes_spec(KeyEvent { code: KeyCode::Char(c), modifiers: m }) == seq![c as u8],
{
    let v = c as u32;
    assert((v & 0x7F) == v) by (bit_vector)
        requires
            v < 0x80,
    ;
}

/// The function keys send their usual sequences, whatever modifiers are held:
/// F1 to F4 ESC O P to ESC O S, F5 to F12 ESC [ 15 ~ to ESC [ 24 ~ (skipping
/// 16 and 22); other function keys send nothing.
pub proof fn law_function_key_bytes(m: KeyModifiers, n: u8)
    ensures
        key_bytes_spec(KeyEvent { code: KeyCode::F(1u8), modifiers: m }) == seq![0x1bu8, 0x4fu8, 0x50u8],
        key_bytes_spec(KeyEvent { code: KeyCode::F(2u8), modifiers: m }) == seq![0x1bu8, 0x4fu8, 0x51u8],
        key_bytes_spec(KeyEvent { code: KeyCode::F(3u8), modifiers: m }) == seq![0x1bu8, 0x4fu8, 0x52u8],
        key_bytes_spec(KeyEvent { code: KeyCode::F(4u8), modifiers: m }) == seq![0x1bu8, 0x4fu8, 0x53u8],
        key_bytes_spec(KeyEvent { code: KeyCode::F(5u8), modifiers: m }) == seq![0x1bu8, 0x5bu8, 0x31u8, 0x35u8, 0x7eu8],
        key_bytes_spec(KeyEvent { code: KeyCode::F(6u8), modifiers: m }) == seq![0x1bu8, 0x5bu8, 0x31u8, 0x37u8, 0x7eu8],
        key_bytes_spec(KeyEvent { code: KeyCode::F(7u8), modifiers: m }) == seq![0x1bu8, 0x5bu8, 0x31u8, 0x38u8, 0x7eu8],
        key_bytes_spec(KeyEvent { code: KeyCode::F(8u8), modifiers: m }) == seq![0x1bu8, 0x5bu8, 0x31u8, 0x39u8, 0x7eu8],
        key_bytes_spec(KeyEvent { code: KeyCode::F(9u8), modifiers: m }) == seq![0x1bu8, 0x5bu8, 0x32u8, 0x30u8, 0x7eu8],
        key_bytes_spec(KeyEvent { code: KeyCode::F(10u8), modifiers: m }) == seq![0x1bu8, 0x5bu8, 0x32u8, 0x31u8, 0x7eu8],
        key_bytes_spec(KeyEvent { code: KeyCode::F(11u8), modifiers: m }) == seq![0x1bu8, 0x5bu8, 0x32u8, 0x33u8, 0x7eu8],
        key_bytes_spec(KeyEvent { code: KeyCode::F(12u8), modifiers: m }) == seq![0x1bu8, 0x5bu8, 0x32u8, 0x34u8, 0x7eu8],
        (n == 0 || n > 12) ==> key_bytes_spec(KeyEvent { code: KeyCode::F(n), modifiers: m }).len() == 0,
{
    assert(csi(seq![0x31u8, 0x35u8, 0x7eu8]) =~= seq![0x1bu8, 0x5bu8, 0x31u8, 0x35u8, 0x7eu8]);
    assert(csi(seq![0x31u8, 0x37u8, 0x7eu8]) =~= seq![0x1bu8, 0x5bu8, 0x31u8, 0x37u8, 0x7eu8]);
    assert(csi(seq![0x31u8, 0x38u8, 0x7eu8]) =~= seq![0x1bu8, 0x5bu8, 0x31u8, 0x38u8, 0x7eu8]);
    assert(csi(seq![0x31u8, 0x39u8, 0x7eu8]) =~= seq![0x1bu8, 0x5bu8, 0x31u8, 0x39u8, 0x7eu8]);
    assert(csi(seq![0x32u8, 0x30u8, 0x7eu8]) =~= seq![0x1bu8, 0x5bu8, 0x32u8, 0x30u8, 0x7eu8]);
    assert(csi(seq![0x32u8, 0x31u8, 0x7eu8]) =~= seq![0x1bu8, 0x5bu8, 0x32u8, 0x31u8, 0x7eu8]);
    assert(csi(seq![0x32u8, 0x33u8, 0x7eu8]) =~= seq![0x1bu8, 0x5bu8, 0x32u8, 0x33u8, 0x7eu8]);
    assert(csi(seq![0x32u8, 0x34u8, 0x7eu8]) =~= seq![0x1bu8, 0x5bu8, 0x32u8, 0x34u8, 0x7eu8]);
}

} // verus!
