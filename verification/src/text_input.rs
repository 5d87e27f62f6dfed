//! A cursor-aware text buffer for dialog input. The cursor is a character
//! index (not a byte index), so multi-byte characters are edited as units.

use vstd::prelude::*;
use vstd::string::*;
use unicode_width::UnicodeWidthStr;
use crate::text::{chars_of, push_char, trim, trim_spec};
use crate::actions::is_ascii_text;

verus! {

/// The display width in terminal columns of a string, as the `unicode-width`
/// crate measures it.
pub uninterp spec fn unicode_str_width(s: Seq<char>) -> usize;

/// Whether a character is alphabetic or numeric in the Unicode sense.
pub uninterp spec fn is_alphanumeric_char(c: char) -> bool;

/// A character that `unicode-width` counts as one column wherever it stands
/// in a text made only of such characters: up to U+00A0, but not a line feed
/// or carriage return.
pub open spec fn narrow_char(c: char) -> bool {
    (c as u32) <= 0xA0 && c != '\n' && c != '\r'
}

/// A text made only of narrow characters (printable ASCII among them).
pub open spec fn narrow_text(s: Seq<char>) -> bool {
    forall|i: int| 0 <= i < s.len() ==> narrow_char(#[trigger] s[i])
}

/// An ASCII letter or digit.
pub open spec fn ascii_alphanumeric(c: char) -> bool {
    ||| 'a' <= c && c <= 'z'
    ||| 'A' <= c && c <= 'Z'
    ||| '0' <= c && c <= '9'
}

/// `UnicodeWidthStr::width` of the `unicode-width` crate: the displayed width
/// of the string in columns. Its value is only named in general; on a text of
/// narrow characters the crate counts one column per character (each such
/// character takes its one-column path and keeps the default state).
#[verifier::external_body]
fn str_display_width(s: &str) -> (r: usize)
    ensures
        r == unicode_str_width(s@),
        narrow_text(s@) ==> r == s@.len(),
{
    UnicodeWidthStr::width(s)
}

/// `char::is_alphanumeric`: whether `c` is alphabetic or numeric. Only named
/// in general; among ASCII characters exactly the letters and digits are.
#[verifier::external_body]
fn char_is_alphanumeric(c: char) -> (r: bool)
    ensures
        r == is_alphanumeric_char(c),
        (c as u32) < 0x80 ==> r == ascii_alphanumeric(c),
{
    c.is_alphanumeric()
}

/// A text buffer with a cursor.
#[derive(Debug, Clone)]
pub struct TextInput {
    /// The text content
    buffer: String,
    /// Cursor position as a char index (not a byte index)
    cursor: usize,
}

/// The value of a [`TextInput`]: its characters and the cursor's character index.
pub struct TextInputView {
    pub text: Seq<char>,
    pub cursor: nat,
}

impl View for TextInput {
    type V = TextInputView;

    closed spec fn view(&self) -> TextInputView {
        TextInputView { text: self.buffer@, cursor: self.cursor as nat }
    }
}

/// Insert `c` at the cursor; the cursor moves past it.
pub open spec fn insert_spec(v: TextInputView, c: char) -> TextInputView {
    TextInputView { text: v.text.insert(v.cursor as int, c), cursor: v.cursor + 1 }
}

/// Insert `s` at the cursor; the cursor moves past it.
pub open spec fn insert_str_spec(v: TextInputView, s: Seq<char>) -> TextInputView {
    TextInputView {
        text: v.text.take(v.cursor as int) + s + v.text.skip(v.cursor as int),
        cursor: v.cursor + s.len(),
    }
}

/// Remove the character before the cursor, if there is one.
pub open spec fn backspace_spec(v: TextInputView) -> TextInputView {
    if v.cursor > 0 {
        TextInputView { text: v.text.remove(v.cursor - 1), cursor: (v.cursor - 1) as nat }
    } else {
        v
    }
}

/// Remove the character under the cursor, if there is one.
pub open spec fn delete_spec(v: TextInputView) -> TextInputView {
    if v.cursor < v.text.len() {
        TextInputView { text: v.text.remove(v.cursor as int), cursor: v.cursor }
    } else {
        v
    }
}

/// Move the cursor one character left, if it can.
pub open spec fn move_left_spec(v: TextInputView) -> TextInputView {
    if v.cursor > 0 {
        TextInputView { text: v.text, cursor: (v.cursor - 1) as nat }
    } else {
        v
    }
}

/// Move the cursor one character right, if it can.
pub open spec fn move_right_spec(v: TextInputView) -> TextInputView {
    if v.cursor < v.text.len() {
        TextInputView { text: v.text, cursor: v.cursor + 1 }
    } else {
        v
    }
}

/// From `pos`, move left over characters that are not word characters.
pub open spec fn skip_gap_left(word: Seq<bool>, pos: int) -> int
    decreases pos,
{
    if pos > 0 && !word[pos - 1] {
        skip_gap_left(word, pos - 1)
    } else {
        pos
    }
}

/// From `pos`, move left over word characters.
pub open spec fn skip_word_left(word: Seq<bool>, pos: int) -> int
    decreases pos,
{
    if pos > 0 && word[pos - 1] {
        skip_word_left(word, pos - 1)
    } else {
        pos
    }
}

/// From `pos`, move right over word characters.
pub open spec fn skip_word_right(word: Seq<bool>, pos: int) -> int
    decreases word.len() - pos,
{
    if 0 <= pos < word.len() && word[pos] {
        skip_word_right(word, pos + 1)
    } else {
        pos
    }
}

/// From `pos`, move right over characters that are not word characters.
pub open spec fn skip_gap_right(word: Seq<bool>, pos: int) -> int
    decreases word.len() - pos,
{
    if 0 <= pos < word.len() && !word[pos] {
        skip_gap_right(word, pos + 1)
    } else {
        pos
    }
}

/// Start of the previous word: skip the gap before the cursor, then the word.
pub open spec fn word_left_spec(word: Seq<bool>, pos: int) -> int {
    skip_word_left(word, skip_gap_left(word, pos))
}

/// Start of the next word: skip the rest of the current word, then the gap.
pub open spec fn word_right_spec(word: Seq<bool>, pos: int) -> int {
    skip_gap_right(word, skip_word_right(word, pos))
}

/// Move the cursor to the start of the previous word (nothing happens at the start).
pub open spec fn move_word_left_spec(v: TextInputView) -> TextInputView {
    if v.cursor == 0 {
        v
    } else {
        TextInputView {
            text: v.text,
            cursor: word_left_spec(word_flags(v.text), v.cursor as int) as nat,
        }
    }
}

/// Move the cursor to the start of the next word (nothing happens at the end).
pub open spec fn move_word_right_spec(v: TextInputView) -> TextInputView {
    if v.cursor >= v.text.len() {
        v
    } else {
        TextInputView {
            text: v.text,
            cursor: word_right_spec(word_flags(v.text), v.cursor as int) as nat,
        }
    }
}

/// Which characters of `s` count as word characters.
pub open spec fn word_flags(s: Seq<char>) -> Seq<bool> {
    s.map_values(|c: char| is_alphanumeric_char(c))
}

/// The word characters of an ASCII text: its letters and digits.
pub open spec fn ascii_word_flags(s: Seq<char>) -> Seq<bool> {
    s.map_values(|c: char| ascii_alphanumeric(c))
}

/// Move the cursor to the start of the previous word, by the given word
/// characters.
pub open spec fn move_word_left_by(v: TextInputView, word: Seq<bool>) -> TextInputView {
    if v.cursor == 0 {
        v
    } else {
        TextInputView { text: v.text, cursor: word_left_spec(word, v.cursor as int) as nat }
    }
}

/// Move the cursor to the start of the next word, by the given word
/// characters.
pub open spec fn move_word_right_by(v: TextInputView, word: Seq<bool>) -> TextInputView {
    if v.cursor >= v.text.len() {
        v
    } else {
        TextInputView { text: v.text, cursor: word_right_spec(word, v.cursor as int) as nat }
    }
}

proof fn lemma_gap_left_bounds(word: Seq<bool>, pos: int)
    requires
        0 <= pos <= word.len(),
    ensures
        0 <= skip_gap_left(word, pos) <= pos,
    decreases pos,
{
    if pos > 0 {
        lemma_gap_left_bounds(word, pos - 1);
    }
}

proof fn lemma_word_left_bounds(word: Seq<bool>, pos: int)
    requires
        0 <= pos <= word.len(),
    ensures
        0 <= skip_word_left(word, pos) <= pos,
    decreases pos,
{
    if pos > 0 {
        lemma_word_left_bounds(word, pos - 1);
    }
}

proof fn lemma_skip_left_bounds(word: Seq<bool>, pos: int)
    requires
        0 <= pos <= word.len(),
    ensures
        0 <= word_left_spec(word, pos) <= pos,
{
    lemma_gap_left_bounds(word, pos);
    lemma_word_left_bounds(word, skip_gap_left(word, pos));
}

proof fn lemma_word_right_bounds(word: Seq<bool>, pos: int)
    requires
        0 <= pos <= word.len(),
    ensures
        pos <= skip_word_right(word, pos) <= word.len(),
    decreases word.len() - pos,
{
    if pos < word.len() {
        lemma_word_right_bounds(word, pos + 1);
    }
}

proof fn lemma_gap_right_bounds(word: Seq<bool>, pos: int)
    requires
        0 <= pos <= word.len(),
    ensures
        pos <= skip_gap_right(word, pos) <= word.len(),
    decreases word.len() - pos,
{
    if pos < word.len() {
        lemma_gap_right_bounds(word, pos + 1);
    }
}

proof fn lemma_skip_right_bounds(word: Seq<bool>, pos: int)
    requires
        0 <= pos <= word.len(),
    ensures
        pos <= word_right_spec(word, pos) <= word.len(),
{
    lemma_word_right_bounds(word, pos);
    lemma_gap_right_bounds(word, skip_word_right(word, pos));
}

/// The position of the start of the previous word, given which characters are
/// word characters.
pub fn word_left_position(word: &[bool], cursor: usize) -> (r: usize)
    requires
        cursor <= word@.len(),
    ensures
        r == word_left_spec(word@, cursor as int),
        r <= cursor,
{
    proof {
        lemma_skip_left_bounds(word@, cursor as int);
    }
    let mut pos = cursor;
    while pos > 0 && !word[pos - 1]
        invariant
            pos <= cursor <= word@.len(),
            skip_gap_left(word@, cursor as int) == skip_gap_left(word@, pos as int),
        decreases pos,
    {
        pos = pos - 1;
    }
    let ghost gap_end = pos as int;
    while pos > 0 && word[pos - 1]
        invariant
            pos <= gap_end <= cursor <= word@.len(),
            gap_end == skip_gap_left(word@, cursor as int),
            skip_word_left(word@, gap_end) == skip_word_left(word@, pos as int),
        decreases pos,
    {
        pos = pos - 1;
    }
    pos
}

/// The position of the start of the next word, given which characters are
/// word characters.
pub fn word_right_position(word: &[bool], cursor: usize) -> (r: usize)
    requires
        cursor <= word@.len(),
    ensures
        r == word_right_spec(word@, cursor as int),
        cursor <= r <= word@.len(),
{
    proof {
        lemma_skip_right_bounds(word@, cursor as int);
    }
    let len = word.len();
    let mut pos = cursor;
    while pos < len && word[pos]
        invariant
            len == word@.len(),
            cursor <= pos <= len,
            skip_word_right(word@, cursor as int) == skip_word_right(word@, pos as int),
        decreases len - pos,
    {
        pos = pos + 1;
    }
    let ghost word_end = pos as int;
    while pos < len && !word[pos]
        invariant
            len == word@.len(),
            cursor <= word_end <= pos <= len,
            word_end == skip_word_right(word@, cursor as int),
            skip_gap_right(word@, word_end) == skip_gap_right(word@, pos as int),
        decreases len - pos,
    {
        pos = pos + 1;
    }
    pos
}

impl TextInput {
    /// The cursor lies within the text.
    pub open spec fn wf(&self) -> bool {
        self@.cursor <= self@.text.len()
    }

    /// An empty buffer.
    pub fn new() -> (r: Self)
        ensures
            r.wf(),
            r@.text == Seq::<char>::empty(),
            r@.cursor == 0,
    {
        TextInput { buffer: String::new(), cursor: 0 }
    }

    /// A buffer holding `content`, with the cursor at its end.
    pub fn with_content(content: &str) -> (r: Self)
        ensures
            r.wf(),
            r@.text == content@,
            r@.cursor == content@.len(),
    {
        let buffer = content.to_owned();
        let cursor = buffer.as_str().unicode_len();
        TextInput { buffer, cursor }
    }

    /// The buffer content.
    pub fn content(&self) -> (r: &str)
        ensures
            r@ == self@.text,
    {
        self.buffer.as_str()
    }

    /// The cursor position (a character index).
    pub fn cursor_position(&self) -> (r: usize)
        ensures
            r == self@.cursor,
    {
        self.cursor
    }

    /// Display width of the text before the cursor (for placing the terminal cursor).
    pub fn cursor_display_offset(&self) -> (r: usize)
        requires
            self.wf(),
        ensures
            r == unicode_str_width(self@.text.take(self@.cursor as int)),
            narrow_text(self@.text.take(self@.cursor as int)) ==> r == self@.cursor,
    {
        let before = self.buffer.as_str().substring_char(0, self.cursor);
        proof {
            assert(self@.text.subrange(0, self@.cursor as int) =~= self@.text.take(
                self@.cursor as int,
            ));
        }
        str_display_width(before)
    }

    /// Display width of the whole text.
    pub fn display_width(&self) -> (r: usize)
        ensures
            r == unicode_str_width(self@.text),
            narrow_text(self@.text) ==> r == self@.text.len(),
    {
        str_display_width(self.buffer.as_str())
    }

    /// Empty the buffer; the cursor goes to 0.
    pub fn clear(&mut self)
        ensures
            final(self).wf(),
            final(self)@.text == Seq::<char>::empty(),
            final(self)@.cursor == 0,
    {
        self.buffer = String::new();
        self.cursor = 0;
    }

    /// Replace the content; the cursor goes to its end.
    pub fn set_content(&mut self, content: &str)
        ensures
            final(self).wf(),
            final(self)@.text == content@,
            final(self)@.cursor == content@.len(),
    {
        self.buffer = content.to_owned();
        self.cursor = self.buffer.as_str().unicode_len();
    }

    /// Insert a character at the cursor; the cursor moves past it.
    pub fn insert(&mut self, c: char)
        requires
            old(self).wf(),
            old(self)@.text.len() < usize::MAX,
        ensures
            final(self).wf(),
            final(self)@ == insert_spec(old(self)@, c),
    {
        let n = self.buffer.as_str().unicode_len();
        let mut next = self.buffer.as_str().substring_char(0, self.cursor).to_owned();
        push_char(&mut next, c);
        next.append(self.buffer.as_str().substring_char(self.cursor, n));
        proof {
            let t = old(self)@.text;
            let k = old(self)@.cursor as int;
            assert(next@ =~= t.insert(k, c));
        }
        self.buffer = next;
        self.cursor = self.cursor + 1;
    }

    /// Insert a string at the cursor; the cursor moves past it.
    pub fn insert_str(&mut self, s: &str)
        requires
            old(self).wf(),
            old(self)@.text.len() + s@.len() <= usize::MAX,
        ensures
            final(self).wf(),
            final(self)@ == insert_str_spec(old(self)@, s@),
    {
        let n = self.buffer.as_str().unicode_len();
        let mut next = self.buffer.as_str().substring_char(0, self.cursor).to_owned();
        next.append(s);
        next.append(self.buffer.as_str().substring_char(self.cursor, n));
        proof {
            let t = old(self)@.text;
            let k = old(self)@.cursor as int;
            assert(t.subrange(0, k) =~= t.take(k));
            assert(t.subrange(k, t.len() as int) =~= t.skip(k));
        }
        self.buffer = next;
        self.cursor = self.cursor + s.unicode_len();
    }

    /// Delete the character before the cursor (Backspace); whether one was deleted.
    pub fn backspace(&mut self) -> (r: bool)
        requires
            old(self).wf(),
        ensures
            final(self).wf(),
            r == (old(self)@.cursor > 0),
            final(self)@ == backspace_spec(old(self)@),
    {
        if self.cursor > 0 {
            let n = self.buffer.as_str().unicode_len();
            let mut next = self.buffer.as_str().substring_char(0, self.cursor - 1).to_owned();
            next.append(self.buffer.as_str().substring_char(self.cursor, n));
            proof {
                let t = old(self)@.text;
                let k = old(self)@.cursor as int;
                assert(next@ =~= t.remove(k - 1));
            }
            self.buffer = next;
            self.cursor = self.cursor - 1;
            true
        } else {
            false
        }
    }

    /// Delete the character under the cursor (Delete); whether one was deleted.
    pub fn delete(&mut self) -> (r: bool)
        requires
            old(self).wf(),
        ensures
            final(self).wf(),
            r == (old(self)@.cursor < old(self)@.text.len()),
            final(self)@ == delete_spec(old(self)@),
    {
        let n = self.buffer.as_str().unicode_len();
        if self.cursor < n {
            let mut next = self.buffer.as_str().substring_char(0, self.cursor).to_owned();
            next.append(self.buffer.as_str().substring_char(self.cursor + 1, n));
            proof {
                let t = old(self)@.text;
                let k = old(self)@.cursor as int;
                assert(next@ =~= t.remove(k));
            }
            self.buffer = next;
            true
        } else {
            false
        }
    }

    /// Move the cursor one character left; whether it moved.
    pub fn move_left(&mut self) -> (r: bool)
        requires
            old(self).wf(),
        ensures
            final(self).wf(),
            r == (old(self)@.cursor > 0),
            final(self)@ == move_left_spec(old(self)@),
    {
        if self.cursor > 0 {
            self.cursor = self.cursor - 1;
            true
        } else {
            false
        }
    }

    /// Move the cursor one character right; whether it moved.
    pub fn move_right(&mut self) -> (r: bool)
        requires
            old(self).wf(),
        ensures
            final(self).wf(),
            r == (old(self)@.cursor < old(self)@.text.len()),
            final(self)@ == move_right_spec(old(self)@),
    {
        let n = self.buffer.as_str().unicode_len();
        if self.cursor < n {
            self.cursor = self.cursor + 1;
            true
        } else {
            false
        }
    }

    /// Move the cursor to the start (Home).
    pub fn move_home(&mut self)
        requires
            old(self).wf(),
        ensures
            final(self).wf(),
            final(self)@.text == old(self)@.text,
            final(self)@.cursor == 0,
    {
        self.cursor = 0;
    }

    /// Move the cursor to the end (End).
    pub fn move_end(&mut self)
        ensures
            final(self).wf(),
            final(self)@.text == old(self)@.text,
            final(self)@.cursor == old(self)@.text.len(),
    {
        self.cursor = self.buffer.as_str().unicode_len();
    }

    /// Which characters of the buffer are word characters.
    fn word_flags_exec(&self) -> (r: Vec<bool>)
        ensures
            r@ == word_flags(self@.text),
            is_ascii_text(self@.text) ==> r@ == ascii_word_flags(self@.text),
    {
        let chars = chars_of(self.buffer.as_str());
        let mut r: Vec<bool> = Vec::new();
        let mut i: usize = 0;
        while i < chars.len()
            invariant
                i <= chars@.len(),
                chars@ == self@.text,
                r@ == word_flags(chars@.take(i as int)),
                is_ascii_text(chars@) ==> r@ == ascii_word_flags(chars@.take(i as int)),
            decreases chars.len() - i,
        {
            r.push(char_is_alphanumeric(chars[i]));
            i = i + 1;
            assert(r@ =~= word_flags(chars@.take(i as int)));
            assert(is_ascii_text(chars@) ==> r@ =~= ascii_word_flags(chars@.take(i as int)));
        }
        assert(chars@.take(chars.len() as int) =~= chars@);
        r
    }

    /// Move the cursor to the start of the previous word (Ctrl+Left); whether it moved.
    pub fn move_word_left(&mut self) -> (r: bool)
        requires
            old(self).wf(),
        ensures
            final(self).wf(),
            final(self)@ == move_word_left_spec(old(self)@),
            is_ascii_text(old(self)@.text) ==> final(self)@ == move_word_left_by(
                old(self)@,
                ascii_word_flags(old(self)@.text),
            ),
            r == (final(self)@.cursor != old(self)@.cursor),
    {
        if self.cursor == 0 {
            return false;
        }
        let word = self.word_flags_exec();
        let pos = word_left_position(word.as_slice(), self.cursor);
        if pos != self.cursor {
            self.cursor = pos;
            true
        } else {
            false
        }
    }

    /// Move the cursor to the start of the next word (Ctrl+Right); whether it moved.
    pub fn move_word_right(&mut self) -> (r: bool)
        requires
            old(self).wf(),
        ensures
            final(self).wf(),
            final(self)@ == move_word_right_spec(old(self)@),
            is_ascii_text(old(self)@.text) ==> final(self)@ == move_word_right_by(
                old(self)@,
                ascii_word_flags(old(self)@.text),
            ),
            r == (final(self)@.cursor != old(self)@.cursor),
    {
        let word = self.word_flags_exec();
        let len = word.len();
        if self.cursor >= len {
            return false;
        }
        let pos = word_right_position(word.as_slice(), self.cursor);
        if pos != self.cursor {
            self.cursor = pos;
            true
        } else {
            false
        }
    }

    /// Whether the buffer is empty.
    pub fn is_empty(&self) -> (r: bool)
        ensures
            r == (self@.text.len() == 0),
    {
        self.buffer.as_str().is_empty()
    }

    /// The content without leading and trailing white space.
    pub fn trim(&self) -> (r: &str)
        ensures
            r@ == trim_spec(self@.text),
    {
        trim(self.buffer.as_str())
    }
}

impl Default for TextInput {
    fn default() -> (r: Self)
        ensures
            r.wf(),
            r@.text == Seq::<char>::empty(),
            r@.cursor == 0,
    {
        TextInput::new()
    }
}

/// Backspace undoes an insertion: inserting a character and then deleting the
/// character before the cursor gives back the buffer and cursor as they were,
/// and the backspace reports a deletion (the cursor is past the start).
pub proof fn law_insert_then_backspace(v: TextInputView, c: char)
    requires
        v.cursor <= v.text.len(),
    ensures
        insert_spec(v, c).cursor > 0,
        backspace_spec(insert_spec(v, c)) == v,
{
    let w = insert_spec(v, c);
    assert(w.text.remove(v.cursor as int) =~= v.text);
}

/// Delete undoes an insertion once the cursor is moved back over the inserted character.
pub proof fn law_insert_left_delete(v: TextInputView, c: char)
    requires
        v.cursor <= v.text.len(),
    ensures
        delete_spec(move_left_spec(insert_spec(v, c))) == v,
{
    let w = insert_spec(v, c);
    assert(w.text.remove(v.cursor as int) =~= v.text);
}

/// Moving right after moving left returns the cursor, unless it was already at the start.
pub proof fn law_left_then_right(v: TextInputView)
    requires
        0 < v.cursor <= v.text.len(),
    ensures
        move_right_spec(move_left_spec(v)) == v,
{
}

/// Every editing operation keeps the cursor within the text.
pub proof fn law_cursor_stays_in_text(v: TextInputView, c: char)
    requires
        v.cursor <= v.text.len(),
    ensures
        insert_spec(v, c).cursor <= insert_spec(v, c).text.len(),
        backspace_spec(v).cursor <= backspace_spec(v).text.len(),
        delete_spec(v).cursor <= delete_spec(v).text.len(),
        move_left_spec(v).cursor <= move_left_spec(v).text.len(),
        move_right_spec(v).cursor <= move_right_spec(v).text.len(),
        0 <= word_left_spec(word_flags(v.text), v.cursor as int) <= v.cursor,
        v.cursor <= word_right_spec(word_flags(v.text), v.cursor as int) <= v.text.len(),
{
    lemma_skip_left_bounds(word_flags(v.text), v.cursor as int);
    lemma_skip_right_bounds(word_flags(v.text), v.cursor as int);
}

/// One call of the text field's editing interface.
pub enum Edit {
    Clear,
    SetContent(Seq<char>),
    Insert(char),
    InsertStr(Seq<char>),
    Backspace,
    Delete,
    MoveLeft,
    MoveRight,
    MoveHome,
    MoveEnd,
    MoveWordLeft,
    MoveWordRight,
}

/// The field after one call, as that method's contract states it.
pub open spec fn edit_spec(v: TextInputView, e: Edit) -> TextInputView {
    match e {
        Edit::Clear => TextInputView { text: Seq::empty(), cursor: 0 },
        Edit::SetContent(s) => TextInputView { text: s, cursor: s.len() },
        Edit::Insert(c) => insert_spec(v, c),
        Edit::InsertStr(s) => insert_str_spec(v, s),
        Edit::Backspace => backspace_spec(v),
        Edit::Delete => delete_spec(v),
        Edit::MoveLeft => move_left_spec(v),
        Edit::MoveRight => move_right_spec(v),
        Edit::MoveHome => TextInputView { text: v.text, cursor: 0 },
        Edit::MoveEnd => TextInputView { text: v.text, cursor: v.text.len() },
        Edit::MoveWordLeft => move_word_left_spec(v),
        Edit::MoveWordRight => move_word_right_spec(v),
    }
}

/// The field after the calls, in order.
pub open spec fn edits_spec(v: TextInputView, es: Seq<Edit>) -> TextInputView
    decreases es.len(),
{
    if es.len() == 0 {
        v
    } else {
        edits_spec(edit_spec(v, es[0]), es.drop_first())
    }
}

/// Whatever calls follow one another, the cursor stays within the text: it
/// holds of a field built empty or with content, and each call keeps it.
pub proof fn law_edits_keep_cursor_in_text(v: TextInputView, es: Seq<Edit>)
    requires
        v.cursor <= v.text.len(),
    ensures
        edits_spec(v, es).cursor <= edits_spec(v, es).text.len(),
    decreases es.len(),
{
    if es.len() > 0 {
        let w = edit_spec(v, es[0]);
        match es[0] {
            Edit::Insert(c) => law_cursor_stays_in_text(v, c),
            _ => law_cursor_stays_in_text(v, ' '),
        }
        assert(w.cursor <= w.text.len());
        law_edits_keep_cursor_in_text(w, es.drop_first());
    }
}

} // verus!
