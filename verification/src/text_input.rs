//! Editing state of the single-line text input: the text as characters, a
//! cursor between characters, and focus. Typing inserts at the cursor;
//! Backspace, Delete, Left, Right, Home and End work on characters.

use vstd::prelude::*;
use vstd::string::StrSliceExecFns;
use crate::widgets::{ColorMode, EventResponse, KeyCode};

verus! {

/// `String::from_iter` over characters: the string of exactly those
/// characters, in order.
#[verifier::external_body]
fn string_of_chars(chars: &[char]) -> (s: String)
    ensures
        s@ == chars@,
{
    String::from_iter(chars.iter())
}

/// The text and cursor after typing `ch`.
pub open spec fn typed(text: Seq<char>, cursor: nat, ch: char) -> (Seq<char>, nat) {
    (text.insert(cursor as int, ch), cursor + 1)
}

/// The text and cursor after an editing key; other keys change nothing.
pub open spec fn edited_by_key(text: Seq<char>, cursor: nat, key: KeyCode) -> (Seq<char>, nat) {
    match key {
        KeyCode::Backspace => if cursor > 0 {
            (text.remove(cursor - 1), (cursor - 1) as nat)
        } else {
            (text, cursor)
        },
        KeyCode::Delete => if cursor < text.len() {
            (text.remove(cursor as int), cursor)
        } else {
            (text, cursor)
        },
        KeyCode::Left => if cursor > 0 {
            (text, (cursor - 1) as nat)
        } else {
            (text, cursor)
        },
        KeyCode::Right => if cursor < text.len() {
            (text, cursor + 1)
        } else {
            (text, cursor)
        },
        KeyCode::Home => (text, 0),
        KeyCode::End => (text, text.len()),
        _ => (text, cursor),
    }
}

/// Whether the input handles `key` (when focused).
pub open spec fn is_editing_key(key: KeyCode) -> bool {
    key is Backspace || key is Delete || key is Left || key is Right || key is Home || key is End
}

/// A single-line text input.
pub struct TextInput {
    text: Vec<char>,
    placeholder: String,
    cursor: usize,
    focused: bool,
    autocomplete_candidates: Vec<String>,
    color_mode: ColorMode,
}

impl TextInput {
    pub closed spec fn content(&self) -> Seq<char> {
        self.text@
    }

    pub closed spec fn cursor_pos(&self) -> nat {
        self.cursor as nat
    }

    pub closed spec fn has_focus(&self) -> bool {
        self.focused
    }

    pub closed spec fn placeholder_text(&self) -> Seq<char> {
        self.placeholder@
    }

    pub closed spec fn mode(&self) -> ColorMode {
        self.color_mode
    }

    /// The completions remembered for this input.
    pub closed spec fn candidates(&self) -> Seq<String> {
        self.autocomplete_candidates@
    }

    /// The cursor never passes the end of the text.
    pub closed spec fn wf(&self) -> bool {
        self.cursor <= self.text@.len()
    }

    /// An empty, unfocused input showing `placeholder`.
    pub fn new(placeholder: &str) -> (t: TextInput)
        ensures
            t.wf(),
            t.content() == Seq::<char>::empty(),
            t.cursor_pos() == 0,
            !t.has_focus(),
            t.placeholder_text() == placeholder@,
            t.mode() == ColorMode::Dark,
            t.candidates() == Seq::<String>::empty(),
    {
        TextInput {
            text: Vec::new(),
            placeholder: String::from_str(placeholder),
            cursor: 0,
            focused: false,
            autocomplete_candidates: Vec::new(),
            color_mode: ColorMode::Dark,
        }
    }

    /// The same input drawn in `mode`.
    pub fn with_color_mode(self, mode: ColorMode) -> (t: TextInput)
        requires
            self.wf(),
        ensures
            t.wf(),
            t.mode() == mode,
            t.content() == self.content(),
            t.cursor_pos() == self.cursor_pos(),
            t.has_focus() == self.has_focus(),
            t.placeholder_text() == self.placeholder_text(),
    {
        let mut t = self;
        t.color_mode = mode;
        t
    }

    pub fn set_color_mode(&mut self, mode: ColorMode)
        requires
            old(self).wf(),
        ensures
            final(self).wf(),
            final(self).mode() == mode,
            final(self).content() == old(self).content(),
            final(self).cursor_pos() == old(self).cursor_pos(),
            final(self).has_focus() == old(self).has_focus(),
            final(self).placeholder_text() == old(self).placeholder_text(),
    {
        self.color_mode = mode;
    }

    /// The current text.
    pub fn text(&self) -> (s: String)
        ensures
            s@ == self.content(),
    {
        string_of_chars(self.text.as_slice())
    }

    /// The placeholder shown while the text is empty.
    pub fn placeholder(&self) -> (s: &str)
        ensures
            s@ == self.placeholder_text(),
    {
        self.placeholder.as_str()
    }

    /// The cursor, counted in characters from the start.
    pub fn cursor(&self) -> (c: usize)
        ensures
            c == self.cursor_pos(),
    {
        self.cursor
    }

    /// Replace the text and put the cursor at its end.
    pub fn set_text(&mut self, text: &str)
        requires
            old(self).wf(),
        ensures
            final(self).wf(),
            final(self).content() == text@,
            final(self).cursor_pos() == text@.len(),
            final(self).has_focus() == old(self).has_focus(),
            final(self).placeholder_text() == old(self).placeholder_text(),
            final(self).mode() == old(self).mode(),
    {
        let n = text.unicode_len();
        let mut chars: Vec<char> = Vec::new();
        let mut i: usize = 0;
        while i < n
            invariant
                n == text@.len(),
                i <= n,
                chars@ == text@.subrange(0, i as int),
            decreases n - i,
        {
            chars.push(text.get_char(i));
            i = i + 1;
            assert(chars@ =~= text@.subrange(0, i as int));
        }
        assert(chars@ =~= text@);
        self.text = chars;
        self.cursor = n;
    }

    /// Remember the completions offered for this input.
    pub fn set_autocomplete(&mut self, candidates: Vec<String>)
        requires
            old(self).wf(),
        ensures
            final(self).wf(),
            final(self).candidates() == candidates@,
            final(self).content() == old(self).content(),
            final(self).cursor_pos() == old(self).cursor_pos(),
            final(self).has_focus() == old(self).has_focus(),
            final(self).placeholder_text() == old(self).placeholder_text(),
            final(self).mode() == old(self).mode(),
    {
        self.autocomplete_candidates = candidates;
    }

    pub fn is_focused(&self) -> (b: bool)
        ensures
            b == self.has_focus(),
    {
        self.focused
    }

    pub fn set_focused(&mut self, focused: bool)
        requires
            old(self).wf(),
        ensures
            final(self).wf(),
            final(self).has_focus() == focused,
            final(self).content() == old(self).content(),
            final(self).cursor_pos() == old(self).cursor_pos(),
            final(self).placeholder_text() == old(self).placeholder_text(),
            final(self).mode() == old(self).mode(),
    {
        self.focused = focused;
    }

    /// A left click, inside the input or not: it takes the focus exactly
    /// when inside, and reports the click consumed then.
    pub fn click(&mut self, inside: bool) -> (r: EventResponse)
        requires
            old(self).wf(),
        ensures
            final(self).wf(),
            final(self).has_focus() == inside,
            if inside { r is Consumed } else { r is Ignored },
            final(self).content() == old(self).content(),
            final(self).cursor_pos() == old(self).cursor_pos(),
            final(self).placeholder_text() == old(self).placeholder_text(),
            final(self).mode() == old(self).mode(),
    {
        self.focused = inside;
        if inside {
            EventResponse::Consumed
        } else {
            EventResponse::Ignored
        }
    }

    /// A typed character: inserted at the cursor when focused.
    pub fn type_char(&mut self, ch: char) -> (r: EventResponse)
        requires
            old(self).wf(),
            old(self).content().len() < usize::MAX,
        ensures
            final(self).wf(),
            old(self).has_focus() ==> r is Consumed && (final(self).content(), final(self).cursor_pos())
                == typed(old(self).content(), old(self).cursor_pos(), ch),
            !old(self).has_focus() ==> r is Ignored && final(self).content() == old(self).content()
                && final(self).cursor_pos() == old(self).cursor_pos(),
            final(self).has_focus() == old(self).has_focus(),
            final(self).placeholder_text() == old(self).placeholder_text(),
            final(self).mode() == old(self).mode(),
    {
        if !self.focused {
            return EventResponse::Ignored;
        }
        self.text.insert(self.cursor, ch);
        self.cursor = self.cursor + 1;
        EventResponse::Consumed
    }

    /// A key press: editing keys act when focused and are consumed; others
    /// are ignored.
    pub fn key_down(&mut self, key: KeyCode) -> (r: EventResponse)
        requires
            old(self).wf(),
        ensures
            final(self).wf(),
            old(self).has_focus() && is_editing_key(key) ==> r is Consumed && (
            final(self).content(),
            final(self).cursor_pos(),
            ) == edited_by_key(old(self).content(), old(self).cursor_pos(), key),
            !(old(self).has_focus() && is_editing_key(key)) ==> r is Ignored && final(self).content()
                == old(self).content() && final(self).cursor_pos() == old(self).cursor_pos(),
            final(self).has_focus() == old(self).has_focus(),
            final(self).placeholder_text() == old(self).placeholder_text(),
            final(self).mode() == old(self).mode(),
    {
        if !self.focused {
            return EventResponse::Ignored;
        }
        match key {
            KeyCode::Backspace => {
                if self.cursor > 0 {
                    self.text.remove(self.cursor - 1);
                    self.cursor = self.cursor - 1;
                }
                EventResponse::Consumed
            },
            KeyCode::Delete => {
                if self.cursor < self.text.len() {
                    self.text.remove(self.cursor);
                }
                EventResponse::Consumed
            },
            KeyCode::Left => {
                if self.cursor > 0 {
                    self.cursor = self.cursor - 1;
                }
                EventResponse::Consumed
            },
            KeyCode::Right => {
                if self.cursor < self.text.len() {
                    self.cursor = self.cursor + 1;
                }
                EventResponse::Consumed
            },
            KeyCode::Home => {
                self.cursor = 0;
                EventResponse::Consumed
            },
            KeyCode::End => {
                self.cursor = self.text.len();
                EventResponse::Consumed
            },
            _ => EventResponse::Ignored,
        }
    }
}

/// Backspace right after typing a character undoes it.
pub proof fn lemma_backspace_undoes_typing(text: Seq<char>, cursor: nat, ch: char)
    requires
        cursor <= text.len(),
    ensures
        edited_by_key(typed(text, cursor, ch).0, typed(text, cursor, ch).1, KeyCode::Backspace) == (text, cursor),
{
    assert(text.insert(cursor as int, ch).remove(cursor as int) =~= text);
}

/// Every edit keeps the cursor within the text.
pub proof fn lemma_edits_keep_cursor_in_text(text: Seq<char>, cursor: nat, ch: char, key: KeyCode)
    requires
        cursor <= text.len(),
    ensures
        typed(text, cursor, ch).1 <= typed(text, cursor, ch).0.len(),
        edited_by_key(text, cursor, key).1 <= edited_by_key(text, cursor, key).0.len(),
{
}

/// Moving left then right (away from the start) returns the cursor, and
/// cursor keys never change the text.
pub proof fn lemma_cursor_keys_keep_text(text: Seq<char>, cursor: nat)
    requires
        0 < cursor <= text.len(),
    ensures
        edited_by_key(
            edited_by_key(text, cursor, KeyCode::Left).0,
            edited_by_key(text, cursor, KeyCode::Left).1,
            KeyCode::Right,
        ) == (text, cursor),
        edited_by_key(text, cursor, KeyCode::Home).0 == text,
        edited_by_key(text, cursor, KeyCode::End) == (text, text.len()),
{
}

} // verus!
