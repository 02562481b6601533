//! The auto-typer: it holds a text and, while the user presses letter, digit or
//! symbol keys, swallows each press and types the text's next character instead.

use crate::key::Key;
use vstd::prelude::*;

verus! {

/// A text to type and how much of it has been typed.
pub struct TyperContext {
    s: Vec<char>,
    head: usize,
}

/// What the typer does with a key press.
#[derive(Debug, Clone, Copy, PartialEq, Eq, Structural)]
pub enum TyperAction {
    /// The press is not the typer's: it goes on to the system.
    PassThrough,
    /// The press is swallowed and `ch` is typed; `finished` tells whether it was
    /// the text's last character.
    Type { ch: char, finished: bool },
    /// Escape: the press is swallowed and the rest of the text is dropped.
    Cancel,
}

impl TyperAction {
    /// Whether the key press is swallowed.
    pub open spec fn spec_swallows(self) -> bool {
        !(self is PassThrough)
    }

    /// Whether the key press is swallowed.
    pub fn swallows(&self) -> (b: bool)
        ensures
            b == self.spec_swallows(),
    {
        match self {
            TyperAction::PassThrough => false,
            _ => true,
        }
    }
}

/// Whether a key press makes the typer type: a letter, digit or symbol key on
/// which no hotkey fired.
pub open spec fn is_typing_press(key: Key, was_hook_called: bool) -> bool {
    !was_hook_called && (key.spec_is_alphabetic() || key.spec_is_numeric() || key.spec_is_symbol())
}

/// One key press: from `position` in `text`, the new position and what is done.
/// A typing press types the next character, if any is left; Escape drops what is
/// left, if anything is; every other press passes through and changes nothing.
pub open spec fn typer_step(text: Seq<char>, position: nat, key: Key, was_hook_called: bool) -> (
    nat,
    TyperAction,
) {
    if is_typing_press(key, was_hook_called) {
        if position < text.len() {
            (
                position + 1,
                TyperAction::Type { ch: text[position as int], finished: position + 1 == text.len() },
            )
        } else {
            (position, TyperAction::PassThrough)
        }
    } else if key == Key::EscapeKey {
        if position < text.len() {
            (text.len(), TyperAction::Cancel)
        } else {
            (position, TyperAction::PassThrough)
        }
    } else {
        (position, TyperAction::PassThrough)
    }
}

/// The characters typed by a run of key presses, each given with whether a hotkey
/// fired on it, starting from `position` in `text`.
pub open spec fn typed_by(text: Seq<char>, position: nat, presses: Seq<(Key, bool)>) -> Seq<char>
    decreases presses.len(),
{
    if presses.len() == 0 {
        Seq::empty()
    } else {
        let (next, action) = typer_step(text, position, presses[0].0, presses[0].1);
        let rest = typed_by(text, next, presses.drop_first());
        match action {
            TyperAction::Type { ch, finished } => seq![ch] + rest,
            _ => rest,
        }
    }
}

/// A run of typing presses types the text in order, one character per press,
/// from where the typer stands until the text runs out.
pub proof fn lemma_typing_presses_type_the_text(
    text: Seq<char>,
    position: nat,
    presses: Seq<(Key, bool)>,
)
    requires
        position <= text.len(),
        forall|i: int| 0 <= i < presses.len() ==> is_typing_press(#[trigger] presses[i].0, presses[i].1),
    ensures
        typed_by(text, position, presses) == text.subrange(
            position as int,
            if position + presses.len() <= text.len() {
                (position + presses.len()) as int
            } else {
                text.len() as int
            },
        ),
    decreases presses.len(),
{
    if presses.len() > 0 {
        let rest = presses.drop_first();
        assert forall|i: int| 0 <= i < rest.len() implies is_typing_press(
            #[trigger] rest[i].0,
            rest[i].1,
        ) by {
            assert(rest[i] == presses[i + 1]);
        }
        assert(is_typing_press(presses[0].0, presses[0].1));
        if position < text.len() {
            lemma_typing_presses_type_the_text(text, position + 1, rest);
        } else {
            lemma_typing_presses_type_the_text(text, position, rest);
        }
    }
}

/// After Escape nothing is left to type: every later press passes through.
pub proof fn lemma_escape_ends_typing(text: Seq<char>, position: nat, key: Key, was_hook_called: bool)
    requires
        position <= text.len(),
    ensures
        typer_step(text, typer_step(text, position, Key::EscapeKey, false).0, key, was_hook_called).1
            == TyperAction::PassThrough,
{
}

impl TyperContext {
    /// The text to type.
    pub closed spec fn text(&self) -> Seq<char> {
        self.s@
    }

    /// How many of the text's characters have been typed.
    pub closed spec fn position(&self) -> nat {
        self.head as nat
    }

    /// The position never passes the end of the text.
    pub open spec fn wf(&self) -> bool {
        self.position() <= self.text().len()
    }

    /// Whether characters are left to type.
    pub open spec fn is_typing(&self) -> bool {
        self.position() < self.text().len()
    }

    /// An empty typer.
    pub fn new() -> (t: TyperContext)
        ensures
            t.text() == Seq::<char>::empty(),
            t.position() == 0,
            t.wf(),
    {
        TyperContext { s: Vec::new(), head: 0 }
    }

    /// Starts typing `text` from its first character.
    pub fn load(&mut self, text: &str)
        ensures
            final(self).text() == text@,
            final(self).position() == 0,
            final(self).wf(),
    {
        broadcast use vstd::string::group_string_axioms;

        let mut chars: Vec<char> = Vec::new();
        for c in iter: text.chars()
            invariant
                iter.seq() == text@,
                chars@ == iter.seq().take(iter.index() as int),
        {
            chars.push(c);
            assert(iter.seq().take(iter.index() + 1) == iter.seq().take(iter.index() as int).push(c));
        }
        self.s = chars;
        self.head = 0;
    }

    /// What the typer does with a press of `key`, `was_hook_called` telling whether a
    /// hotkey fired on it. A letter, digit or symbol key that fired no hotkey types the
    /// next character, if any is left; Escape drops what is left, if anything is;
    /// every other press passes through.
    pub fn on_keypress(&mut self, key: Key, was_hook_called: bool) -> (action: TyperAction)
        requires
            old(self).wf(),
        ensures
            final(self).wf(),
            final(self).text() == old(self).text(),
            (final(self).position(), action) == typer_step(
                old(self).text(),
                old(self).position(),
                key,
                was_hook_called,
            ),
    {
        if !was_hook_called && key.is_alphanumeric_symbol() {
            if self.head < self.s.len() {
                let ch = self.s[self.head];
                self.head = self.head + 1;
                let finished = self.head == self.s.len();
                TyperAction::Type { ch, finished }
            } else {
                TyperAction::PassThrough
            }
        } else if key == Key::EscapeKey {
            if self.head < self.s.len() {
                self.head = self.s.len();
                TyperAction::Cancel
            } else {
                TyperAction::PassThrough
            }
        } else {
            TyperAction::PassThrough
        }
    }
}

} // verus!
