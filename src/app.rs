//! The editing session: two input buffers, the committed pairs, the screen
//! on display and which buffer receives typed characters.
use vstd::prelude::*;

use crate::json::{encode_entries, encoded, object_from_members, object_text, JsonError};
use crate::pairs::{entries_view, insert_pair, keys_unique, lemma_to_map_finite, to_map};
use crate::text::{pop_char, push_char};

verus! {

/// The top-level mode of the editor; it decides how key presses are read.
#[derive(Clone, Copy, Debug, PartialEq, Eq, Structural)]
pub enum CurrentScreen {
    Main,
    Editing,
    Exiting,
}

/// Which of the two input buffers receives typed characters.
#[derive(Clone, Copy, Debug, PartialEq, Eq, Structural)]
pub enum CurrentlyEditing {
    Key,
    Value,
}

/// What a session holds, as mathematical values.
pub struct Session {
    pub key: Seq<char>,
    pub value: Seq<char>,
    pub pairs: Map<Seq<char>, Seq<char>>,
    pub screen: CurrentScreen,
    pub editing: Option<CurrentlyEditing>,
}

impl Session {
    /// Empty buffers, no pairs, the main screen, nothing being edited.
    pub open spec fn initial() -> Session {
        Session {
            key: Seq::empty(),
            value: Seq::empty(),
            pairs: Map::empty(),
            screen: CurrentScreen::Main,
            editing: None,
        }
    }

    /// The editing screen is shown exactly when a buffer is being edited.
    pub open spec fn mode_consistent(self) -> bool {
        (self.screen == CurrentScreen::Editing) == self.editing.is_some()
    }

    /// The same session on another screen, editing another buffer.
    pub open spec fn with_mode(self, screen: CurrentScreen, editing: Option<CurrentlyEditing>) -> Session {
        Session { key: self.key, value: self.value, pairs: self.pairs, screen, editing }
    }

    /// The same session with other buffer contents.
    pub open spec fn with_buffers(self, key: Seq<char>, value: Seq<char>) -> Session {
        Session { key, value, pairs: self.pairs, screen: self.screen, editing: self.editing }
    }

    /// Editing starts on the key buffer.
    pub open spec fn begun(self) -> Session {
        self.with_mode(CurrentScreen::Editing, Some(CurrentlyEditing::Key))
    }

    /// Key and value swap roles; with nothing being edited, the key is next.
    pub open spec fn toggled(self) -> Session {
        self.with_mode(
            self.screen,
            Some(
                match self.editing {
                    Some(CurrentlyEditing::Key) => CurrentlyEditing::Value,
                    _ => CurrentlyEditing::Key,
                },
            ),
        )
    }

    /// `c` goes at the end of the buffer being edited, if any.
    pub open spec fn pushed(self, c: char) -> Session {
        match self.editing {
            Some(CurrentlyEditing::Key) => self.with_buffers(self.key.push(c), self.value),
            Some(CurrentlyEditing::Value) => self.with_buffers(self.key, self.value.push(c)),
            None => self,
        }
    }

    /// The last character of the buffer being edited goes, if there is one.
    pub open spec fn popped(self) -> Session {
        match self.editing {
            Some(CurrentlyEditing::Key) => if self.key.len() > 0 {
                self.with_buffers(self.key.drop_last(), self.value)
            } else {
                self
            },
            Some(CurrentlyEditing::Value) => if self.value.len() > 0 {
                self.with_buffers(self.key, self.value.drop_last())
            } else {
                self
            },
            None => self,
        }
    }

    /// The buffers become a pair (replacing any value the key had), the
    /// buffers are emptied and nothing is being edited; the screen stays.
    pub open spec fn committed(self) -> Session {
        Session {
            key: Seq::empty(),
            value: Seq::empty(),
            pairs: self.pairs.insert(self.key, self.value),
            screen: self.screen,
            editing: None,
        }
    }

    /// From the key, move to the value; from the value, commit and return to
    /// the main screen.
    pub open spec fn advanced(self) -> Session {
        match self.editing {
            Some(CurrentlyEditing::Key) => self.with_mode(
                self.screen,
                Some(CurrentlyEditing::Value),
            ),
            Some(CurrentlyEditing::Value) => self.committed().with_mode(
                CurrentScreen::Main,
                None,
            ),
            None => self,
        }
    }

    /// Back to the main screen; the buffers keep their text.
    pub open spec fn cancelled(self) -> Session {
        self.with_mode(CurrentScreen::Main, None)
    }

    /// The exit confirmation screen is shown.
    pub open spec fn exit_requested(self) -> Session {
        self.with_mode(CurrentScreen::Exiting, self.editing)
    }
}

/// An editing session.
pub struct App {
    /// The key being typed.
    key_input: String,
    /// The value being typed.
    value_input: String,
    /// The committed pairs, each key once.
    pairs: Vec<(String, String)>,
    /// The screen on display.
    current_screen: CurrentScreen,
    /// The buffer that receives characters, while one is being edited.
    currently_editing: Option<CurrentlyEditing>,
}

impl View for App {
    type V = Session;

    closed spec fn view(&self) -> Session {
        Session {
            key: self.key_input@,
            value: self.value_input@,
            pairs: to_map(entries_view(self.pairs@)),
            screen: self.current_screen,
            editing: self.currently_editing,
        }
    }
}

impl App {
    /// The committed pairs hold each key once.
    pub closed spec fn wf(&self) -> bool {
        keys_unique(entries_view(self.pairs@))
    }

    pub fn new() -> (r: Self)
        ensures
            r.wf(),
            r@.pairs.dom().finite(),
            r@ == Session::initial(),
    {
        let r = App {
            key_input: String::new(),
            value_input: String::new(),
            pairs: Vec::new(),
            current_screen: CurrentScreen::Main,
            currently_editing: None,
        };
        assert(entries_view(r.pairs@) =~= Seq::empty());
        assert(r@.key =~= Seq::empty());
        assert(r@.pairs =~= Map::empty());
        r
    }

    /// Adds the two buffers as a pair, replacing the value of an existing
    /// key, then empties both buffers and stops editing.
    pub fn set_key_value(&mut self)
        requires
            old(self).wf(),
        ensures
            final(self).wf(),
            final(self)@.pairs.dom().finite(),
            final(self)@ == old(self)@.committed(),
    {
        proof {
            lemma_to_map_finite(entries_view(self.pairs@));
        }
        let k = self.key_input.clone();
        let v = self.value_input.clone();
        insert_pair(&mut self.pairs, k, v);
        self.key_input = String::new();
        self.value_input = String::new();
        self.currently_editing = None;
        assert(self@.key =~= Seq::empty());
        assert(self@.value =~= Seq::empty());
    }

    /// Swaps between editing the key and the value; with nothing being
    /// edited, the key becomes the one edited.
    pub fn toggle_editing(&mut self)
        requires
            old(self).wf(),
        ensures
            final(self).wf(),
            final(self)@.pairs.dom().finite(),
            final(self)@ == old(self)@.toggled(),
    {
        proof {
            lemma_to_map_finite(entries_view(self.pairs@));
        }
        if let Some(edit_mode) = &self.currently_editing {
            match edit_mode {
                CurrentlyEditing::Key => self.currently_editing = Some(CurrentlyEditing::Value),
                CurrentlyEditing::Value => self.currently_editing = Some(CurrentlyEditing::Key),
            };
        } else {
            self.currently_editing = Some(CurrentlyEditing::Key);
        }
    }

    /// Shows the editing screen, with the key buffer receiving characters.
    pub fn begin_editing(&mut self)
        requires
            old(self).wf(),
        ensures
            final(self).wf(),
            final(self)@.pairs.dom().finite(),
            final(self)@ == old(self)@.begun(),
    {
        proof {
            lemma_to_map_finite(entries_view(self.pairs@));
        }
        self.current_screen = CurrentScreen::Editing;
        self.currently_editing = Some(CurrentlyEditing::Key);
    }

    /// Appends `c` to the buffer being edited; does nothing when none is.
    pub fn push_char_to_active(&mut self, c: char)
        requires
            old(self).wf(),
        ensures
            final(self).wf(),
            final(self)@.pairs.dom().finite(),
            final(self)@ == old(self)@.pushed(c),
    {
        proof {
            lemma_to_map_finite(entries_view(self.pairs@));
        }
        match self.currently_editing {
            Some(CurrentlyEditing::Key) => push_char(&mut self.key_input, c),
            Some(CurrentlyEditing::Value) => push_char(&mut self.value_input, c),
            None => {},
        }
    }

    /// Removes the last character of the buffer being edited; does nothing
    /// on an empty buffer or when none is being edited.
    pub fn pop_char_from_active(&mut self)
        requires
            old(self).wf(),
        ensures
            final(self).wf(),
            final(self)@.pairs.dom().finite(),
            final(self)@ == old(self)@.popped(),
    {
        proof {
            lemma_to_map_finite(entries_view(self.pairs@));
        }
        match self.currently_editing {
            Some(CurrentlyEditing::Key) => {
                let _ = pop_char(&mut self.key_input);
            },
            Some(CurrentlyEditing::Value) => {
                let _ = pop_char(&mut self.value_input);
            },
            None => {},
        }
    }

    /// Enter on the editing screen: from the key, moves on to the value;
    /// from the value, commits the pair and returns to the main screen.
    pub fn advance_or_commit(&mut self)
        requires
            old(self).wf(),
        ensures
            final(self).wf(),
            final(self)@.pairs.dom().finite(),
            final(self)@ == old(self)@.advanced(),
    {
        proof {
            lemma_to_map_finite(entries_view(self.pairs@));
        }
        match self.currently_editing {
            Some(CurrentlyEditing::Key) => {
                self.currently_editing = Some(CurrentlyEditing::Value);
            },
            Some(CurrentlyEditing::Value) => {
                self.set_key_value();
                self.current_screen = CurrentScreen::Main;
            },
            None => {},
        }
    }

    /// Leaves the editing screen without committing; the buffers keep their
    /// text and show again when editing resumes.
    pub fn cancel_editing(&mut self)
        requires
            old(self).wf(),
        ensures
            final(self).wf(),
            final(self)@.pairs.dom().finite(),
            final(self)@ == old(self)@.cancelled(),
    {
        proof {
            lemma_to_map_finite(entries_view(self.pairs@));
        }
        self.current_screen = CurrentScreen::Main;
        self.currently_editing = None;
    }

    /// Shows the exit confirmation screen.
    pub fn request_exit(&mut self)
        requires
            old(self).wf(),
        ensures
            final(self).wf(),
            final(self)@.pairs.dom().finite(),
            final(self)@ == old(self)@.exit_requested(),
    {
        proof {
            lemma_to_map_finite(entries_view(self.pairs@));
        }
        self.current_screen = CurrentScreen::Exiting;
    }

    /// Confirming the exit asks for the pairs to be printed.
    pub fn confirm_exit(&self) -> (serialize: bool)
        ensures
            serialize,
    {
        true
    }

    /// Declining the exit asks for nothing to be printed.
    pub fn decline_exit(&self) -> (serialize: bool)
        ensures
            !serialize,
    {
        false
    }

    /// The committed pairs as a compact JSON object: each key and value is
    /// encoded by serde_json as a JSON string, and the pairs come in the
    /// order they were first added. It always succeeds.
    pub fn to_json(&self) -> (r: Result<String, JsonError>)
        requires
            self.wf(),
        ensures
            r is Ok,
            self@.pairs.dom().len() == 0 ==> (r matches Ok(t) && t@ == seq!['{', '}']),
            r matches Ok(t) ==> exists|es: Seq<(Seq<char>, Seq<char>)>|
                keys_unique(es) && to_map(es) == self@.pairs && t@ == object_text(
                    #[trigger] encoded(es),
                ),
    {
        proof {
            lemma_to_map_finite(entries_view(self.pairs@));
        }
        match encode_entries(&self.pairs) {
            Ok(ms) => {
                let t = object_from_members(&ms);
                assert(t@ == object_text(encoded(entries_view(self.pairs@))));
                proof {
                    if self@.pairs.dom().len() == 0 {
                        assert(entries_view(self.pairs@).len() == 0);
                        assert(t@ =~= seq!['{', '}']);
                    }
                }
                Ok(t)
            },
            Err(e) => Err(e),
        }
    }

    pub fn key_input(&self) -> (r: &str)
        ensures
            r@ == self@.key,
    {
        self.key_input.as_str()
    }

    pub fn value_input(&self) -> (r: &str)
        ensures
            r@ == self@.value,
    {
        self.value_input.as_str()
    }

    /// The committed pairs, each key once, in the order they were first added.
    pub fn pairs(&self) -> (r: &Vec<(String, String)>)
        requires
            self.wf(),
        ensures
            keys_unique(entries_view(r@)),
            to_map(entries_view(r@)) == self@.pairs,
    {
        &self.pairs
    }

    pub fn current_screen(&self) -> (r: &CurrentScreen)
        ensures
            *r == self@.screen,
    {
        &self.current_screen
    }

    pub fn currently_editing(&self) -> (r: Option<&CurrentlyEditing>)
        ensures
            match r {
                Some(e) => self@.editing == Some(*e),
                None => self@.editing is None,
            },
    {
        self.currently_editing.as_ref()
    }
}

impl Default for App {
    fn default() -> (r: Self)
        ensures
            r.wf(),
            r@.pairs.dom().finite(),
            r@ == Session::initial(),
    {
        Self::new()
    }
}

} // verus!
