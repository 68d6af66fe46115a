//! Reading key events: each press maps to at most one operation on the
//! session, chosen by the screen on display.
use vstd::prelude::*;

use crate::app::{App, CurrentScreen, Session};

verus! {

/// Whether a key went down, auto-repeated or came up.
#[derive(Clone, Copy, Debug, PartialEq, Eq, Structural)]
pub enum KeyPhase {
    Press,
    Repeat,
    Release,
}

/// The keys the editor tells apart.
#[derive(Clone, Copy, Debug, PartialEq, Eq, Structural)]
pub enum KeyCode {
    Char(char),
    Enter,
    Backspace,
    Esc,
    Tab,
    Other,
}

/// One key event.
#[derive(Clone, Copy, Debug, PartialEq, Eq, Structural)]
pub struct KeyInput {
    pub code: KeyCode,
    pub phase: KeyPhase,
}

/// Whether the event loop goes on, or ends and whether the pairs are then printed.
#[derive(Clone, Copy, Debug, PartialEq, Eq, Structural)]
pub enum Flow {
    Running,
    Terminated { serialize: bool },
}

/// The session after `key`, and whether the loop goes on.
pub open spec fn dispatch(s: Session, key: KeyInput) -> (Session, Flow) {
    if key.phase == KeyPhase::Release {
        (s, Flow::Running)
    } else {
        match s.screen {
            CurrentScreen::Main => match key.code {
                KeyCode::Char('e') => (s.begun(), Flow::Running),
                KeyCode::Char('q') => (s.exit_requested(), Flow::Running),
                _ => (s, Flow::Running),
            },
            CurrentScreen::Exiting => match key.code {
                KeyCode::Char('y') => (s, Flow::Terminated { serialize: true }),
                KeyCode::Char('n') | KeyCode::Char('q') => (s, Flow::Terminated { serialize: false }),
                _ => (s, Flow::Running),
            },
            CurrentScreen::Editing => if key.phase != KeyPhase::Press {
                (s, Flow::Running)
            } else {
                match key.code {
                    KeyCode::Enter => (s.advanced(), Flow::Running),
                    KeyCode::Backspace => (s.popped(), Flow::Running),
                    KeyCode::Esc => (s.cancelled(), Flow::Running),
                    KeyCode::Tab => (s.toggled(), Flow::Running),
                    KeyCode::Char(c) => (s.pushed(c), Flow::Running),
                    KeyCode::Other => (s, Flow::Running),
                }
            },
        }
    }
}

impl App {
    /// Applies the operation that `key` stands for on the current screen, and
    /// says whether the event loop goes on. Releases are always ignored; on
    /// the editing screen only presses count, not auto-repeats.
    pub fn handle_key(&mut self, key: KeyInput) -> (flow: Flow)
        requires
            old(self).wf(),
        ensures
            final(self).wf(),
            (final(self)@, flow) == dispatch(old(self)@, key),
    {
        if key.phase == KeyPhase::Release {
            return Flow::Running;
        }
        match *self.current_screen() {
            CurrentScreen::Main => match key.code {
                KeyCode::Char('e') => self.begin_editing(),
                KeyCode::Char('q') => self.request_exit(),
                _ => {},
            },
            CurrentScreen::Exiting => match key.code {
                KeyCode::Char('y') => {
                    return Flow::Terminated { serialize: self.confirm_exit() };
                },
                KeyCode::Char('n') | KeyCode::Char('q') => {
                    return Flow::Terminated { serialize: self.decline_exit() };
                },
                _ => {},
            },
            CurrentScreen::Editing => {
                if key.phase == KeyPhase::Press {
                    match key.code {
                        KeyCode::Enter => self.advance_or_commit(),
                        KeyCode::Backspace => self.pop_char_from_active(),
                        KeyCode::Esc => self.cancel_editing(),
                        KeyCode::Tab => self.toggle_editing(),
                        KeyCode::Char(c) => self.push_char_to_active(c),
                        KeyCode::Other => {},
                    }
                }
            },
        }
        Flow::Running
    }
}

} // verus!
