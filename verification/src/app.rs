//! The mail list: which mail is selected, which one is read, and when the
//! application ends.
//!
//! Loading mails is the caller's part. A key event changes the state here
//! and may ask the caller for a mail; the caller hands the text back.

use crate::dispatch::RunningState;
use crate::key::{KeyCode, KeyEvent, KeyEventKind};
use crate::slots::{ring_after, ring_before};
use vstd::prelude::*;

verus! {

/// The colours of the cells of a row.
#[derive(Clone, Copy, Debug, PartialEq, Eq, Structural)]
pub enum Color {
    Green,
    Blue,
    Yellow,
    LightGreen,
    LightBlue,
    LightYellow,
}

/// A mail as the list shows it.
#[derive(Debug, PartialEq, Eq)]
pub struct Envelope {
    pub id: String,
    pub subject: String,
    pub from: String,
    pub date: String,
    /// Whether the mail has been read before.
    pub seen: bool,
}

/// What the caller is asked to do after a key event.
#[derive(Clone, Copy, Debug, PartialEq, Eq, Structural)]
pub enum Action {
    Nothing,
    /// Load the mail number `index` of the list and show its text.
    LoadMessage { index: usize },
}

/// The state of the mail list.
#[derive(Debug)]
pub struct App {
    envelopes: Vec<Envelope>,
    body: String,
    running_state: RunningState,
    selected: Option<usize>,
    folder_name: String,
}

/// The colours of subject, sender and date: the plain ones for a mail that
/// has been read, the light ones for a new one.
pub open spec fn row_palette(seen: bool) -> (Color, Color, Color) {
    if seen {
        (Color::Green, Color::Blue, Color::Yellow)
    } else {
        (Color::LightGreen, Color::LightBlue, Color::LightYellow)
    }
}

/// The selection after a step down the list of `count` mails: the mail
/// after the selected one, and the first after the last; where none is
/// selected, the step is taken from the first mail. An empty list has no
/// selection to move.
pub open spec fn selection_after_next(selected: Option<usize>, count: nat) -> Option<usize> {
    if count == 0 {
        selected
    } else {
        Some(
            ring_after(
                match selected {
                    Some(i) => i as int,
                    None => 0,
                },
                count as int,
            ) as usize,
        )
    }
}

/// The selection after a step up the list of `count` mails: the mail
/// before the selected one, and the last before the first; where none is
/// selected, the step is taken from the first mail. An empty list has no
/// selection to move.
pub open spec fn selection_after_previous(selected: Option<usize>, count: nat) -> Option<usize> {
    if count == 0 {
        selected
    } else {
        Some(
            ring_before(
                match selected {
                    Some(i) => i as int,
                    None => 0,
                },
                count as int,
            ) as usize,
        )
    }
}

/// The mail that the view key opens: the selected one, or the first where
/// none is selected; none in an empty list.
pub open spec fn message_to_open(selected: Option<usize>, count: nat) -> Action {
    let index = match selected {
        Some(i) => i,
        None => 0,
    };
    if index < count {
        Action::LoadMessage { index }
    } else {
        Action::Nothing
    }
}

/// Whether a key press ends the application.
pub open spec fn quits(code: KeyCode) -> bool {
    code == KeyCode::Char('q') || code == KeyCode::Esc
}

/// Whether a key press moves the selection down.
pub open spec fn moves_down(code: KeyCode) -> bool {
    code == KeyCode::Char('j') || code == KeyCode::Down
}

/// Whether a key press moves the selection up.
pub open spec fn moves_up(code: KeyCode) -> bool {
    code == KeyCode::Char('k') || code == KeyCode::Up
}

impl Envelope {
    /// The colours of subject, sender and date in the row of this mail.
    pub fn colors(&self) -> (palette: (Color, Color, Color))
        ensures
            palette == row_palette(self.seen),
    {
        if self.seen {
            (Color::Green, Color::Blue, Color::Yellow)
        } else {
            (Color::LightGreen, Color::LightBlue, Color::LightYellow)
        }
    }
}

impl App {
    /// The number of mails in the list.
    pub closed spec fn count(&self) -> nat {
        self.envelopes@.len()
    }

    /// The number of the selected mail.
    pub closed spec fn selection(&self) -> Option<usize> {
        self.selected
    }

    /// Whether the application goes on.
    pub closed spec fn state(&self) -> RunningState {
        self.running_state
    }

    /// The text of the mail that is shown.
    pub closed spec fn shown_text(&self) -> Seq<char> {
        self.body@
    }

    /// The mails of the list.
    pub closed spec fn mails(&self) -> Seq<Envelope> {
        self.envelopes@
    }

    /// The name of the folder that the list shows.
    pub closed spec fn folder(&self) -> Seq<char> {
        self.folder_name@
    }

    /// Whether the selection, if there is one, is a mail of the list.
    pub open spec fn inv(&self) -> bool {
        self.selection() matches Some(i) ==> i < self.count()
    }

    /// The running application for the folder `folder_name`, with an empty
    /// list, nothing selected and no text shown.
    pub fn new(folder_name: String) -> (app: App)
        ensures
            app.count() == 0,
            app.selection() is None,
            app.state() == RunningState::Running,
            app.shown_text() == Seq::<char>::empty(),
            app.folder() == folder_name@,
            app.inv(),
    {
        App {
            envelopes: Vec::new(),
            body: String::new(),
            running_state: RunningState::Running,
            selected: None,
            folder_name,
        }
    }

    /// Puts `envelopes` in the list. Nothing is selected afterwards.
    pub fn set_envelopes(&mut self, envelopes: Vec<Envelope>)
        ensures
            final(self).mails() == envelopes@,
            final(self).count() == envelopes.len(),
            final(self).selection() is None,
            final(self).state() == old(self).state(),
            final(self).shown_text() == old(self).shown_text(),
            final(self).folder() == old(self).folder(),
            final(self).inv(),
    {
        self.envelopes = envelopes;
        self.selected = None;
    }

    /// Shows `text` as the mail that is read.
    pub fn show_message(&mut self, text: String)
        ensures
            final(self).shown_text() == text@,
            final(self).mails() == old(self).mails(),
            final(self).count() == old(self).count(),
            final(self).selection() == old(self).selection(),
            final(self).state() == old(self).state(),
            final(self).folder() == old(self).folder(),
    {
        self.body = text;
    }

    /// Whether the application goes on.
    pub fn is_running(&self) -> (running: bool)
        ensures
            running == (self.state() == RunningState::Running),
    {
        match self.running_state {
            RunningState::Running => true,
            RunningState::Finished => false,
        }
    }

    /// The number of mails in the list.
    pub fn envelope_count(&self) -> (count: usize)
        ensures
            count == self.count(),
    {
        self.envelopes.len()
    }

    /// The mails of the list.
    pub fn envelopes(&self) -> (envelopes: &Vec<Envelope>)
        ensures
            envelopes@ == self.mails(),
    {
        &self.envelopes
    }

    /// The number of the selected mail.
    pub fn selected(&self) -> (selected: Option<usize>)
        ensures
            selected == self.selection(),
    {
        self.selected
    }

    /// The text of the mail that is shown.
    pub fn body(&self) -> (body: &str)
        ensures
            body@ == self.shown_text(),
    {
        self.body.as_str()
    }

    /// The name of the folder that the list shows.
    pub fn folder_name(&self) -> (name: &str)
        ensures
            name@ == self.folder(),
    {
        self.folder_name.as_str()
    }

    /// Ends the application.
    pub fn quit(&mut self)
        ensures
            final(self).state() == RunningState::Finished,
            final(self).mails() == old(self).mails(),
            final(self).count() == old(self).count(),
            final(self).selection() == old(self).selection(),
            final(self).shown_text() == old(self).shown_text(),
            final(self).folder() == old(self).folder(),
    {
        self.running_state = RunningState::Finished;
    }

    /// Moves the selection one mail down, and from the last to the first.
    pub fn next(&mut self)
        requires
            old(self).inv(),
        ensures
            final(self).selection() == selection_after_next(
                old(self).selection(),
                old(self).count(),
            ),
            final(self).mails() == old(self).mails(),
            final(self).count() == old(self).count(),
            final(self).state() == old(self).state(),
            final(self).shown_text() == old(self).shown_text(),
            final(self).folder() == old(self).folder(),
            final(self).inv(),
    {
        let count = self.envelopes.len();
        if count == 0 {
            return ;
        }
        let current = match self.selected {
            Some(i) => i,
            None => 0,
        };
        self.selected = Some(
            if current + 1 == count {
                0
            } else {
                current + 1
            },
        );
    }

    /// Moves the selection one mail up, and from the first to the last.
    pub fn previous(&mut self)
        requires
            old(self).inv(),
        ensures
            final(self).selection() == selection_after_previous(
                old(self).selection(),
                old(self).count(),
            ),
            final(self).mails() == old(self).mails(),
            final(self).count() == old(self).count(),
            final(self).state() == old(self).state(),
            final(self).shown_text() == old(self).shown_text(),
            final(self).folder() == old(self).folder(),
            final(self).inv(),
    {
        let count = self.envelopes.len();
        if count == 0 {
            return ;
        }
        let current = match self.selected {
            Some(i) => i,
            None => 0,
        };
        self.selected = Some(
            if current == 0 {
                count - 1
            } else {
                current - 1
            },
        );
    }

    /// The mail that the view key opens.
    pub fn message_to_load(&self) -> (action: Action)
        ensures
            action == message_to_open(self.selection(), self.count()),
    {
        let index = match self.selected {
            Some(i) => i,
            None => 0,
        };
        if index < self.envelopes.len() {
            Action::LoadMessage { index }
        } else {
            Action::Nothing
        }
    }

    /// Takes one event. Only the press of a key counts: `q` and escape end
    /// the application, `j` and down, `k` and up move the selection, and
    /// the blank asks the caller to load the selected mail. Nothing else
    /// changes anything.
    pub fn handle_key_event(&mut self, key: KeyEvent) -> (action: Action)
        requires
            old(self).inv(),
        ensures
            final(self).inv(),
            final(self).mails() == old(self).mails(),
            final(self).count() == old(self).count(),
            final(self).shown_text() == old(self).shown_text(),
            final(self).folder() == old(self).folder(),
            final(self).state() == if key.kind == KeyEventKind::Press && quits(key.code) {
                RunningState::Finished
            } else {
                old(self).state()
            },
            final(self).selection() == if key.kind != KeyEventKind::Press {
                old(self).selection()
            } else if moves_down(key.code) {
                selection_after_next(old(self).selection(), old(self).count())
            } else if moves_up(key.code) {
                selection_after_previous(old(self).selection(), old(self).count())
            } else {
                old(self).selection()
            },
            action == if key.kind == KeyEventKind::Press && key.code == KeyCode::Char(' ') {
                message_to_open(old(self).selection(), old(self).count())
            } else {
                Action::Nothing
            },
    {
        if !key.is_press() {
            return Action::Nothing;
        }
        match key.code {
            KeyCode::Esc => {
                self.quit();
                Action::Nothing
            },
            KeyCode::Down => {
                self.next();
                Action::Nothing
            },
            KeyCode::Up => {
                self.previous();
                Action::Nothing
            },
            KeyCode::Char(c) => {
                if c == 'q' {
                    self.quit();
                    Action::Nothing
                } else if c == 'j' {
                    self.next();
                    Action::Nothing
                } else if c == 'k' {
                    self.previous();
                    Action::Nothing
                } else if c == ' ' {
                    self.message_to_load()
                } else {
                    Action::Nothing
                }
            },
            _ => Action::Nothing,
        }
    }
}

} // verus!
