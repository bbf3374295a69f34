//! The dispatch loop: one key event at a time goes to the root control,
//! until the quit key ends the loop.
//!
//! Reading the events and drawing the scenes is the caller's part; what
//! the loop decides on each event is here.

use crate::control::Control;
use crate::key::{KeyCode, KeyEvent, KeyEventKind};
use crate::model::Model;
use crate::surface::{Rect, Scene, depicts};
use vstd::prelude::*;

verus! {

/// Whether the loop goes on.
#[derive(Clone, Copy, Debug, PartialEq, Eq, Structural)]
pub enum RunningState {
    Running,
    /// The loop has ended, and stays so.
    Finished,
}

/// The loop and the tree of controls that it drives.
#[derive(Debug)]
pub struct DispatchLoop<C: Control> {
    running_state: RunningState,
    root: C,
}

/// The state of the loop after an event, given the state before it: the
/// press of the quit key ends the loop; nothing else changes the state, and
/// nothing brings a finished loop back to running.
pub open spec fn next_state(state: RunningState, key: KeyEvent) -> RunningState {
    if key.kind == KeyEventKind::Press && key.code == KeyCode::Esc {
        RunningState::Finished
    } else {
        state
    }
}

/// Whether an event goes to the root control: the press of any key but
/// the quit key does.
pub open spec fn dispatched(key: KeyEvent) -> bool {
    key.kind == KeyEventKind::Press && key.code != KeyCode::Esc
}

impl<C: Control> DispatchLoop<C> {
    /// The state of the loop.
    pub closed spec fn state(&self) -> RunningState {
        self.running_state
    }

    /// The root control, as the contracts see it.
    pub closed spec fn model(&self) -> Model {
        self.root.model()
    }

    /// Whether the tree is well formed and holds the focus, on shown
    /// slots all the way down.
    pub open spec fn inv(&self) -> bool {
        self.model().wf() && self.model().focused() && self.model().settled()
    }

    /// A running loop over `root`, which gains the focus.
    pub fn new(root: C) -> (app: DispatchLoop<C>)
        requires
            root.model().wf(),
        ensures
            app.state() == RunningState::Running,
            app.model() == root.model().with_focus(),
            app.inv(),
            app.model().focused_leaves() == 1,
    {
        let mut root = root;
        root.focus();
        DispatchLoop { running_state: RunningState::Running, root }
    }

    /// Whether the loop goes on.
    pub fn is_running(&self) -> (running: bool)
        ensures
            running == (self.state() == RunningState::Running),
    {
        match self.running_state {
            RunningState::Running => true,
            RunningState::Finished => false,
        }
    }

    /// The root control.
    pub fn root(&self) -> (root: &C)
        ensures
            root.model() == self.model(),
    {
        &self.root
    }

    /// Takes one event. Only the press of a key counts: the quit key ends
    /// the loop, any other key goes to the root control, once, and whether
    /// the root consumed it is of no account. A key that no control has a
    /// use for changes nothing in the tree.
    pub fn handle_key_event(&mut self, key: KeyEvent)
        requires
            old(self).inv(),
        ensures
            final(self).state() == next_state(old(self).state(), key),
            final(self).model() == if dispatched(key) {
                old(self).model().after_key(key)
            } else {
                old(self).model()
            },
            !key.code.has_handler() ==> final(self).model() == old(self).model(),
            final(self).inv(),
            final(self).model().focused_leaves() == 1,
    {
        proof {
            crate::proofs::lemma_focused_leaves(self.model());
        }
        if !key.is_press() {
            return ;
        }
        match key.code {
            KeyCode::Esc => {
                self.quit();
            },
            _ => {
                let _ = self.root.handle_key_event(key);
            },
        }
    }

    /// Ends the loop.
    pub fn quit(&mut self)
        ensures
            final(self).state() == RunningState::Finished,
            final(self).model() == old(self).model(),
    {
        self.running_state = RunningState::Finished;
    }

    /// What the tree looks like in `area`.
    pub fn render(&self, area: Rect) -> (scene: Scene)
        requires
            self.inv(),
        ensures
            depicts(self.model(), area, scene@),
            scene@.area() == area,
    {
        self.root.render(area)
    }
}

} // verus!
