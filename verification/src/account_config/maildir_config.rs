//! The panel with the settings of a mail directory.

use crate::composite::{Composite, Node, Slot, fit_for_composite, slot_models};
use crate::control::Control;
use crate::dirs::{joined_path, path_join, path_text, path_to_text, user_dirs, user_home_dir};
use std::path::PathBuf;
use crate::fields::TextField;
use crate::key::KeyEvent;
use crate::model::{Gate, Model, SlotModel};
use crate::slots::FocusPolicy;
use crate::surface::{Rect, Scene};
use std::ops::ControlFlow;
use vstd::prelude::*;
use vstd::string::StringExecFns;

verus! {

/// The settings of a mail directory: one slot, with the path of the
/// directory.
#[derive(Debug)]
pub struct MaildirConfig {
    form: Composite,
}

/// The panel as it is made: the directory field holds `directory`, and
/// does not hold the focus.
pub open spec fn maildir_model(policy: FocusPolicy, directory: Seq<char>) -> Model {
    Model::Group {
        title: "Maildir Config"@,
        policy,
        focus: 0,
        slots: seq![
            SlotModel {
                gate: Gate::Always,
                height: 1,
                model: Model::Text {
                    label: "Maildir directory"@,
                    value: directory,
                    focused: false,
                },
            },
        ],
    }
}

/// The directory that is suggested to a user whose home directory is
/// `home`: the text of `Mail` below it; and nothing to a user without home
/// directory.
pub open spec fn mail_directory(home: Option<PathBuf>) -> Seq<char> {
    match home {
        Some(home) => path_text(joined_path(home, "Mail"@)),
        None => Seq::empty(),
    }
}

impl MaildirConfig {
    /// The panel with `directory` in its field and the given focus policy.
    pub fn new(policy: FocusPolicy, directory: String) -> (config: MaildirConfig)
        ensures
            config.model() == maildir_model(policy, directory@),
            config.model().wf(),
    {
        let field = TextField::with_default_value("Maildir directory", directory);
        let mut slots: Vec<Slot> = Vec::new();
        slots.push(Slot::always(Node::text(field), 1));
        assert(slot_models(slots@) =~= maildir_model(policy, directory@).slots());
        assert(fit_for_composite(slot_models(slots@)));
        match Composite::new(String::from_str("Maildir Config"), policy, slots) {
            Some(form) => MaildirConfig { form },
            None => vstd::pervasive::unreached(),
        }
    }

    /// The panel as a slot of a larger form has it: under clamped
    /// delegation, so that the focus keys pass on to the form.
    pub fn with_directory(directory: String) -> (config: MaildirConfig)
        ensures
            config.model() == maildir_model(FocusPolicy::ClampedDelegation, directory@),
            config.model().wf(),
    {
        MaildirConfig::new(FocusPolicy::ClampedDelegation, directory)
    }

    /// The directory that a user whose home directory is `home` will most
    /// likely want, and nothing for a user without home directory.
    pub fn directory_for(home: Option<PathBuf>) -> (directory: String)
        ensures
            directory@ == mail_directory(home),
    {
        match home {
            Some(home) => path_to_text(&path_join(&home, "Mail")),
            None => String::new(),
        }
    }

    /// The directory that the user will most likely want: `Mail` in the
    /// home directory, and nothing where the platform knows of no home
    /// directory. Which home directory there is, the platform says.
    pub fn suggested_directory() -> (directory: String)
        ensures
            exists|home: Option<PathBuf>| directory@ == mail_directory(home),
    {
        let home = match user_dirs() {
            Some(dirs) => Some(user_home_dir(&dirs)),
            None => None,
        };
        let ghost seen = home;
        let directory = MaildirConfig::directory_for(home);
        assert(directory@ == mail_directory(seen));
        directory
    }

    /// The composite that the panel is.
    pub fn as_composite(&self) -> (form: &Composite)
        ensures
            form.model() == self.model(),
    {
        &self.form
    }

    /// The composite that the panel is, to put it in a slot.
    pub fn into_composite(self) -> (form: Composite)
        ensures
            form.model() == self.model(),
    {
        self.form
    }
}

impl Default for MaildirConfig {
    /// The panel under clamped delegation with the suggested directory in
    /// its field. What the directory is depends on the platform.
    fn default() -> (config: MaildirConfig)
        ensures
            exists|directory: Seq<char>|
                config.model() == maildir_model(FocusPolicy::ClampedDelegation, directory),
            config.model().wf(),
    {
        MaildirConfig::with_directory(MaildirConfig::suggested_directory())
    }
}

impl Control for MaildirConfig {
    closed spec fn model(&self) -> Model {
        self.form.model()
    }

    fn render(&self, area: Rect) -> (scene: Scene) {
        self.form.render(area)
    }

    fn focus(&mut self) {
        self.form.focus()
    }

    fn blur(&mut self) {
        self.form.blur()
    }

    fn handle_key_event(&mut self, key: KeyEvent) -> (flow: ControlFlow<()>) {
        self.form.handle_key_event(key)
    }
}

} // verus!
