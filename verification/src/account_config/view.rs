//! The screen on which an account is configured: a heading, the four
//! fields of the account, and below them the panel of the chosen backend.
//!
//! The focus goes round the four fields. The panel is shown, but the focus
//! and the keys never reach it.

use crate::account_config::account_config::{
    AccountSlot, BACKEND_IMAP, BACKEND_MAILDIR, backend_options,
};
use crate::account_config::imap_config::{ImapConfig, imap_model};
use crate::account_config::maildir_config::{MaildirConfig, maildir_model};
use crate::composite::{Composite, Node, Slot, fit_for_composite, slot_models};
use crate::control::Control;
use crate::fields::{SelectField, TextField};
use crate::key::KeyEvent;
use crate::layout::split_rows;
use crate::model::{Gate, Model, SlotModel};
use crate::proofs::{
    lemma_key_keeps_frame, lemma_same_frame_trans, lemma_unfocused_is_quiet, lemma_with_focus,
};
use crate::slots::FocusPolicy;
use crate::surface::{Emphasis, Rect, Scene, SceneView, Span, SpanView, depicts};
use vstd::prelude::*;
use vstd::string::StringExecFns;

verus! {

/// The screen for an account: it owns the four fields and the two panels,
/// keeps the focus among the fields, and is the last to see a key event.
#[derive(Debug)]
pub struct AccountConfigView {
    ring: Composite,
    imap_config: ImapConfig,
    maildir_config: MaildirConfig,
}

/// What the heading of the screen says.
pub open spec fn heading() -> Seq<SpanView> {
    seq![SpanView { content: "Configure Account"@, emphasis: Emphasis::Normal }]
}

/// The four fields of the screen as they are made: empty, the IMAP backend
/// chosen, focus on the account name slot, and no field holding it. The
/// focus wraps round at both ends.
pub open spec fn ring_model() -> Model {
    Model::Group {
        title: "Configure Account"@,
        policy: FocusPolicy::BoundedCycling,
        focus: 0,
        slots: seq![
            SlotModel {
                gate: Gate::Always,
                height: 1,
                model: Model::Text { label: "Account Name"@, value: Seq::empty(), focused: false },
            },
            SlotModel {
                gate: Gate::Always,
                height: 1,
                model: Model::Text { label: "Email"@, value: Seq::empty(), focused: false },
            },
            SlotModel {
                gate: Gate::Always,
                height: 1,
                model: Model::Text { label: "Display Name"@, value: Seq::empty(), focused: false },
            },
            SlotModel {
                gate: Gate::Always,
                height: 1,
                model: Model::Select {
                    label: "Backend"@,
                    options: backend_options(),
                    index: 0,
                    focused: false,
                },
            },
        ],
    }
}

/// The number of the backend that the four fields of a screen have
/// chosen.
pub open spec fn chosen_backend(ring: Model) -> int {
    match ring.slots()[3].model {
        Model::Select { index, .. } => index,
        _ => -1,
    }
}

/// The heights that the rows of the screen ask for in an area of the given
/// height: one for the heading, one for each field, and what is left for
/// the panel.
pub open spec fn screen_heights(height: u16) -> Seq<u16> {
    seq![
        1u16,
        1u16,
        1u16,
        1u16,
        1u16,
        if height >= 5 {
            (height - 5) as u16
        } else {
            0u16
        },
    ]
}

impl AccountConfigView {
    /// The four fields of the screen, as the contracts see them.
    pub closed spec fn model(&self) -> Model {
        self.ring.model()
    }

    /// The IMAP panel of the screen, as the contracts see it.
    pub closed spec fn imap_panel(&self) -> Model {
        self.imap_config.model()
    }

    /// The mail directory panel of the screen, as the contracts see it.
    pub closed spec fn maildir_panel(&self) -> Model {
        self.maildir_config.model()
    }

    /// Whether the screen is in order: the four fields are those it was
    /// made with, are well formed and hold the focus; the panels are well
    /// formed and hold none.
    pub open spec fn inv(&self) -> bool {
        &&& self.model().wf()
        &&& self.model().focused()
        &&& self.model().settled()
        &&& ring_model().same_frame(self.model())
        &&& self.imap_panel().wf()
        &&& self.imap_panel().quiet()
        &&& self.maildir_panel().wf()
        &&& self.maildir_panel().quiet()
    }

    /// The screen with empty fields and the given panels. The first field
    /// gains the focus; the panels lose it if they hold it.
    pub fn new(imap: ImapConfig, maildir: MaildirConfig) -> (view: AccountConfigView)
        requires
            imap.model().wf(),
            maildir.model().wf(),
        ensures
            view.model() == ring_model().with_focus(),
            view.imap_panel() == imap.model().blurred(),
            view.maildir_panel() == maildir.model().blurred(),
            view.inv(),
            view.model().focused_leaves() == 1,
    {
        let mut imap_config = imap;
        let mut maildir_config = maildir;
        imap_config.blur();
        maildir_config.blur();
        let mut backends: Vec<&'static str> = Vec::new();
        backends.push("IMAP");
        backends.push("Maildir");
        backends.push("None");
        let backend = SelectField::new("Backend", backends);
        assert(backend.model()->Select_options =~= backend_options());
        let mut slots: Vec<Slot> = Vec::new();
        slots.push(Slot::always(Node::text(TextField::new("Account Name")), 1));
        slots.push(Slot::always(Node::text(TextField::new("Email")), 1));
        slots.push(Slot::always(Node::text(TextField::new("Display Name")), 1));
        slots.push(Slot::always(Node::select(backend), 1));
        proof {
            assert(slot_models(slots@) =~= ring_model().slots());
            assert(fit_for_composite(slot_models(slots@)));
            lemma_unfocused_is_quiet(imap_config.model());
            lemma_unfocused_is_quiet(maildir_config.model());
        }
        let mut ring = match Composite::new(
            String::from_str("Configure Account"),
            FocusPolicy::BoundedCycling,
            slots,
        ) {
            Some(ring) => ring,
            None => vstd::pervasive::unreached(),
        };
        proof {
            assert(ring.model() == ring_model());
            lemma_with_focus(ring_model());
            crate::proofs::lemma_content_has_frame(ring_model(), ring_model().with_focus());
        }
        ring.focus();
        AccountConfigView { ring, imap_config, maildir_config }
    }

    /// The screen with empty fields, an empty IMAP panel and a mail
    /// directory panel for `directory`.
    pub fn with_mail_directory(directory: String) -> (view: AccountConfigView)
        ensures
            view.model() == ring_model().with_focus(),
            view.imap_panel() == imap_model(FocusPolicy::ClampedDelegation).blurred(),
            view.maildir_panel() == maildir_model(
                FocusPolicy::ClampedDelegation,
                directory@,
            ).blurred(),
            view.inv(),
            view.model().focused_leaves() == 1,
    {
        AccountConfigView::new(ImapConfig::default(), MaildirConfig::with_directory(directory))
    }

    /// The four fields of the screen.
    pub fn fields(&self) -> (ring: &Composite)
        ensures
            ring.model() == self.model(),
    {
        &self.ring
    }

    /// The IMAP panel of the screen.
    pub fn imap_config(&self) -> (panel: &ImapConfig)
        ensures
            panel.model() == self.imap_panel(),
    {
        &self.imap_config
    }

    /// The mail directory panel of the screen.
    pub fn maildir_config(&self) -> (panel: &MaildirConfig)
        ensures
            panel.model() == self.maildir_panel(),
    {
        &self.maildir_config
    }

    /// The field that is in focus.
    pub fn focused_slot(&self) -> (slot: AccountSlot)
        requires
            self.inv(),
        ensures
            slot.index() == self.model().focus_slot(),
            slot.index() < 4,
    {
        match AccountSlot::from_repr(self.ring.focus_index()) {
            Some(slot) => slot,
            None => vstd::pervasive::unreached(),
        }
    }

    /// The number of the backend that is chosen.
    pub fn backend(&self) -> (option: usize)
        requires
            self.inv(),
        ensures
            option == chosen_backend(self.model()),
            option < 3,
    {
        proof {
            assert(ring_model().slots().len() == 4);
            assert(ring_model().slots()[3].model.same_frame(self.model().slots()[3].model));
            assert(backend_options().len() == 3);
            assert(self.model().slots()[3].model.wf());
        }
        let node = self.ring.slot(3).node();
        proof {
            node.lemma_kind();
        }
        match node {
            Node::Select(field) => field.selected_index(),
            _ => vstd::pervasive::unreached(),
        }
    }

    /// Hands a key event to the field in focus; the keys that the field
    /// leaves over move the focus round the four fields. The panels get no
    /// key. What is not consumed is dropped: nothing stands above the
    /// screen.
    pub fn handle_key_event(&mut self, event: KeyEvent)
        requires
            old(self).inv(),
        ensures
            final(self).model() == old(self).model().after_key(event),
            final(self).imap_panel() == old(self).imap_panel(),
            final(self).maildir_panel() == old(self).maildir_panel(),
            !event.code.has_handler() ==> final(self).model() == old(self).model(),
            final(self).inv(),
            final(self).model().focused_leaves() == 1,
    {
        proof {
            lemma_key_keeps_frame(self.model(), event);
            lemma_same_frame_trans(ring_model(), self.model(), self.model().after_key(event));
        }
        let _ = self.ring.handle_key_event(event);
    }

    /// What the screen looks like in `area`, from top to bottom: the
    /// heading, the four fields in a row each, and in what is left the
    /// panel of the chosen backend, if one is chosen.
    pub fn render(&self, area: Rect) -> (scenes: Vec<Scene>)
        requires
            self.inv(),
        ensures
            scenes.len() == if chosen_backend(self.model()) == BACKEND_IMAP || chosen_backend(
                self.model(),
            ) == BACKEND_MAILDIR {
                6int
            } else {
                5int
            },
            scenes[0]@ == (SceneView::Line { area: scenes[0]@.area(), spans: heading() }),
            forall|i: int|
                0 <= i < 4 ==> depicts(
                    self.model().slots()[i].model,
                    (#[trigger] scenes[i + 1])@.area(),
                    scenes[i + 1]@,
                ),
            chosen_backend(self.model()) == BACKEND_IMAP ==> depicts(
                self.imap_panel(),
                scenes[5]@.area(),
                scenes[5]@,
            ),
            chosen_backend(self.model()) == BACKEND_MAILDIR ==> depicts(
                self.maildir_panel(),
                scenes[5]@.area(),
                scenes[5]@,
            ),
            forall|k: int| 0 <= k < scenes.len() ==> area.has_row((#[trigger] scenes[k])@.area()),
            area.has_room_for(screen_heights(area.height)) ==> forall|k: int|
                0 <= k < scenes.len() ==> (#[trigger] scenes[k])@.area() == area.stacked_row(
                    screen_heights(area.height),
                    k,
                ),
    {
        let rest: u16 = if area.height >= 5 {
            area.height - 5
        } else {
            0
        };
        let mut heights: Vec<u16> = Vec::new();
        heights.push(1);
        heights.push(1);
        heights.push(1);
        heights.push(1);
        heights.push(1);
        heights.push(rest);
        assert(heights@ =~= screen_heights(area.height));
        let bands = split_rows(area, &heights);
        let mut spans: Vec<Span> = Vec::new();
        spans.push(Span::new(String::from_str("Configure Account"), Emphasis::Normal));
        let title = Scene::Line { area: bands[0], spans };
        assert(title@->spans =~= heading());
        let option = self.backend();
        let mut scenes: Vec<Scene> = Vec::new();
        scenes.push(title);
        scenes.push(self.ring.slot(0).node().render(bands[1]));
        scenes.push(self.ring.slot(1).node().render(bands[2]));
        scenes.push(self.ring.slot(2).node().render(bands[3]));
        scenes.push(self.ring.slot(3).node().render(bands[4]));
        if option == BACKEND_IMAP {
            scenes.push(self.imap_config.render(bands[5]));
        } else if option == BACKEND_MAILDIR {
            scenes.push(self.maildir_config.render(bands[5]));
        }
        proof {
            assert forall|k: int| 0 <= k < scenes.len() implies (#[trigger] scenes[k])@.area()
                == bands[k] by {}
        }
        scenes
    }
}

impl Default for AccountConfigView {
    /// The screen with empty fields, an empty IMAP panel, and the suggested
    /// mail directory in the other panel. What the directory is depends on
    /// the platform.
    fn default() -> (view: AccountConfigView)
        ensures
            view.model() == ring_model().with_focus(),
            view.imap_panel() == imap_model(FocusPolicy::ClampedDelegation).blurred(),
            exists|directory: Seq<char>|
                view.maildir_panel() == maildir_model(
                    FocusPolicy::ClampedDelegation,
                    directory,
                ).blurred(),
            view.inv(),
            view.model().focused_leaves() == 1,
    {
        AccountConfigView::new(ImapConfig::default(), MaildirConfig::default())
    }
}

} // verus!
