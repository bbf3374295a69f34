//! The form in which an account is configured, and the panels in it.

mod account_config;
mod imap_config;
mod maildir_config;
mod view;

pub use account_config::{
    AccountConfig, AccountSlot, BACKEND_IMAP, BACKEND_MAILDIR, BACKEND_NONE, IMAP_ROWS,
    MAILDIR_ROWS, account_model, backend_options, has_account_frame, lemma_account_frame,
    lemma_account_frame_is_kept,
};
pub use imap_config::{
    ImapConfig, ImapSlot, has_imap_frame, imap_model, lemma_imap_frame_is_kept, protocol_options,
};
pub use maildir_config::{MaildirConfig, mail_directory, maildir_model};
pub use view::{AccountConfigView, chosen_backend, heading, ring_model, screen_heights};
