//! A terminal form shell for a mail client: controls that nest, take
//! keyboard input only while they hold the focus, and pass the focus on.
//!
//! The tree of controls is made of fields ([`fields`]) and composites
//! ([`composite`]), which all keep the contract of [`control::Control`].
//! What the contract means is said over a mathematical model of the tree
//! ([`model`]); [`laws`] holds what is proved of every tree. The forms of
//! the application are in [`account_config`], the loop that feeds them key
//! events in [`dispatch`], and the state of the mail list in [`app`].
//!
//! Nothing here reads the keyboard or writes to the terminal: a control
//! takes a [`key::KeyEvent`] and hands out a [`surface::Scene`].

pub mod account_config;
pub mod app;
pub mod composite;
pub mod config;
pub mod control;
pub mod dirs;
pub mod dispatch;
pub mod fields;
pub mod key;
pub mod laws;
pub mod layout;
pub mod mail_client;
pub mod model;
pub mod proofs;
pub mod slots;
pub mod surface;
