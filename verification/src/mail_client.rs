//! Which folder of the mailbox is opened.

use vstd::prelude::*;

verus! {

/// The name of the folder that is opened where none is asked for.
pub open spec fn inbox() -> Seq<char> {
    "INBOX"@
}

/// The part of the mail client that needs no connection: the folder that
/// the user asked for, if any.
#[derive(Debug)]
pub struct MailClient {
    folder: Option<String>,
}

impl MailClient {
    /// The folder that the user asked for.
    pub closed spec fn asked_folder(&self) -> Option<Seq<char>> {
        match self.folder {
            Some(name) => Some(name@),
            None => None,
        }
    }

    /// A client for the folder `folder`, or for the inbox where it is
    /// `None`.
    pub fn new(folder: Option<String>) -> (client: MailClient)
        ensures
            client.asked_folder() == match folder {
                Some(name) => Some(name@),
                None => None,
            },
    {
        MailClient { folder }
    }

    /// The name of the folder to open: the one asked for, else the inbox.
    pub fn folder_or_default(&self) -> (name: &str)
        ensures
            name@ == match self.asked_folder() {
                Some(folder) => folder,
                None => inbox(),
            },
    {
        match &self.folder {
            Some(name) => name.as_str(),
            None => "INBOX",
        }
    }
}

} // verus!
