//! The about view. It keeps no state of its own.

use vstd::prelude::*;

verus! {

/// An event of the about view.
#[derive(Debug, PartialEq, Eq)]
pub enum Message {
    UrlPressed(String),
    UpdateUadLists,
    DoSelfUpdate,
}

/// Two events of the about view say the same.
pub open spec fn alike(a: Message, b: Message) -> bool {
    match (a, b) {
        (Message::UrlPressed(x), Message::UrlPressed(y)) => x@ == y@,
        (Message::UpdateUadLists, Message::UpdateUadLists) => true,
        (Message::DoSelfUpdate, Message::DoSelfUpdate) => true,
        _ => false,
    }
}

impl Clone for Message {
    fn clone(&self) -> (copy: Message)
        ensures
            alike(*self, copy),
    {
        match self {
            Message::UrlPressed(url) => Message::UrlPressed(url.clone()),
            Message::UpdateUadLists => Message::UpdateUadLists,
            Message::DoSelfUpdate => Message::DoSelfUpdate,
        }
    }
}

} // verus!
