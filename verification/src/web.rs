//! The web page's event feed and the database location.

use vstd::prelude::*;
use crate::event::{Event, EventView};

verus! {

/// The state of one browser's event feed: whether it has been greeted.
#[derive(Clone, Copy, Debug, PartialEq, Eq, Structural)]
pub struct SseFeed {
    pub greeted: bool,
}

impl SseFeed {
    /// A feed that has sent nothing yet.
    pub fn new() -> (r: Self)
        ensures
            !r.greeted,
    {
        SseFeed { greeted: false }
    }

    /// The greeting that a feed sends before any event, exactly once: a
    /// `Connected` notice without source the first time, nothing after,
    /// when the feed goes on with the events it receives.
    pub fn greeting(&mut self) -> (r: Option<Event>)
        ensures
            final(self).greeted,
            !old(self).greeted ==> r is Some && r->0@ == (EventView::Info {
                msg: "Connected"@,
                src: None,
            }),
            old(self).greeted ==> r is None,
    {
        if self.greeted {
            None
        } else {
            self.greeted = true;
            Some(Event::Info { msg: String::from_str("Connected"), src: None })
        }
    }
}

/// The connection URL of the SQLite database in the file `path`.
pub fn database_url(path: &str) -> (r: String)
    ensures
        r@ == "sqlite://"@ + path@,
{
    let mut r = String::from_str("sqlite://");
    r.append(path);
    r
}

} // verus!
