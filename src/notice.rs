//! The single notification slot through which workers report to the user.
//!
//! A new notice replaces the one before it, read or not: when two workers finish
//! close together, the one that publishes last is the one shown.

use vstd::prelude::*;
use vstd::string::StringExecFns;

verus! {

/// One notice: shown or hidden, a spinner or a message with an acknowledgment.
pub struct WindowMsg {
    pub open: bool,
    pub loading: bool,
    pub title: String,
    pub message: String,
}

/// What a frame draws for the slot.
#[derive(Clone, Copy, Debug, PartialEq, Eq, Structural)]
pub enum NoticeView {
    /// Nothing.
    Hidden,
    /// A loading indicator with the message.
    Loading,
    /// The title and message with an acknowledgment button.
    Message,
}

/// The slot shows `title` and `message`, waiting to be acknowledged.
pub open spec fn shows_message(w: WindowMsg, title: Seq<char>, message: Seq<char>) -> bool {
    w.open && !w.loading && w.title@ == title && w.message@ == message
}

/// The slot shows a loading indicator with `message` and no title.
pub open spec fn shows_loading(w: WindowMsg, message: Seq<char>) -> bool {
    w.open && w.loading && w.title@ == Seq::<char>::empty() && w.message@ == message
}

/// What a frame draws for `w`.
pub open spec fn view_of(w: WindowMsg) -> NoticeView {
    if !w.open {
        NoticeView::Hidden
    } else if w.loading {
        NoticeView::Loading
    } else {
        NoticeView::Message
    }
}

impl Default for WindowMsg {
    /// A closed slot with no text.
    fn default() -> (r: WindowMsg)
        ensures
            !r.open,
            !r.loading,
            r.title@ == Seq::<char>::empty(),
            r.message@ == Seq::<char>::empty(),
    {
        WindowMsg { open: false, loading: false, title: String::new(), message: String::new() }
    }
}

impl WindowMsg {
    /// Shows `message` under `title`, replacing whatever the slot held.
    pub fn open_with_msg(&mut self, title: String, message: String)
        ensures
            shows_message(*final(self), title@, message@),
    {
        self.open = true;
        self.loading = false;
        self.title = title;
        self.message = message;
    }

    /// Shows a loading indicator with `message`; the title is cleared.
    pub fn open_with_loading(&mut self, message: String)
        ensures
            shows_loading(*final(self), message@),
    {
        self.open = true;
        self.loading = true;
        self.title = String::new();
        self.message = message;
    }

    /// The user dismissed the notice.
    pub fn acknowledge(&mut self)
        ensures
            !final(self).open,
            final(self).loading == old(self).loading,
            final(self).title@ == old(self).title@,
            final(self).message@ == old(self).message@,
    {
        self.open = false;
    }

    /// What a frame draws for this slot.
    pub fn view(&self) -> (r: NoticeView)
        ensures
            r == view_of(*self),
    {
        if !self.open {
            NoticeView::Hidden
        } else if self.loading {
            NoticeView::Loading
        } else {
            NoticeView::Message
        }
    }
}

} // verus!
