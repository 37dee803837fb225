//! Messages of the two feeds: what a request says and what was published.

use vstd::prelude::*;
use crate::calendar::CalendarDate;

verus! {

/// One message of a feed, reduced to what the rotation reads.
#[derive(Debug, PartialEq, Eq)]
pub struct Message {
    /// Ordering key: grows with time, lower is older.
    pub id: u64,
    pub author_id: u64,
    pub content: String,
    /// The day the message was written, in the rotation's zone.
    pub posted_on: CalendarDate,
    /// Whether a side discussion hangs off this message.
    pub in_thread: bool,
}

/// The mathematical content of a [`Message`].
pub struct MessageView {
    pub id: u64,
    pub author_id: u64,
    pub content: Seq<char>,
    pub posted_on: CalendarDate,
    pub in_thread: bool,
}

impl View for Message {
    type V = MessageView;

    open spec fn view(&self) -> MessageView {
        MessageView {
            id: self.id,
            author_id: self.author_id,
            content: self.content@,
            posted_on: self.posted_on,
            in_thread: self.in_thread,
        }
    }
}

impl DeepView for Message {
    type V = MessageView;

    open spec fn deep_view(&self) -> MessageView {
        self@
    }
}

impl Clone for Message {
    fn clone(&self) -> (copy: Message)
        ensures
            copy == *self,
    {
        Message {
            id: self.id,
            author_id: self.author_id,
            content: self.content.clone(),
            posted_on: self.posted_on,
            in_thread: self.in_thread,
        }
    }
}

impl MessageView {
    /// A message that stands in the channel itself, not in a side discussion.
    pub open spec fn top_level(self) -> bool {
        !self.in_thread
    }
}

} // verus!
