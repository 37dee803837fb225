//! Reading a whole feed through a source that hands out one page at a time.
//!
//! The source is asked for the newest page first, then for the page before
//! the last message it gave, until it gives an empty page. The messages come
//! out as the pages brought them, with no order promised beyond that.

use vstd::prelude::*;
use crate::message::{Message, MessageView};

verus! {

/// The most messages that one page holds.
pub const PAGE_LIMIT: u8 = 100;

/// What to ask the source for: at most `limit` messages older than `before`,
/// or the newest ones where `before` is not set.
#[derive(Clone, Copy, Debug, PartialEq, Eq)]
pub struct PageRequest {
    pub before: Option<u64>,
    pub limit: u8,
}

/// What the source answered.
#[derive(Debug, PartialEq, Eq)]
pub enum FeedReply {
    Page(Vec<Message>),
    Failed,
}

/// The mathematical content of a [`FeedReply`].
pub enum FeedReplyView {
    Page(Seq<MessageView>),
    Failed,
}

impl View for FeedReply {
    type V = FeedReplyView;

    open spec fn view(&self) -> FeedReplyView {
        match self {
            FeedReply::Page(page) => FeedReplyView::Page(page.deep_view()),
            FeedReply::Failed => FeedReplyView::Failed,
        }
    }
}

/// A scan of a feed that is under way: the messages read so far.
#[derive(Debug, PartialEq, Eq)]
pub struct FeedScan {
    pub collected: Vec<Message>,
}

impl View for FeedScan {
    type V = Seq<MessageView>;

    open spec fn view(&self) -> Seq<MessageView> {
        self.collected.deep_view()
    }
}

/// Where a scan stands after a reply.
#[derive(Debug, PartialEq, Eq)]
pub enum FeedProgress {
    /// The feed goes on: send `request` and come back with the answer.
    More { scan: FeedScan, request: PageRequest },
    /// The feed was read to its end.
    Complete { messages: Vec<Message> },
    /// The source failed. Nothing of what was read is handed out.
    Failed,
}

/// The mathematical content of a [`FeedProgress`].
pub enum FeedProgressView {
    More { collected: Seq<MessageView>, request: PageRequest },
    Complete { messages: Seq<MessageView> },
    Failed,
}

impl View for FeedProgress {
    type V = FeedProgressView;

    open spec fn view(&self) -> FeedProgressView {
        match self {
            FeedProgress::More { scan, request } => FeedProgressView::More {
                collected: scan@,
                request: *request,
            },
            FeedProgress::Complete { messages } => FeedProgressView::Complete {
                messages: messages.deep_view(),
            },
            FeedProgress::Failed => FeedProgressView::Failed,
        }
    }
}

/// The request that continues a scan which has read `collected`: the page
/// before the last message read, or the newest page where none was read.
pub open spec fn next_request(collected: Seq<MessageView>) -> PageRequest {
    PageRequest {
        before: if collected.len() > 0 {
            Some(collected.last().id)
        } else {
            None
        },
        limit: PAGE_LIMIT,
    }
}

/// One step of a scan: a failure ends it with nothing, an empty page ends
/// it with all that was read, and any other page is added to what was read.
pub open spec fn feed_step(collected: Seq<MessageView>, reply: FeedReplyView) -> FeedProgressView {
    match reply {
        FeedReplyView::Failed => FeedProgressView::Failed,
        FeedReplyView::Page(page) => if page.len() == 0 {
            FeedProgressView::Complete { messages: collected }
        } else {
            FeedProgressView::More {
                collected: collected + page,
                request: next_request(collected + page),
            }
        },
    }
}

impl FeedScan {
    /// Starts a scan: nothing is read, and the newest page is asked for.
    pub fn begin() -> (start: (FeedScan, PageRequest))
        ensures
            start.0@ == Seq::<MessageView>::empty(),
            start.1 == next_request(start.0@),
    {
        let scan = FeedScan { collected: Vec::new() };
        assert(scan@ =~= Seq::<MessageView>::empty());
        (scan, PageRequest { before: None, limit: PAGE_LIMIT })
    }

    /// Takes the scan one reply further.
    pub fn advance(self, reply: FeedReply) -> (progress: FeedProgress)
        ensures
            progress@ == feed_step(self@, reply@),
    {
        match reply {
            FeedReply::Failed => FeedProgress::Failed,
            FeedReply::Page(page) => {
                if page.len() == 0 {
                    FeedProgress::Complete { messages: self.collected }
                } else {
                    let ghost before = self.collected.deep_view();
                    let ghost added = page.deep_view();
                    let last = page[page.len() - 1].id;
                    let mut collected = self.collected;
                    let mut page = page;
                    collected.append(&mut page);
                    assert(collected.deep_view() =~= before + added);
                    FeedProgress::More {
                        scan: FeedScan { collected },
                        request: PageRequest { before: Some(last), limit: PAGE_LIMIT },
                    }
                }
            },
        }
    }
}

/// Where a scan stands once the source has given `replies`, one after the
/// other, to a scan that had read `collected`. Replies that come after the
/// scan has ended are not looked at.
pub open spec fn scan_after(collected: Seq<MessageView>, replies: Seq<FeedReplyView>) -> FeedProgressView
    decreases replies.len(),
{
    if replies.len() == 0 {
        FeedProgressView::More { collected, request: next_request(collected) }
    } else {
        match feed_step(collected, replies[0]) {
            FeedProgressView::More { collected: longer, .. } => scan_after(
                longer,
                replies.drop_first(),
            ),
            ended => ended,
        }
    }
}

/// Every reply is a page with something on it.
pub open spec fn all_filled_pages(replies: Seq<FeedReplyView>) -> bool {
    forall|i: int|
        0 <= i < replies.len() ==> (#[trigger] replies[i] matches FeedReplyView::Page(page)
            && page.len() > 0)
}

/// The messages of all pages, in the order in which the pages came.
pub open spec fn pages_joined(replies: Seq<FeedReplyView>) -> Seq<MessageView>
    decreases replies.len(),
{
    if replies.len() == 0 {
        Seq::empty()
    } else {
        (match replies[0] {
            FeedReplyView::Page(page) => page,
            FeedReplyView::Failed => Seq::empty(),
        }) + pages_joined(replies.drop_first())
    }
}

/// A scan that gets filled pages and then an empty one ends with the
/// messages of all those pages, in the order in which they came, behind
/// what it had read before.
pub proof fn law_scan_collects_every_page(collected: Seq<MessageView>, filled: Seq<FeedReplyView>)
    requires
        all_filled_pages(filled),
    ensures
        scan_after(collected, filled.push(FeedReplyView::Page(Seq::empty())))
            == (FeedProgressView::Complete { messages: collected + pages_joined(filled) }),
    decreases filled.len(),
{
    let replies = filled.push(FeedReplyView::Page(Seq::empty()));
    if filled.len() == 0 {
        assert(replies.drop_first() =~= Seq::<FeedReplyView>::empty());
        assert(collected + pages_joined(filled) =~= collected);
    } else {
        let page = filled[0]->Page_0;
        assert(replies[0] == filled[0]);
        assert(replies.drop_first() =~= filled.drop_first().push(
            FeedReplyView::Page(Seq::empty()),
        ));
        assert(all_filled_pages(filled.drop_first())) by {
            assert forall|i: int| 0 <= i < filled.drop_first().len() implies (
            #[trigger] filled.drop_first()[i] matches FeedReplyView::Page(p) && p.len() > 0) by {
                assert(filled.drop_first()[i] == filled[i + 1]);
            }
        }
        law_scan_collects_every_page(collected + page, filled.drop_first());
        assert((collected + page) + pages_joined(filled.drop_first()) =~= collected + pages_joined(
            filled,
        ));
    }
}

/// A scan whose source fails after any number of filled pages ends in
/// failure: none of the pages read before is handed out.
pub proof fn law_failed_scan_yields_nothing(
    collected: Seq<MessageView>,
    filled: Seq<FeedReplyView>,
    rest: Seq<FeedReplyView>,
)
    requires
        all_filled_pages(filled),
    ensures
        scan_after(collected, filled.push(FeedReplyView::Failed) + rest) == FeedProgressView::Failed,
    decreases filled.len(),
{
    let replies = filled.push(FeedReplyView::Failed) + rest;
    if filled.len() == 0 {
        assert(replies[0] == FeedReplyView::Failed);
    } else {
        let page = filled[0]->Page_0;
        assert(replies[0] == filled[0]);
        assert(replies.drop_first() =~= filled.drop_first().push(FeedReplyView::Failed) + rest);
        assert(all_filled_pages(filled.drop_first())) by {
            assert forall|i: int| 0 <= i < filled.drop_first().len() implies (
            #[trigger] filled.drop_first()[i] matches FeedReplyView::Page(p) && p.len() > 0) by {
                assert(filled.drop_first()[i] == filled[i + 1]);
            }
        }
        law_failed_scan_yields_nothing(collected + page, filled.drop_first(), rest);
    }
}

} // verus!
