use david_discord_bot_rs::calendar::CalendarDate;
use david_discord_bot_rs::feed::{FeedProgress, FeedReply, FeedScan, PageRequest, PAGE_LIMIT};
use david_discord_bot_rs::message::Message;

fn entry(id: u64) -> Message {
    Message {
        id,
        author_id: 7,
        content: format!("entry {}", id),
        posted_on: CalendarDate { year: 2026, month: 5, day: 17 },
        in_thread: false,
    }
}

#[test]
fn a_scan_begins_with_the_newest_page() {
    let (scan, request) = FeedScan::begin();
    assert_eq!(scan.collected, Vec::<Message>::new());
    assert_eq!(request, PageRequest { before: None, limit: 100 });
    assert_eq!(PAGE_LIMIT, 100);
}

#[test]
fn a_filled_page_is_kept_and_the_page_before_its_last_message_is_asked_for() {
    let (scan, _) = FeedScan::begin();
    let progress = scan.advance(FeedReply::Page(vec![entry(9), entry(8), entry(5)]));
    assert_eq!(
        progress,
        FeedProgress::More {
            scan: FeedScan { collected: vec![entry(9), entry(8), entry(5)] },
            request: PageRequest { before: Some(5), limit: 100 },
        }
    );
}

#[test]
fn pages_are_joined_in_the_order_in_which_they_come() {
    let scan = FeedScan { collected: vec![entry(9), entry(8)] };
    let progress = scan.advance(FeedReply::Page(vec![entry(7), entry(3)]));
    assert_eq!(
        progress,
        FeedProgress::More {
            scan: FeedScan { collected: vec![entry(9), entry(8), entry(7), entry(3)] },
            request: PageRequest { before: Some(3), limit: 100 },
        }
    );
}

#[test]
fn an_empty_page_ends_the_scan_with_all_that_was_read() {
    let scan = FeedScan { collected: vec![entry(9), entry(8)] };
    let progress = scan.advance(FeedReply::Page(Vec::new()));
    assert_eq!(progress, FeedProgress::Complete { messages: vec![entry(9), entry(8)] });
}

#[test]
fn an_empty_feed_is_read_with_one_request() {
    let (scan, _) = FeedScan::begin();
    assert_eq!(
        scan.advance(FeedReply::Page(Vec::new())),
        FeedProgress::Complete { messages: Vec::new() }
    );
}

#[test]
fn a_failure_ends_the_scan_with_nothing() {
    let scan = FeedScan { collected: vec![entry(9), entry(8)] };
    assert_eq!(scan.advance(FeedReply::Failed), FeedProgress::Failed);
}

#[test]
fn a_whole_feed_is_read_page_by_page() {
    // A source of seven messages that hands out three at a time.
    let feed: Vec<Message> = (1..=7).rev().map(entry).collect();
    let (mut scan, mut request) = FeedScan::begin();
    let mut asked = Vec::new();
    let messages = loop {
        asked.push(request.before);
        let page: Vec<Message> = feed
            .iter()
            .filter(|message| match request.before {
                Some(before) => message.id < before,
                None => true,
            })
            .take(3)
            .cloned()
            .collect();
        match scan.advance(FeedReply::Page(page)) {
            FeedProgress::More { scan: next, request: then } => {
                scan = next;
                request = then;
            }
            FeedProgress::Complete { messages } => break messages,
            FeedProgress::Failed => panic!("the source did not fail"),
        }
    };
    assert_eq!(messages, feed);
    assert_eq!(asked, vec![None, Some(5), Some(2), Some(1)]);
}
