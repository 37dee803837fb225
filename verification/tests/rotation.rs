use david_discord_bot_rs::calendar::CalendarDate;
use david_discord_bot_rs::config::{Config, Settings};
use david_discord_bot_rs::feed::{FeedReply, FeedScan, PageRequest};
use david_discord_bot_rs::links::Scanned;
use david_discord_bot_rs::message::Message;
use david_discord_bot_rs::rotation::{
    conclude, daily_message, post_song_of_the_day, print_new_links, report_new_links,
    should_run_sotd, NewLinks, ReadyPlan, RotationRunState, RunCommand, RunEvent, RunPhase,
    StopReason, ACKNOWLEDGEMENT, DAILY_SCHEDULE, RECENT_WINDOW,
};
use david_discord_bot_rs::selector::Selection;

const REQUESTS: u64 = 1111;
const PUBLICATION: u64 = 2222;
const X: &str = "https://open.spotify.com/track/X";
const Y: &str = "https://open.spotify.com/track/Y";
const Z: &str = "https://spotify.link/Z";

fn today() -> CalendarDate {
    CalendarDate { year: 2026, month: 10, day: 28 }
}

fn yesterday() -> CalendarDate {
    CalendarDate { year: 2026, month: 10, day: 27 }
}

fn config_with(change: fn(&mut Settings)) -> Config {
    let mut settings = Settings {
        request_channel: Some(REQUESTS.to_string()),
        publication_channel: Some(PUBLICATION.to_string()),
        minimum_request: Some("0".to_string()),
        audio_resource: Some("loop.ogg".to_string()),
        all_links: false,
        dry_run: false,
        skip_run_check: false,
    };
    change(&mut settings);
    Config::new(&settings).unwrap()
}

fn config() -> Config {
    config_with(|_| {})
}

fn posted(id: u64, author_id: u64, content: &str, posted_on: CalendarDate) -> Message {
    Message { id, author_id, content: content.to_string(), posted_on, in_thread: false }
}

fn in_thread(id: u64, posted_on: CalendarDate) -> Message {
    Message { id, author_id: 3, content: "side talk".to_string(), posted_on, in_thread: true }
}

fn page(messages: Vec<Message>) -> RunEvent {
    RunEvent::Feed(FeedReply::Page(messages))
}

fn first_page() -> PageRequest {
    PageRequest { before: None, limit: 100 }
}

#[test]
fn a_run_is_due_where_nothing_was_published() {
    assert!(should_run_sotd(&Vec::new(), &today()));
}

#[test]
fn a_run_is_not_due_where_something_was_published_today() {
    let recent = vec![posted(9, 1, "today's", today()), posted(8, 1, "older", yesterday())];
    assert!(!should_run_sotd(&recent, &today()));
}

#[test]
fn a_run_is_due_where_the_last_publication_is_of_an_earlier_day() {
    let recent = vec![posted(9, 1, "last", yesterday())];
    assert!(should_run_sotd(&recent, &today()));
    let long_ago = vec![posted(9, 1, "last", CalendarDate { year: 2025, month: 12, day: 31 })];
    assert!(should_run_sotd(&long_ago, &today()));
    let last_month = vec![posted(9, 1, "last", CalendarDate { year: 2026, month: 9, day: 30 })];
    assert!(should_run_sotd(&last_month, &today()));
}

#[test]
fn a_run_is_not_due_where_the_last_publication_is_of_a_later_day() {
    let recent = vec![posted(9, 1, "last", CalendarDate { year: 2026, month: 10, day: 29 })];
    assert!(!should_run_sotd(&recent, &today()));
}

#[test]
fn side_talk_does_not_count_as_a_publication() {
    let recent = vec![in_thread(9, today()), posted(8, 1, "last", yesterday())];
    assert!(should_run_sotd(&recent, &today()));
    let recent = vec![in_thread(9, yesterday()), posted(8, 1, "last", today())];
    assert!(!should_run_sotd(&recent, &today()));
    let only_side_talk = vec![in_thread(9, today()), in_thread(8, today())];
    assert!(should_run_sotd(&only_side_talk, &today()));
}

#[test]
fn only_the_newest_entries_are_looked_at() {
    assert_eq!(RECENT_WINDOW, 10);
    let mut recent: Vec<Message> = (0..10).map(|n| in_thread(100 - n, today())).collect();
    recent.push(posted(50, 1, "beyond the window", today()));
    assert!(should_run_sotd(&recent, &today()));
    let mut recent: Vec<Message> = (0..9).map(|n| in_thread(100 - n, today())).collect();
    recent.push(posted(50, 1, "the tenth", today()));
    assert!(!should_run_sotd(&recent, &today()));
}

#[test]
fn the_announcement_names_the_day_the_link_and_the_requester() {
    assert_eq!(
        daily_message("Oct 28, 2026", X, 424242),
        "# SONG OF THE DAY Oct 28, 2026\nhttps://open.spotify.com/track/X \n-# Requested by <@424242>"
    );
}

#[test]
fn the_feeds_once_read_the_announcement_is_posted() {
    let chosen = Selection { request: posted(31, 77, "asks", yesterday()), link: Y.to_string() };
    let step = conclude(&config(), Some(chosen), Some("Jan 02, 2027".to_string()));
    assert_eq!(
        step,
        (
            RunPhase::Posting { request_id: 31 },
            RunCommand::Post {
                channel: PUBLICATION,
                text: format!("# SONG OF THE DAY Jan 02, 2027\n{} \n-# Requested by <@77>", Y),
            }
        )
    );
}

#[test]
fn a_run_ends_with_nothing_where_nothing_was_picked() {
    let step = conclude(&config(), None, Some("Jan 02, 2027".to_string()));
    assert_eq!(step, (RunPhase::Done, RunCommand::Stop { reason: StopReason::NothingToPost }));
}

#[test]
fn a_dry_run_withholds_the_publication() {
    let dry = config_with(|settings| settings.dry_run = true);
    let chosen = Selection { request: posted(31, 77, "asks", yesterday()), link: Y.to_string() };
    let step = conclude(&dry, Some(chosen), None);
    assert_eq!(
        step,
        (RunPhase::Done, RunCommand::Withhold { link: Y.to_string(), request_id: 31 })
    );
}

#[test]
fn a_run_ends_with_nothing_where_today_is_no_day() {
    let chosen = Selection { request: posted(31, 77, "asks", yesterday()), link: Y.to_string() };
    let step = conclude(&config(), Some(chosen), None);
    assert_eq!(step, (RunPhase::Done, RunCommand::Stop { reason: StopReason::NoSuchDay }));
}

#[test]
fn a_request_is_marked_once_its_announcement_is_posted() {
    let step = post_song_of_the_day(
        &config(),
        RunPhase::Posting { request_id: 31 },
        RunEvent::Posted,
        &today(),
    );
    assert_eq!(
        step,
        (RunPhase::Done, RunCommand::Acknowledge { channel: REQUESTS, message: 31 })
    );
}

#[test]
fn a_request_is_not_marked_where_the_post_was_refused() {
    let step = post_song_of_the_day(
        &config(),
        RunPhase::Posting { request_id: 31 },
        RunEvent::PostRefused,
        &today(),
    );
    assert_eq!(step, (RunPhase::Done, RunCommand::Stop { reason: StopReason::PostRefused }));
}

#[test]
fn the_acknowledgement_is_a_check_mark() {
    assert_eq!(ACKNOWLEDGEMENT, "✅");
}

#[test]
fn the_timer_fires_once_a_day() {
    assert_eq!(DAILY_SCHEDULE, "0 0 2 * * *");
}

#[test]
fn a_run_first_asks_what_was_published_lately() {
    let step = post_song_of_the_day(&config(), RunPhase::Idle, RunEvent::Start, &today());
    assert_eq!(
        step,
        (RunPhase::CheckingRecent, RunCommand::FetchRecent { channel: PUBLICATION, limit: 10 })
    );
}

#[test]
fn a_run_that_skips_the_question_reads_the_requests_at_once() {
    let eager = config_with(|settings| settings.skip_run_check = true);
    let step = post_song_of_the_day(&eager, RunPhase::Idle, RunEvent::Start, &today());
    assert_eq!(
        step,
        (
            RunPhase::ReadingRequests { scan: FeedScan { collected: Vec::new() } },
            RunCommand::FetchPage { channel: REQUESTS, request: first_page() }
        )
    );
}

#[test]
fn a_run_stops_where_something_was_published_today() {
    let recent = vec![posted(9, 1, "today's", today())];
    let step = post_song_of_the_day(&config(), RunPhase::CheckingRecent, page(recent), &today());
    assert_eq!(step, (RunPhase::Done, RunCommand::Stop { reason: StopReason::AlreadyPosted }));
}

#[test]
fn a_run_goes_on_where_nothing_was_published_today() {
    let recent = vec![posted(9, 1, "yesterday's", yesterday())];
    let step = post_song_of_the_day(&config(), RunPhase::CheckingRecent, page(recent), &today());
    assert_eq!(
        step,
        (
            RunPhase::ReadingRequests { scan: FeedScan { collected: Vec::new() } },
            RunCommand::FetchPage { channel: REQUESTS, request: first_page() }
        )
    );
}

#[test]
fn a_run_reads_the_requests_page_by_page() {
    let read = vec![posted(40, 1, X, yesterday())];
    let more = vec![posted(30, 2, Y, yesterday()), posted(20, 2, Z, yesterday())];
    let phase = RunPhase::ReadingRequests { scan: FeedScan { collected: read.clone() } };
    let step = post_song_of_the_day(&config(), phase, page(more.clone()), &today());
    let mut all = read;
    all.extend(more);
    assert_eq!(
        step,
        (
            RunPhase::ReadingRequests { scan: FeedScan { collected: all } },
            RunCommand::FetchPage {
                channel: REQUESTS,
                request: PageRequest { before: Some(20), limit: 100 }
            }
        )
    );
}

#[test]
fn a_run_turns_to_the_history_once_the_requests_are_read() {
    let read = vec![posted(40, 1, X, yesterday())];
    let phase = RunPhase::ReadingRequests { scan: FeedScan { collected: read.clone() } };
    let step = post_song_of_the_day(&config(), phase, page(Vec::new()), &today());
    assert_eq!(
        step,
        (
            RunPhase::ReadingHistory { requests: read, scan: FeedScan { collected: Vec::new() } },
            RunCommand::FetchPage { channel: PUBLICATION, request: first_page() }
        )
    );
}

#[test]
fn a_run_reads_the_history_page_by_page() {
    let requests = vec![posted(40, 1, X, yesterday())];
    let phase = RunPhase::ReadingHistory {
        requests: requests.clone(),
        scan: FeedScan { collected: Vec::new() },
    };
    let entries = vec![posted(90, 9, Z, yesterday())];
    let step = post_song_of_the_day(&config(), phase, page(entries.clone()), &today());
    assert_eq!(
        step,
        (
            RunPhase::ReadingHistory { requests, scan: FeedScan { collected: entries } },
            RunCommand::FetchPage {
                channel: PUBLICATION,
                request: PageRequest { before: Some(90), limit: 100 }
            }
        )
    );
}

#[test]
fn a_run_posts_once_both_feeds_are_read() {
    let requests = vec![posted(40, 8, Y, yesterday()), posted(30, 7, X, yesterday())];
    let phase = RunPhase::ReadingHistory {
        requests,
        scan: FeedScan { collected: vec![posted(90, 9, Z, yesterday())] },
    };
    let step = post_song_of_the_day(&config(), phase, page(Vec::new()), &today());
    assert_eq!(
        step,
        (
            RunPhase::Posting { request_id: 30 },
            RunCommand::Post {
                channel: PUBLICATION,
                text: format!("# SONG OF THE DAY Oct 28, 2026\n{} \n-# Requested by <@7>", X),
            }
        )
    );
}

#[test]
fn a_run_leaves_out_requests_before_the_cutoff() {
    let cutoff = config_with(|settings| settings.minimum_request = Some("35".to_string()));
    let requests = vec![posted(40, 8, Y, yesterday()), posted(30, 7, X, yesterday())];
    let phase =
        RunPhase::ReadingHistory { requests, scan: FeedScan { collected: Vec::new() } };
    let step = post_song_of_the_day(&cutoff, phase, page(Vec::new()), &today());
    assert_eq!(
        step,
        (
            RunPhase::Posting { request_id: 40 },
            RunCommand::Post {
                channel: PUBLICATION,
                text: format!("# SONG OF THE DAY Oct 28, 2026\n{} \n-# Requested by <@8>", Y),
            }
        )
    );
}

#[test]
fn a_run_warns_where_no_request_is_left() {
    let requests = vec![posted(30, 7, X, yesterday())];
    let phase = RunPhase::ReadingHistory {
        requests,
        scan: FeedScan { collected: vec![posted(90, 9, X, yesterday())] },
    };
    let step = post_song_of_the_day(&config(), phase, page(Vec::new()), &today());
    assert_eq!(step, (RunPhase::Done, RunCommand::Stop { reason: StopReason::NothingToPost }));
}

#[test]
fn a_dry_run_decides_and_publishes_nothing() {
    let dry = config_with(|settings| settings.dry_run = true);
    let requests = vec![posted(30, 7, &format!("{} and {}", X, Y), yesterday())];
    let phase = RunPhase::ReadingHistory {
        requests,
        scan: FeedScan { collected: vec![posted(90, 9, X, yesterday())] },
    };
    // Request 30 carries the link published last, so its author waits.
    let step = post_song_of_the_day(&dry, phase, page(Vec::new()), &today());
    assert_eq!(step, (RunPhase::Done, RunCommand::Stop { reason: StopReason::NothingToPost }));
    let requests = vec![posted(30, 7, &format!("{} and {}", X, Y), yesterday())];
    let phase = RunPhase::ReadingHistory {
        requests,
        scan: FeedScan {
            collected: vec![posted(91, 9, "no link", yesterday()), posted(90, 9, X, yesterday())],
        },
    };
    let step = post_song_of_the_day(&dry, phase, page(Vec::new()), &today());
    assert_eq!(
        step,
        (RunPhase::Done, RunCommand::Withhold { link: Y.to_string(), request_id: 30 })
    );
}

#[test]
fn a_run_stops_where_today_is_no_day_of_the_calendar() {
    let requests = vec![posted(30, 7, X, yesterday())];
    let phase =
        RunPhase::ReadingHistory { requests, scan: FeedScan { collected: Vec::new() } };
    let no_day = CalendarDate { year: 2026, month: 2, day: 30 };
    let step = post_song_of_the_day(&config(), phase, page(Vec::new()), &no_day);
    assert_eq!(step, (RunPhase::Done, RunCommand::Stop { reason: StopReason::NoSuchDay }));
}

#[test]
fn a_feed_that_fails_ends_the_run_with_nothing_published() {
    let failed = || RunEvent::Feed(FeedReply::Failed);
    let stopped = (RunPhase::Done, RunCommand::Stop { reason: StopReason::FeedUnavailable });
    let requests = vec![posted(30, 7, X, yesterday())];
    assert_eq!(
        post_song_of_the_day(&config(), RunPhase::CheckingRecent, failed(), &today()),
        stopped
    );
    assert_eq!(
        post_song_of_the_day(
            &config(),
            RunPhase::ReadingRequests { scan: FeedScan { collected: requests.clone() } },
            failed(),
            &today()
        ),
        stopped
    );
    assert_eq!(
        post_song_of_the_day(
            &config(),
            RunPhase::ReadingHistory { requests, scan: FeedScan { collected: Vec::new() } },
            failed(),
            &today()
        ),
        stopped
    );
}

#[test]
fn an_event_out_of_turn_ends_the_run() {
    let stopped = (RunPhase::Done, RunCommand::Stop { reason: StopReason::OutOfTurn });
    assert_eq!(
        post_song_of_the_day(&config(), RunPhase::Idle, page(Vec::new()), &today()),
        stopped
    );
    assert_eq!(
        post_song_of_the_day(&config(), RunPhase::CheckingRecent, RunEvent::Start, &today()),
        stopped
    );
    assert_eq!(
        post_song_of_the_day(&config(), RunPhase::Done, RunEvent::Start, &today()),
        stopped
    );
    assert_eq!(
        post_song_of_the_day(
            &config(),
            RunPhase::ReadingRequests { scan: FeedScan { collected: Vec::new() } },
            RunEvent::Start,
            &today()
        ),
        stopped
    );
    assert_eq!(
        post_song_of_the_day(
            &config(),
            RunPhase::ReadingRequests { scan: FeedScan { collected: Vec::new() } },
            RunEvent::Posted,
            &today()
        ),
        stopped
    );
    assert_eq!(
        post_song_of_the_day(
            &config(),
            RunPhase::Posting { request_id: 3 },
            page(Vec::new()),
            &today()
        ),
        stopped
    );
    assert_eq!(
        post_song_of_the_day(&config(), RunPhase::Done, RunEvent::Posted, &today()),
        stopped
    );
}

/// A publication channel and a request channel that answer fetches as the
/// platform does, newest first, and take what is posted.
struct Platform {
    requests: Vec<Message>,
    publication: Vec<Message>,
    acknowledged: Vec<(u64, u64)>,
    next_id: u64,
    refuses_posts: bool,
}

impl Platform {
    fn feed(&self, channel: u64) -> &Vec<Message> {
        if channel == REQUESTS {
            &self.requests
        } else {
            &self.publication
        }
    }

    fn fetch(&self, channel: u64, before: Option<u64>, limit: u8) -> Vec<Message> {
        self.feed(channel)
            .iter()
            .filter(|message| before.map_or(true, |before| message.id < before))
            .take(limit as usize)
            .cloned()
            .collect()
    }

    /// Runs the rotation once, from start to end, with no other run between
    /// its steps, and says how it ended.
    fn run_once(&mut self, config: &Config, today: &CalendarDate) -> RunCommand {
        let mut phase = RunPhase::Idle;
        let mut event = RunEvent::Start;
        loop {
            let (next, command) = post_song_of_the_day(config, phase, event, today);
            phase = next;
            event = match command {
                RunCommand::FetchRecent { channel, limit } => {
                    RunEvent::Feed(FeedReply::Page(self.fetch(channel, None, limit)))
                }
                RunCommand::FetchPage { channel, request } => RunEvent::Feed(FeedReply::Page(
                    self.fetch(channel, request.before, request.limit),
                )),
                RunCommand::Post { channel, ref text } => {
                    assert_eq!(channel, PUBLICATION);
                    if self.refuses_posts {
                        RunEvent::PostRefused
                    } else {
                        let entry = posted(self.next_id, 1, text, *today);
                        self.next_id += 1;
                        self.publication.insert(0, entry);
                        RunEvent::Posted
                    }
                }
                RunCommand::Acknowledge { channel, message } => {
                    assert_eq!(phase, RunPhase::Done);
                    self.acknowledged.push((channel, message));
                    return command;
                }
                RunCommand::Withhold { .. } | RunCommand::Stop { .. } => {
                    assert_eq!(phase, RunPhase::Done);
                    return command;
                }
            };
        }
    }
}

fn platform() -> Platform {
    Platform {
        requests: vec![
            posted(50, 22, &format!("one more: {}", Z), yesterday()),
            posted(40, 21, &format!("two at once {} {}", X, Y), yesterday()),
            posted(30, 21, &format!("play {}", X), yesterday()),
        ],
        publication: Vec::new(),
        acknowledged: Vec::new(),
        next_id: 1000,
        refuses_posts: false,
    }
}

#[test]
fn two_runs_on_one_day_publish_once() {
    let mut platform = platform();
    let config = config();
    // Two triggers fire together; the lock lets one run after the other.
    let first = platform.run_once(&config, &today());
    let second = platform.run_once(&config, &today());
    assert_eq!(first, RunCommand::Acknowledge { channel: REQUESTS, message: 30 });
    assert_eq!(second, RunCommand::Stop { reason: StopReason::AlreadyPosted });
    assert_eq!(platform.publication.len(), 1);
    assert_eq!(
        platform.publication[0].content,
        format!("# SONG OF THE DAY Oct 28, 2026\n{} \n-# Requested by <@21>", X)
    );
    assert_eq!(platform.acknowledged, vec![(REQUESTS, 30)]);
    assert!(!should_run_sotd(&platform.fetch(PUBLICATION, None, 10), &today()));
}

#[test]
fn the_rotation_serves_each_requester_in_turn_day_by_day() {
    let mut platform = platform();
    let config = config();
    let mut served = Vec::new();
    for day in 1..=5 {
        let date = CalendarDate { year: 2026, month: 11, day };
        match platform.run_once(&config, &date) {
            RunCommand::Acknowledge { message, .. } => served.push(Some(message)),
            RunCommand::Stop { reason: StopReason::NothingToPost } => served.push(None),
            other => panic!("unexpected end of a run: {:?}", other),
        }
    }
    // Author 21 asked for X and waits a turn, so 22 is served with Z; then
    // 21 again with Y, the one link of request 40 that is still open.
    assert_eq!(served, vec![Some(30), Some(50), Some(40), None, None]);
    assert_eq!(platform.publication.len(), 3);
}

#[test]
fn a_long_feed_is_read_to_its_end() {
    let mut platform = platform();
    platform.requests = (1..=250u64)
        .rev()
        .map(|id| posted(id, 5000 + id, &format!("https://spotify.link/n{}", id), yesterday()))
        .collect();
    platform.publication = (2..=180u64)
        .rev()
        .map(|n| posted(9000 + n, 1, &format!("https://spotify.link/n{}", n - 1), yesterday()))
        .collect();
    let config = config();
    let last = platform.run_once(&config, &today());
    assert_eq!(last, RunCommand::Acknowledge { channel: REQUESTS, message: 180 });
    assert!(platform.publication[0].content.contains("https://spotify.link/n180 "));
    assert_eq!(platform.publication.len(), 180);
}

#[test]
fn a_refused_post_leaves_the_request_open_for_the_next_run() {
    let mut platform = platform();
    let config = config();
    platform.refuses_posts = true;
    let first = platform.run_once(&config, &today());
    assert_eq!(first, RunCommand::Stop { reason: StopReason::PostRefused });
    assert_eq!(platform.publication.len(), 0);
    assert_eq!(platform.acknowledged, Vec::new());
    platform.refuses_posts = false;
    let second = platform.run_once(&config, &today());
    assert_eq!(second, RunCommand::Acknowledge { channel: REQUESTS, message: 30 });
    assert_eq!(platform.publication.len(), 1);
}

#[test]
fn the_links_that_wait_are_counted() {
    let requests = vec![
        posted(50, 22, &format!("{} {}", Z, X), yesterday()),
        posted(40, 21, &format!("{} {}", X, Y), yesterday()),
        posted(30, 21, "nothing", yesterday()),
        posted(20, 23, Y, yesterday()),
    ];
    let history = vec![posted(90, 1, X, yesterday())];
    let report = print_new_links(&config(), &requests, &history);
    assert_eq!(report, NewLinks { count: 3, listed: Vec::new() });
    let verbose = config_with(|settings| settings.all_links = true);
    let report = print_new_links(&verbose, &requests, &history);
    assert_eq!(
        report,
        NewLinks { count: 3, listed: vec![Z.to_string(), Y.to_string(), Y.to_string()] }
    );
    let cutoff = config_with(|settings| {
        settings.all_links = true;
        settings.minimum_request = Some("40".to_string());
    });
    let report = print_new_links(&cutoff, &requests, &history);
    assert_eq!(report, NewLinks { count: 2, listed: vec![Z.to_string(), Y.to_string()] });
}

#[test]
fn the_links_that_wait_are_reported_from_links_as_given() {
    let scanned = |id: u64, links: &[&str]| Scanned {
        message: posted(id, 1, "as scanned", yesterday()),
        links: links.iter().map(|link| link.to_string()).collect(),
    };
    let requests = vec![scanned(3, &["a", "b", "a"]), scanned(2, &[]), scanned(1, &["c", "b"])];
    let history = vec![scanned(9, &["b"])];
    assert_eq!(
        report_new_links(&requests, &history, 0, true),
        NewLinks {
            count: 3,
            listed: vec!["a".to_string(), "a".to_string(), "c".to_string()]
        }
    );
    assert_eq!(
        report_new_links(&requests, &history, 2, false),
        NewLinks { count: 2, listed: Vec::new() }
    );
    assert_eq!(
        report_new_links(&Vec::new(), &history, 0, true),
        NewLinks { count: 0, listed: Vec::new() }
    );
}

#[test]
fn the_timer_is_registered_the_first_time_only() {
    let mut state = RotationRunState::new();
    assert!(!state.scheduler_created);
    assert_eq!(state.ready(), ReadyPlan { run_now: true, register_timer: true });
    assert!(state.scheduler_created);
    assert_eq!(state.ready(), ReadyPlan { run_now: true, register_timer: false });
    assert_eq!(state.ready(), ReadyPlan { run_now: true, register_timer: false });
    assert!(state.scheduler_created);
}

#[test]
fn only_one_claim_of_the_timer_wins() {
    let mut state = RotationRunState::new();
    assert!(state.arm());
    assert!(!state.arm());
    assert!(!state.arm());
}
