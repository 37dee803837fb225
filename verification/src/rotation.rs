//! The daily rotation: whether a run is due, what it publishes, and the
//! steps of a run from the first question to the last command.

use vstd::prelude::*;
use vstd::string::*;
use crate::calendar::{date_label, CalendarDate};
use crate::config::{Config, ConfigView};
use crate::feed::{
    feed_step, next_request, FeedProgress, FeedProgressView, FeedReply, FeedReplyView, FeedScan,
    PageRequest,
};
use crate::links::{link_set, published_links, scan_of, Scanned, ScannedView};
use crate::message::{Message, MessageView};
use crate::selector::{find_next_song, next_selection, Selection, SelectionView};
use crate::text::{decimal, decimal_text};

verus! {

/// How many of the newest entries of the publication channel are looked at
/// to tell whether something was published today.
pub const RECENT_WINDOW: u8 = 10;

/// The mark that goes on a request once it was published.
pub const ACKNOWLEDGEMENT: &'static str = "\u{2705}";

/// When the timer fires, as second, minute, hour, day, month and weekday:
/// once a day, at two in the morning by the local clock.
pub const DAILY_SCHEDULE: &'static str = "0 0 2 * * *";

/// The entries that are looked at: the first of `recent`, as many as the
/// window holds.
pub open spec fn recent_window(recent: Seq<MessageView>) -> Seq<MessageView> {
    if recent.len() > RECENT_WINDOW {
        recent.take(RECENT_WINDOW as int)
    } else {
        recent
    }
}

/// Entry `i` is the first top-level entry of `entries`.
pub open spec fn is_first_top_level(entries: Seq<MessageView>, i: int) -> bool {
    &&& 0 <= i < entries.len()
    &&& entries[i].top_level()
    &&& forall|j: int| 0 <= j < i ==> !(#[trigger] entries[j]).top_level()
}

/// Whether a run is due on `today`, where `recent` are the newest entries
/// of the publication channel, newest first: the first top-level entry in
/// the window, if there is one, was written on an earlier day.
pub open spec fn is_run_due(recent: Seq<MessageView>, today: CalendarDate) -> bool {
    forall|i: int| #[trigger]
        is_first_top_level(recent_window(recent), i) ==> recent_window(
            recent,
        )[i].posted_on.before(today)
}

/// Whether the rotation should run today.
///
/// It should where nothing was ever published, and where what was published
/// last was published on an earlier day. It should not where what was
/// published last was published today.
pub fn should_run_sotd(recent: &Vec<Message>, today: &CalendarDate) -> (due: bool)
    ensures
        due == is_run_due(recent.deep_view(), *today),
        recent.len() == 0 ==> due,
        forall|i: int| #[trigger]
            is_first_top_level(recent_window(recent.deep_view()), i) && recent_window(
                recent.deep_view(),
            )[i].posted_on == *today ==> !due,
        forall|i: int| #[trigger]
            is_first_top_level(recent_window(recent.deep_view()), i) && recent_window(
                recent.deep_view(),
            )[i].posted_on.before(*today) ==> due,
{
    let ghost entries = recent_window(recent.deep_view());
    let window: usize = if recent.len() > RECENT_WINDOW as usize {
        RECENT_WINDOW as usize
    } else {
        recent.len()
    };
    for n in 0..window
        invariant
            entries == recent_window(recent.deep_view()),
            window == entries.len(),
            window <= recent.len(),
            forall|j: int| 0 <= j < n ==> !(#[trigger] entries[j]).top_level(),
    {
        assert(entries[n as int] == recent[n as int]@);
        if !recent[n].in_thread {
            assert(is_first_top_level(entries, n as int));
            assert forall|i: int| #[trigger] is_first_top_level(entries, i) implies i == n by {
                if i < n {
                    assert(!entries[i].top_level());
                }
                if n < i {
                    assert(!entries[n as int].top_level());
                }
            }
            return recent[n].posted_on.is_before(today);
        }
    }
    assert forall|i: int| !is_first_top_level(entries, i) by {
        if 0 <= i < entries.len() {
            assert(!entries[i].top_level());
        }
    }
    true
}

/// The text that announces a publication: a heading with the day, the
/// link on a line of its own, and a line that credits the requester.
pub open spec fn announcement(label: Seq<char>, link: Seq<char>, author_id: u64) -> Seq<char> {
    "# SONG OF THE DAY "@ + label + "\n"@ + link + " \n-# Requested by <@"@ + decimal(
        author_id as nat,
    ) + ">"@
}

/// Writes the announcement of `link`, requested by `author_id`, for the day
/// that `label` names.
pub fn daily_message(label: &str, link: &str, author_id: u64) -> (text: String)
    ensures
        text@ == announcement(label@, link@, author_id),
{
    let mut text = String::from_str("# SONG OF THE DAY ");
    text.append(label);
    text.append("\n");
    text.append(link);
    text.append(" \n-# Requested by <@");
    text.append(decimal_text(author_id).as_str());
    text.append(">");
    text
}

/// Why a run ends without publishing.
#[derive(Clone, Copy, Debug, PartialEq, Eq)]
pub enum StopReason {
    /// Something was published today already.
    AlreadyPosted,
    /// No request is left that may be served.
    NothingToPost,
    /// A feed could not be read. Nothing is published of what was read.
    FeedUnavailable,
    /// The calendar has no such day as the one given for today.
    NoSuchDay,
    /// The announcement could not be posted. The request is not marked.
    PostRefused,
    /// The event does not belong to the phase that the run is in.
    OutOfTurn,
}

/// What a run asks of its caller next.
#[derive(Debug, PartialEq, Eq)]
pub enum RunCommand {
    /// Fetch the newest entries of `channel`, `limit` at most, and come
    /// back with them.
    FetchRecent { channel: u64, limit: u8 },
    /// Fetch one page of `channel` and come back with it.
    FetchPage { channel: u64, request: PageRequest },
    /// Post `text` to `channel`, and come back with how that went.
    Post { channel: u64, text: String },
    /// Put the acknowledgement on message `message` of `channel`. The run
    /// is over, whether that works or not.
    Acknowledge { channel: u64, message: u64 },
    /// A dry run: `link` of request `request_id` would have been published.
    /// The run is over.
    Withhold { link: String, request_id: u64 },
    /// The run is over and nothing is to be done.
    Stop { reason: StopReason },
}

/// The mathematical content of a [`RunCommand`].
pub enum RunCommandView {
    FetchRecent { channel: u64, limit: u8 },
    FetchPage { channel: u64, request: PageRequest },
    Post { channel: u64, text: Seq<char> },
    Acknowledge { channel: u64, message: u64 },
    Withhold { link: Seq<char>, request_id: u64 },
    Stop { reason: StopReason },
}

impl View for RunCommand {
    type V = RunCommandView;

    open spec fn view(&self) -> RunCommandView {
        match self {
            RunCommand::FetchRecent { channel, limit } => RunCommandView::FetchRecent {
                channel: *channel,
                limit: *limit,
            },
            RunCommand::FetchPage { channel, request } => RunCommandView::FetchPage {
                channel: *channel,
                request: *request,
            },
            RunCommand::Post { channel, text } => RunCommandView::Post {
                channel: *channel,
                text: text@,
            },
            RunCommand::Acknowledge { channel, message } => RunCommandView::Acknowledge {
                channel: *channel,
                message: *message,
            },
            RunCommand::Withhold { link, request_id } => RunCommandView::Withhold {
                link: link@,
                request_id: *request_id,
            },
            RunCommand::Stop { reason } => RunCommandView::Stop { reason: *reason },
        }
    }
}

/// Where a run stands.
#[derive(Debug, PartialEq, Eq)]
pub enum RunPhase {
    /// Nothing was done yet.
    Idle,
    /// The newest entries of the publication channel were asked for.
    CheckingRecent,
    /// The request feed is being read.
    ReadingRequests { scan: FeedScan },
    /// The request feed is read, and the publication feed is being read.
    ReadingHistory { requests: Vec<Message>, scan: FeedScan },
    /// The announcement of request `request_id` is being posted.
    Posting { request_id: u64 },
    /// The run is over.
    Done,
}

/// The mathematical content of a [`RunPhase`].
pub enum RunPhaseView {
    Idle,
    CheckingRecent,
    ReadingRequests { read: Seq<MessageView> },
    ReadingHistory { requests: Seq<MessageView>, read: Seq<MessageView> },
    Posting { request_id: u64 },
    Done,
}

impl View for RunPhase {
    type V = RunPhaseView;

    open spec fn view(&self) -> RunPhaseView {
        match self {
            RunPhase::Idle => RunPhaseView::Idle,
            RunPhase::CheckingRecent => RunPhaseView::CheckingRecent,
            RunPhase::ReadingRequests { scan } => RunPhaseView::ReadingRequests { read: scan@ },
            RunPhase::ReadingHistory { requests, scan } => RunPhaseView::ReadingHistory {
                requests: requests.deep_view(),
                read: scan@,
            },
            RunPhase::Posting { request_id } => RunPhaseView::Posting { request_id: *request_id },
            RunPhase::Done => RunPhaseView::Done,
        }
    }
}

/// What happened since the last step of a run.
#[derive(Debug, PartialEq, Eq)]
pub enum RunEvent {
    /// The run is to begin.
    Start,
    /// The feed source answered the last fetch.
    Feed(FeedReply),
    /// The announcement was posted.
    Posted,
    /// The announcement could not be posted.
    PostRefused,
}

/// The mathematical content of a [`RunEvent`].
pub enum RunEventView {
    Start,
    Feed(FeedReplyView),
    Posted,
    PostRefused,
}

impl View for RunEvent {
    type V = RunEventView;

    open spec fn view(&self) -> RunEventView {
        match self {
            RunEvent::Start => RunEventView::Start,
            RunEvent::Feed(reply) => RunEventView::Feed(reply@),
            RunEvent::Posted => RunEventView::Posted,
            RunEvent::PostRefused => RunEventView::PostRefused,
        }
    }
}

/// The step that ends a run with nothing done.
pub open spec fn run_stops(reason: StopReason) -> (RunPhaseView, RunCommandView) {
    (RunPhaseView::Done, RunCommandView::Stop { reason })
}

/// The step that begins to read the feeds: the request feed comes first.
pub open spec fn reading_begins(config: ConfigView) -> (RunPhaseView, RunCommandView) {
    (
        RunPhaseView::ReadingRequests { read: Seq::empty() },
        RunCommandView::FetchPage {
            channel: config.song_request_channel_id,
            request: next_request(Seq::empty()),
        },
    )
}

/// The step that follows the reading of the feeds: the run stops where no
/// request may be served; it ends with the choice withheld in a dry run; it
/// stops where today is no day of the calendar; and else the announcement
/// is posted.
pub open spec fn conclusion(
    config: ConfigView,
    picked: Option<SelectionView>,
    label: Option<Seq<char>>,
) -> (RunPhaseView, RunCommandView) {
    match picked {
        None => run_stops(StopReason::NothingToPost),
        Some(chosen) => if config.dry_run {
            (
                RunPhaseView::Done,
                RunCommandView::Withhold { link: chosen.link, request_id: chosen.request.id },
            )
        } else {
            match label {
                None => run_stops(StopReason::NoSuchDay),
                Some(day) => (
                    RunPhaseView::Posting { request_id: chosen.request.id },
                    RunCommandView::Post {
                        channel: config.song_of_the_day_channel_id,
                        text: announcement(day, chosen.link, chosen.request.author_id),
                    },
                ),
            }
        },
    }
}

/// One step of a run: from the phase it is in and what happened, to the
/// next phase and what to do.
///
/// A run first asks whether something was published today, unless it is
/// told to skip the question, and stops where something was. It then reads
/// the request feed and the publication feed to their ends, picks the next
/// request, and posts the announcement. Once that is posted, the request is
/// marked. A feed that fails ends the run at once with nothing published; a
/// post that is refused ends it with nothing marked; and an event that does
/// not belong to the phase ends it too.
pub open spec fn run_step(
    config: ConfigView,
    phase: RunPhaseView,
    event: RunEventView,
    today: CalendarDate,
) -> (RunPhaseView, RunCommandView) {
    match (phase, event) {
        (RunPhaseView::Idle, RunEventView::Start) => if config.skip_run_check {
            reading_begins(config)
        } else {
            (
                RunPhaseView::CheckingRecent,
                RunCommandView::FetchRecent {
                    channel: config.song_of_the_day_channel_id,
                    limit: RECENT_WINDOW,
                },
            )
        },
        (RunPhaseView::CheckingRecent, RunEventView::Feed(FeedReplyView::Page(recent))) => if is_run_due(
            recent,
            today,
        ) {
            reading_begins(config)
        } else {
            run_stops(StopReason::AlreadyPosted)
        },
        (RunPhaseView::CheckingRecent, RunEventView::Feed(FeedReplyView::Failed)) => run_stops(
            StopReason::FeedUnavailable,
        ),
        (RunPhaseView::ReadingRequests { read }, RunEventView::Feed(reply)) => match feed_step(
            read,
            reply,
        ) {
            FeedProgressView::More { collected, request } => (
                RunPhaseView::ReadingRequests { read: collected },
                RunCommandView::FetchPage { channel: config.song_request_channel_id, request },
            ),
            FeedProgressView::Complete { messages } => (
                RunPhaseView::ReadingHistory { requests: messages, read: Seq::empty() },
                RunCommandView::FetchPage {
                    channel: config.song_of_the_day_channel_id,
                    request: next_request(Seq::empty()),
                },
            ),
            FeedProgressView::Failed => run_stops(StopReason::FeedUnavailable),
        },
        (RunPhaseView::ReadingHistory { requests, read }, RunEventView::Feed(reply)) => match feed_step(
            read,
            reply,
        ) {
            FeedProgressView::More { collected, request } => (
                RunPhaseView::ReadingHistory { requests, read: collected },
                RunCommandView::FetchPage { channel: config.song_of_the_day_channel_id, request },
            ),
            FeedProgressView::Complete { messages } => conclusion(
                config,
                next_selection(
                    scan_of(config.spotify_regex, requests),
                    scan_of(config.spotify_regex, messages),
                    config.min_id,
                ),
                date_label(today.year, today.month, today.day),
            ),
            FeedProgressView::Failed => run_stops(StopReason::FeedUnavailable),
        },
        (RunPhaseView::Posting { request_id }, RunEventView::Posted) => (
            RunPhaseView::Done,
            RunCommandView::Acknowledge {
                channel: config.song_request_channel_id,
                message: request_id,
            },
        ),
        (RunPhaseView::Posting { .. }, RunEventView::PostRefused) => run_stops(
            StopReason::PostRefused,
        ),
        _ => run_stops(StopReason::OutOfTurn),
    }
}

/// Ends a run with nothing done.
fn stop(reason: StopReason) -> (step: (RunPhase, RunCommand))
    ensures
        (step.0@, step.1@) == run_stops(reason),
{
    (RunPhase::Done, RunCommand::Stop { reason })
}

/// Begins to read the feeds.
fn begin_reading(config: &Config) -> (step: (RunPhase, RunCommand))
    ensures
        (step.0@, step.1@) == reading_begins(config@),
{
    let (scan, request) = FeedScan::begin();
    (
        RunPhase::ReadingRequests { scan },
        RunCommand::FetchPage { channel: config.song_request_channel_id, request },
    )
}

/// Takes the step that follows the reading of the feeds: from the request
/// that was picked, if any, and from today as it is written, if the
/// calendar has it.
pub fn conclude(config: &Config, picked: Option<Selection>, label: Option<String>) -> (step: (
    RunPhase,
    RunCommand,
))
    ensures
        (step.0@, step.1@) == conclusion(config@, picked.deep_view(), label.deep_view()),
{
    match picked {
        None => stop(StopReason::NothingToPost),
        Some(chosen) => {
            if config.dry_run {
                (
                    RunPhase::Done,
                    RunCommand::Withhold { link: chosen.link, request_id: chosen.request.id },
                )
            } else {
                match label {
                    None => stop(StopReason::NoSuchDay),
                    Some(day) => (
                        RunPhase::Posting { request_id: chosen.request.id },
                        RunCommand::Post {
                            channel: config.song_of_the_day_channel_id,
                            text: daily_message(
                                day.as_str(),
                                chosen.link.as_str(),
                                chosen.request.author_id,
                            ),
                        },
                    ),
                }
            }
        },
    }
}

/// Takes a run of the rotation one step further.
///
/// The caller starts with [`RunPhase::Idle`] and [`RunEvent::Start`],
/// carries out each command, and comes back with what happened, until the
/// phase is [`RunPhase::Done`]. Whoever runs the steps of one run lets no
/// other run begin before this one is done.
pub fn post_song_of_the_day(
    config: &Config,
    phase: RunPhase,
    event: RunEvent,
    today: &CalendarDate,
) -> (step: (RunPhase, RunCommand))
    ensures
        (step.0@, step.1@) == run_step(config@, phase@, event@, *today),
{
    match (phase, event) {
        (RunPhase::Idle, RunEvent::Start) => {
            if config.skip_run_check {
                begin_reading(config)
            } else {
                (
                    RunPhase::CheckingRecent,
                    RunCommand::FetchRecent {
                        channel: config.song_of_the_day_channel_id,
                        limit: RECENT_WINDOW,
                    },
                )
            }
        },
        (RunPhase::CheckingRecent, RunEvent::Feed(FeedReply::Page(recent))) => {
            if should_run_sotd(&recent, today) {
                begin_reading(config)
            } else {
                stop(StopReason::AlreadyPosted)
            }
        },
        (RunPhase::CheckingRecent, RunEvent::Feed(FeedReply::Failed)) => {
            stop(StopReason::FeedUnavailable)
        },
        (RunPhase::ReadingRequests { scan }, RunEvent::Feed(reply)) => {
            match scan.advance(reply) {
                FeedProgress::More { scan, request } => (
                    RunPhase::ReadingRequests { scan },
                    RunCommand::FetchPage { channel: config.song_request_channel_id, request },
                ),
                FeedProgress::Complete { messages } => {
                    let (scan, request) = FeedScan::begin();
                    (
                        RunPhase::ReadingHistory { requests: messages, scan },
                        RunCommand::FetchPage {
                            channel: config.song_of_the_day_channel_id,
                            request,
                        },
                    )
                },
                FeedProgress::Failed => stop(StopReason::FeedUnavailable),
            }
        },
        (RunPhase::ReadingHistory { requests, scan }, RunEvent::Feed(reply)) => {
            match scan.advance(reply) {
                FeedProgress::More { scan, request } => (
                    RunPhase::ReadingHistory { requests, scan },
                    RunCommand::FetchPage { channel: config.song_of_the_day_channel_id, request },
                ),
                FeedProgress::Complete { messages } => {
                    let picked = find_next_song(
                        &requests,
                        &messages,
                        &config.spotify_regex,
                        config.min_id,
                    );
                    let label = if picked.is_some() && !config.dry_run {
                        today.label()
                    } else {
                        None
                    };
                    conclude(config, picked, label)
                },
                FeedProgress::Failed => stop(StopReason::FeedUnavailable),
            }
        },
        (RunPhase::Posting { request_id }, RunEvent::Posted) => (
            RunPhase::Done,
            RunCommand::Acknowledge {
                channel: config.song_request_channel_id,
                message: request_id,
            },
        ),
        (RunPhase::Posting { .. }, RunEvent::PostRefused) => stop(StopReason::PostRefused),
        _ => stop(StopReason::OutOfTurn),
    }
}

/// How often a run posts, where it is in `phase` and `events` happen one
/// after the other.
pub open spec fn posts_from(
    config: ConfigView,
    today: CalendarDate,
    phase: RunPhaseView,
    events: Seq<RunEventView>,
) -> nat
    decreases events.len(),
{
    if events.len() == 0 {
        0
    } else {
        let step = run_step(config, phase, events[0], today);
        posts_from(config, today, step.0, events.drop_first()) + if step.1 is Post {
            1nat
        } else {
            0nat
        }
    }
}

/// A run posts once at most, whatever happens and in whatever order.
pub proof fn law_run_posts_once_at_most(
    config: ConfigView,
    today: CalendarDate,
    phase: RunPhaseView,
    events: Seq<RunEventView>,
)
    ensures
        posts_from(config, today, phase, events) <= 1,
        phase is Posting || phase is Done ==> posts_from(config, today, phase, events) == 0,
    decreases events.len(),
{
    if events.len() > 0 {
        let step = run_step(config, phase, events[0], today);
        law_run_posts_once_at_most(config, today, step.0, events.drop_first());
    }
}

/// Where the newest publication is of today, a run that asks stops without
/// posting: two runs on one day do not both publish.
pub proof fn law_nothing_is_posted_twice_a_day(
    config: ConfigView,
    today: CalendarDate,
    recent: Seq<MessageView>,
    newest: int,
)
    requires
        !config.skip_run_check,
        is_first_top_level(recent_window(recent), newest),
        recent_window(recent)[newest].posted_on == today,
    ensures
        run_step(config, RunPhaseView::Idle, RunEventView::Start, today).0
            == RunPhaseView::CheckingRecent,
        run_step(
            config,
            RunPhaseView::CheckingRecent,
            RunEventView::Feed(FeedReplyView::Page(recent)),
            today,
        ) == run_stops(StopReason::AlreadyPosted),
{
}

/// Those of `links` that `published` does not hold, in their order.
pub open spec fn fresh_links(links: Seq<Seq<char>>, published: Set<Seq<char>>) -> Seq<Seq<char>>
    decreases links.len(),
{
    if links.len() == 0 {
        Seq::empty()
    } else {
        let before = fresh_links(links.drop_last(), published);
        if published.contains(links.last()) {
            before
        } else {
            before.push(links.last())
        }
    }
}

/// The links of the requests that are recent enough, as far as `published`
/// does not hold them: request by request in the order of the feed, each
/// link as often as it occurs.
pub open spec fn new_links(
    requests: Seq<ScannedView>,
    published: Set<Seq<char>>,
    ignore_before: u64,
) -> Seq<Seq<char>>
    decreases requests.len(),
{
    if requests.len() == 0 {
        Seq::empty()
    } else {
        new_links(requests.drop_last(), published, ignore_before) + if requests.last().message.id
            >= ignore_before {
            fresh_links(requests.last().links, published)
        } else {
            Seq::empty()
        }
    }
}

/// What is reported of the requests that wait to be published.
#[derive(Debug, PartialEq, Eq)]
pub struct NewLinks {
    /// How many links wait.
    pub count: usize,
    /// The links themselves, where they were asked for.
    pub listed: Vec<String>,
}

/// What the report lists: every link that waits where that was asked for,
/// and nothing otherwise.
pub open spec fn listing(waiting: Seq<Seq<char>>, list_all: bool) -> Seq<Seq<char>> {
    if list_all {
        waiting
    } else {
        Seq::empty()
    }
}

/// Reports the links that wait, from feeds whose links are known.
pub fn report_new_links(
    requests: &Vec<Scanned>,
    history: &Vec<Scanned>,
    ignore_before: u64,
    list_all: bool,
) -> (report: NewLinks)
    ensures
        report.count == new_links(
            requests.deep_view(),
            link_set(history.deep_view()),
            ignore_before,
        ).len(),
        report.listed.deep_view() == listing(
            new_links(requests.deep_view(), link_set(history.deep_view()), ignore_before),
            list_all,
        ),
{
    let ghost asked = requests.deep_view();
    let published = published_links(history);
    let mut waiting: Vec<String> = Vec::new();
    assert(asked.take(0) =~= Seq::<ScannedView>::empty());
    assert(waiting.deep_view() =~= new_links(asked.take(0), published@, ignore_before));
    for n in 0..requests.len()
        invariant
            asked == requests.deep_view(),
            waiting.deep_view() == new_links(asked.take(n as int), published@, ignore_before),
    {
        let ghost before = waiting.deep_view();
        assert(asked.take(n + 1).drop_last() =~= asked.take(n as int));
        assert(asked.take(n + 1).last() == requests[n as int]@);
        if requests[n].message.id >= ignore_before {
            let links = &requests[n].links;
            assert(links.deep_view().take(0) =~= Seq::<Seq<char>>::empty());
            assert(waiting.deep_view() =~= before + fresh_links(
                links.deep_view().take(0),
                published@,
            ));
            for k in 0..links.len()
                invariant
                    waiting.deep_view() == before + fresh_links(
                        links.deep_view().take(k as int),
                        published@,
                    ),
            {
                let ghost so_far = waiting.deep_view();
                assert(links.deep_view().take(k + 1).drop_last() =~= links.deep_view().take(
                    k as int,
                ));
                assert(links.deep_view().take(k + 1).last() == links[k as int]@);
                if !published.contains(links[k].as_str()) {
                    waiting.push(links[k].clone());
                    assert(waiting.deep_view() =~= so_far.push(links[k as int]@));
                    assert(waiting.deep_view() =~= before + fresh_links(
                        links.deep_view().take(k + 1),
                        published@,
                    ));
                }
            }
            assert(links.deep_view().take(links.len() as int) =~= links.deep_view());
        } else {
            assert(waiting.deep_view() =~= before + Seq::<Seq<char>>::empty());
        }
    }
    assert(asked.take(requests.len() as int) =~= asked);
    let count = waiting.len();
    let listed = if list_all {
        waiting
    } else {
        Vec::new()
    };
    assert(listed.deep_view() =~= listing(
        new_links(asked, published@, ignore_before),
        list_all,
    ));
    NewLinks { count, listed }
}

/// Reports the links that wait to be published: those of the requests that
/// are recent enough which the publication feed does not hold.
pub fn print_new_links(config: &Config, requests: &Vec<Message>, history: &Vec<Message>) -> (report:
    NewLinks)
    ensures
        report.count == new_links(
            scan_of(config@.spotify_regex, requests.deep_view()),
            link_set(scan_of(config@.spotify_regex, history.deep_view())),
            config.min_id,
        ).len(),
        report.listed.deep_view() == listing(
            new_links(
                scan_of(config@.spotify_regex, requests.deep_view()),
                link_set(scan_of(config@.spotify_regex, history.deep_view())),
                config.min_id,
            ),
            config.all_links,
        ),
{
    let asked = config.spotify_regex.scan(requests);
    let past = config.spotify_regex.scan(history);
    report_new_links(&asked, &past, config.min_id, config.all_links)
}

/// What the process remembers of the rotation from one trigger to the next.
#[derive(Clone, Copy, Debug, PartialEq, Eq)]
pub struct RotationRunState {
    /// Whether the daily timer was registered.
    pub scheduler_created: bool,
}

/// What to do when the connection to the platform is ready.
#[derive(Clone, Copy, Debug, PartialEq, Eq)]
pub struct ReadyPlan {
    /// Run the rotation now.
    pub run_now: bool,
    /// Register the daily timer.
    pub register_timer: bool,
}

impl RotationRunState {
    /// What is planned when the connection is ready: the rotation runs, and
    /// the timer is registered if it was not before.
    pub open spec fn plan(self) -> ReadyPlan {
        ReadyPlan { run_now: true, register_timer: !self.scheduler_created }
    }

    /// The state once the connection was ready: the timer is registered.
    pub open spec fn after_ready(self) -> RotationRunState {
        RotationRunState { scheduler_created: true }
    }

    /// The state of a process that has registered no timer.
    pub fn new() -> (state: RotationRunState)
        ensures
            !state.scheduler_created,
    {
        RotationRunState { scheduler_created: false }
    }

    /// Claims the registration of the timer. Only the caller that finds it
    /// unclaimed wins; the claim stands for good.
    pub fn arm(&mut self) -> (won: bool)
        ensures
            won == !old(self).scheduler_created,
            final(self).scheduler_created,
    {
        let won = !self.scheduler_created;
        self.scheduler_created = true;
        won
    }

    /// Plans what to do when the platform reports that the connection is
    /// ready, which it may do more than once: the rotation runs each time,
    /// and the timer is registered the first time only.
    pub fn ready(&mut self) -> (plan: ReadyPlan)
        ensures
            plan == old(self).plan(),
            *final(self) == old(self).after_ready(),
    {
        let register_timer = self.arm();
        ReadyPlan { run_now: true, register_timer }
    }
}

/// The state after the connection was ready `n` times.
pub open spec fn after_readies(state: RotationRunState, n: nat) -> RotationRunState
    decreases n,
{
    if n == 0 {
        state
    } else {
        after_readies(state, (n - 1) as nat).after_ready()
    }
}

/// However often the connection is ready, the timer is registered once at
/// most: of any two times, the later one registers nothing.
pub proof fn law_timer_is_registered_once(state: RotationRunState, earlier: nat, later: nat)
    requires
        earlier < later,
    ensures
        !after_readies(state, later).plan().register_timer,
{
}

} // verus!
