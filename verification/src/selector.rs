//! Choosing the next request to publish: the oldest request with a link that
//! was never published, passing over whoever was served last.

use vstd::prelude::*;
use vstd::hash_set::StringHashSet;
use crate::links::{link_set, published_links, scan_of, LinkPattern, Scanned, ScannedView};
use crate::message::{Message, MessageView};

verus! {

/// Entry `j` of the history was published no later than entry `i`: by its
/// ordering key, and of two entries with one key by its place in the feed.
pub open spec fn published_no_later(history: Seq<ScannedView>, j: int, i: int) -> bool {
    history[j].message.id < history[i].message.id || (history[j].message.id
        == history[i].message.id && j <= i)
}

/// Entry `i` is the most recent top-level entry of the history.
pub open spec fn is_latest_top_level(history: Seq<ScannedView>, i: int) -> bool {
    &&& 0 <= i < history.len()
    &&& history[i].message.top_level()
    &&& forall|j: int|
        0 <= j < history.len() && (#[trigger] history[j]).message.top_level()
            ==> published_no_later(history, j, i)
}

/// The link that the most recent top-level entry announced: the first one in
/// it. There is none where the history has no top-level entry, or where that
/// entry carries no link.
pub open spec fn latest_link(history: Seq<ScannedView>) -> Option<Seq<char>> {
    if exists|i: int| is_latest_top_level(history, i) {
        let i = choose|i: int| is_latest_top_level(history, i);
        if history[i].links.len() > 0 {
            Some(history[i].links[0])
        } else {
            None
        }
    } else {
        None
    }
}

/// A request that is recent enough to count and carries `link`.
pub open spec fn carries(request: ScannedView, link: Seq<char>, ignore_before: u64) -> bool {
    request.message.id >= ignore_before && request.links.contains(link)
}

/// Request `i` is the first of the feed that carries `link`.
pub open spec fn is_first_carrier(
    requests: Seq<ScannedView>,
    link: Seq<char>,
    ignore_before: u64,
    i: int,
) -> bool {
    &&& 0 <= i < requests.len()
    &&& carries(requests[i], link, ignore_before)
    &&& forall|j: int| 0 <= j < i ==> !carries(#[trigger] requests[j], link, ignore_before)
}

/// The author of the first request that carries `link`.
pub open spec fn requester_of(
    requests: Seq<ScannedView>,
    link: Seq<char>,
    ignore_before: u64,
) -> Option<u64> {
    if exists|i: int| is_first_carrier(requests, link, ignore_before, i) {
        let i = choose|i: int| is_first_carrier(requests, link, ignore_before, i);
        Some(requests[i].message.author_id)
    } else {
        None
    }
}

/// Who asked for what was published last.
pub open spec fn yesterdays_requester(
    history: Seq<ScannedView>,
    requests: Seq<ScannedView>,
    ignore_before: u64,
) -> Option<u64> {
    match latest_link(history) {
        Some(link) => requester_of(requests, link, ignore_before),
        None => None,
    }
}

/// Request `i` is served before request `j`: the older one first, and of two
/// requests with one ordering key the one that stands first in the feed.
pub open spec fn served_before(requests: Seq<ScannedView>, i: int, j: int) -> bool {
    requests[i].message.id < requests[j].message.id || (requests[i].message.id
        == requests[j].message.id && i < j)
}

/// Link `k` of `links` was never published, and every link before it was.
pub open spec fn is_first_fresh(links: Seq<Seq<char>>, k: int, published: Set<Seq<char>>) -> bool {
    &&& 0 <= k < links.len()
    &&& !published.contains(links[k])
    &&& forall|m: int| 0 <= m < k ==> published.contains(#[trigger] links[m])
}

/// Request `i` may be served: it is recent enough, its author is not the
/// barred one, and one of its links was never published.
pub open spec fn is_candidate(
    requests: Seq<ScannedView>,
    i: int,
    published: Set<Seq<char>>,
    barred: Option<u64>,
    ignore_before: u64,
) -> bool {
    &&& 0 <= i < requests.len()
    &&& requests[i].message.id >= ignore_before
    &&& barred != Some(requests[i].message.author_id)
    &&& exists|k: int| is_first_fresh(requests[i].links, k, published)
}

/// Request `i` is the candidate that is served before every other.
pub open spec fn is_first_candidate(
    requests: Seq<ScannedView>,
    i: int,
    published: Set<Seq<char>>,
    barred: Option<u64>,
    ignore_before: u64,
) -> bool {
    &&& is_candidate(requests, i, published, barred, ignore_before)
    &&& forall|j: int|
        j != i && #[trigger] is_candidate(requests, j, published, barred, ignore_before)
            ==> served_before(requests, i, j)
}

/// What the rotation publishes next: a request and one link of it.
#[derive(Debug, PartialEq, Eq)]
pub struct Selection {
    pub request: Message,
    pub link: String,
}

/// The mathematical content of a [`Selection`].
pub struct SelectionView {
    pub request: MessageView,
    pub link: Seq<char>,
}

impl View for Selection {
    type V = SelectionView;

    open spec fn view(&self) -> SelectionView {
        SelectionView { request: self.request@, link: self.link@ }
    }
}

impl DeepView for Selection {
    type V = SelectionView;

    open spec fn deep_view(&self) -> SelectionView {
        self@
    }
}

/// The first candidate with its first unpublished link, where `published`
/// holds what must not be served again and `barred` who must wait a turn.
pub open spec fn first_choice(
    requests: Seq<ScannedView>,
    published: Set<Seq<char>>,
    barred: Option<u64>,
    ignore_before: u64,
) -> Option<SelectionView> {
    if exists|i: int| is_first_candidate(requests, i, published, barred, ignore_before) {
        let i = choose|i: int| is_first_candidate(requests, i, published, barred, ignore_before);
        let k = choose|k: int| is_first_fresh(requests[i].links, k, published);
        Some(SelectionView { request: requests[i].message, link: requests[i].links[k] })
    } else {
        None
    }
}

/// The next request to publish and the link to publish from it.
pub open spec fn next_selection(
    requests: Seq<ScannedView>,
    history: Seq<ScannedView>,
    ignore_before: u64,
) -> Option<SelectionView> {
    first_choice(
        requests,
        link_set(history),
        yesterdays_requester(history, requests, ignore_before),
        ignore_before,
    )
}

/// `order` lists those of the first `n` requests that are recent enough,
/// each once, in the order in which they are served.
spec fn is_serving_order_of_first(
    requests: Seq<ScannedView>,
    ignore_before: u64,
    order: Seq<usize>,
    n: int,
) -> bool {
    &&& forall|q: int|
        0 <= q < order.len() ==> (#[trigger] order[q]) < n && requests[order[q] as int].message.id
            >= ignore_before
    &&& forall|p: int, q: int|
        0 <= p < q < order.len() ==> served_before(
            requests,
            #[trigger] order[p] as int,
            #[trigger] order[q] as int,
        )
    &&& forall|i: int|
        0 <= i < n && (#[trigger] requests[i]).message.id >= ignore_before ==> exists|q: int|
            0 <= q < order.len() && #[trigger] order[q] == i
}

/// `order` lists the requests that are recent enough, each once, in the order
/// in which they are served.
spec fn is_serving_order(
    requests: Seq<ScannedView>,
    ignore_before: u64,
    order: Seq<usize>,
) -> bool {
    is_serving_order_of_first(requests, ignore_before, order, requests.len() as int)
}

/// The history has one most recent top-level entry at most.
pub proof fn lemma_latest_top_level_is_unique(history: Seq<ScannedView>, a: int, b: int)
    requires
        is_latest_top_level(history, a),
        is_latest_top_level(history, b),
    ensures
        a == b,
{
    assert(published_no_later(history, a, b));
    assert(published_no_later(history, b, a));
}

/// A link has one first carrier at most.
pub proof fn lemma_first_carrier_is_unique(
    requests: Seq<ScannedView>,
    link: Seq<char>,
    ignore_before: u64,
    a: int,
    b: int,
)
    requires
        is_first_carrier(requests, link, ignore_before, a),
        is_first_carrier(requests, link, ignore_before, b),
    ensures
        a == b,
{
    if a < b {
        assert(!carries(requests[a], link, ignore_before));
    }
    if b < a {
        assert(!carries(requests[b], link, ignore_before));
    }
}

proof fn lemma_first_fresh_is_unique(
    links: Seq<Seq<char>>,
    published: Set<Seq<char>>,
    a: int,
    b: int,
)
    requires
        is_first_fresh(links, a, published),
        is_first_fresh(links, b, published),
    ensures
        a == b,
{
    if a < b {
        assert(published.contains(links[a]));
    }
    if b < a {
        assert(published.contains(links[b]));
    }
}

proof fn lemma_first_candidate_is_unique(
    requests: Seq<ScannedView>,
    published: Set<Seq<char>>,
    barred: Option<u64>,
    ignore_before: u64,
    a: int,
    b: int,
)
    requires
        is_first_candidate(requests, a, published, barred, ignore_before),
        is_first_candidate(requests, b, published, barred, ignore_before),
    ensures
        a == b,
{
    if a != b {
        assert(served_before(requests, a, b));
        assert(served_before(requests, b, a));
    }
}

/// The place of the most recent top-level entry of the history.
fn latest_top_level(history: &Vec<Scanned>) -> (latest: Option<usize>)
    ensures
        match latest {
            Some(i) => is_latest_top_level(history.deep_view(), i as int),
            None => forall|i: int| !is_latest_top_level(history.deep_view(), i),
        },
{
    let ghost feed = history.deep_view();
    let mut latest: Option<usize> = None;
    for n in 0..history.len()
        invariant
            feed == history.deep_view(),
            match latest {
                Some(i) => {
                    &&& i < n
                    &&& feed[i as int].message.top_level()
                    &&& forall|j: int|
                        0 <= j < n && (#[trigger] feed[j]).message.top_level()
                            ==> published_no_later(feed, j, i as int)
                },
                None => forall|j: int| 0 <= j < n ==> !(#[trigger] feed[j]).message.top_level(),
            },
    {
        assert(feed[n as int] == history[n as int]@);
        if !history[n].message.in_thread {
            let newer = match latest {
                Some(i) => {
                    assert(feed[i as int] == history[i as int]@);
                    history[i].message.id <= history[n].message.id
                },
                None => true,
            };
            if newer {
                latest = Some(n);
            }
        }
    }
    latest
}

/// Whether one of `links` is `link`.
fn has_link(links: &Vec<String>, link: &String) -> (found: bool)
    ensures
        found == links.deep_view().contains(link@),
{
    for k in 0..links.len()
        invariant
            forall|m: int| 0 <= m < k ==> links.deep_view()[m] != link@,
    {
        if links[k] == *link {
            assert(links.deep_view()[k as int] == link@);
            return true;
        }
    }
    false
}

/// The author of the first request, among those that are recent enough,
/// whose links hold the first link of the most recent top-level entry of the
/// history.
pub fn get_yesterdays_requester(
    history: &Vec<Scanned>,
    requests: &Vec<Scanned>,
    ignore_before: u64,
) -> (requester: Option<u64>)
    ensures
        requester == yesterdays_requester(
            history.deep_view(),
            requests.deep_view(),
            ignore_before,
        ),
{
    let ghost past = history.deep_view();
    let ghost asked = requests.deep_view();
    let latest = match latest_top_level(history) {
        Some(i) => i,
        None => {
            return None;
        },
    };
    proof {
        let chosen = choose|i: int| is_latest_top_level(past, i);
        lemma_latest_top_level_is_unique(past, latest as int, chosen);
        assert(past[latest as int] == history[latest as int]@);
    }
    if history[latest].links.len() == 0 {
        return None;
    }
    let link = &history[latest].links[0];
    assert(latest_link(past) == Some(link@));
    for n in 0..requests.len()
        invariant
            asked == requests.deep_view(),
            latest_link(past) == Some(link@),
            past == history.deep_view(),
            forall|j: int| 0 <= j < n ==> !carries(#[trigger] asked[j], link@, ignore_before),
    {
        assert(asked[n as int] == requests[n as int]@);
        if requests[n].message.id >= ignore_before && has_link(&requests[n].links, link) {
            proof {
                assert(is_first_carrier(asked, link@, ignore_before, n as int));
                let chosen = choose|i: int| is_first_carrier(asked, link@, ignore_before, i);
                lemma_first_carrier_is_unique(asked, link@, ignore_before, n as int, chosen);
            }
            return Some(requests[n].message.author_id);
        }
    }
    None
}

proof fn lemma_order_grows_by_insertion(
    requests: Seq<ScannedView>,
    ignore_before: u64,
    earlier: Seq<usize>,
    place: int,
    n: usize,
)
    requires
        n < requests.len(),
        requests[n as int].message.id >= ignore_before,
        is_serving_order_of_first(requests, ignore_before, earlier, n as int),
        0 <= place <= earlier.len(),
        forall|q: int|
            0 <= q < place ==> requests[(#[trigger] earlier[q]) as int].message.id
                <= requests[n as int].message.id,
        place < earlier.len() ==> requests[earlier[place] as int].message.id
            > requests[n as int].message.id,
    ensures
        is_serving_order_of_first(requests, ignore_before, earlier.insert(place, n), n + 1),
{
    let later = earlier.insert(place, n);
    earlier.insert_ensures(place, n);
    assert forall|q: int| 0 <= q < later.len() implies (#[trigger] later[q]) < n + 1
        && requests[later[q] as int].message.id >= ignore_before by {
        if q < place {
            assert(later[q] == earlier[q]);
        } else if q > place {
            assert(later[q] == earlier[q - 1]);
        }
    }
    assert forall|p: int, q: int| 0 <= p < q < later.len() implies served_before(
        requests,
        #[trigger] later[p] as int,
        #[trigger] later[q] as int,
    ) by {
        if q < place {
            assert(later[p] == earlier[p] && later[q] == earlier[q]);
        } else if q == place {
            assert(later[p] == earlier[p]);
            assert(later[q] == n);
            assert(earlier[p] < n);
        } else {
            assert(later[q] == earlier[q - 1]);
            if place < q - 1 {
                assert(served_before(requests, earlier[place] as int, earlier[q - 1] as int));
            }
            if p < place {
                assert(later[p] == earlier[p]);
            } else if p == place {
                assert(later[p] == n);
            } else {
                assert(later[p] == earlier[p - 1]);
            }
        }
    }
    assert forall|i: int|
        0 <= i < n + 1 && (#[trigger] requests[i]).message.id >= ignore_before implies exists|
        q: int,
    |
        0 <= q < later.len() && #[trigger] later[q] == i by {
        if i == n {
            assert(later[place] == i);
        } else {
            let q = choose|q: int| 0 <= q < earlier.len() && #[trigger] earlier[q] == i;
            if q < place {
                assert(later[q] == i);
            } else {
                assert(later[q + 1] == earlier[q]);
                assert(later[q + 1] == i);
            }
        }
    }
}

/// The requests that are recent enough, oldest first.
fn serving_order(requests: &Vec<Scanned>, ignore_before: u64) -> (order: Vec<usize>)
    ensures
        is_serving_order(requests.deep_view(), ignore_before, order@),
{
    let ghost asked = requests.deep_view();
    let mut order: Vec<usize> = Vec::new();
    for n in 0..requests.len()
        invariant
            asked == requests.deep_view(),
            is_serving_order_of_first(asked, ignore_before, order@, n as int),
    {
        assert(asked[n as int] == requests[n as int]@);
        let key = requests[n].message.id;
        if key >= ignore_before {
            let mut place: usize = 0;
            while place < order.len() && requests[order[place]].message.id <= key
                invariant
                    asked == requests.deep_view(),
                    place <= order.len(),
                    n < requests.len(),
                    key == asked[n as int].message.id,
                    is_serving_order_of_first(asked, ignore_before, order@, n as int),
                    forall|q: int|
                        0 <= q < place ==> asked[(#[trigger] order[q]) as int].message.id <= key,
                decreases order.len() - place,
            {
                assert(asked[order[place as int] as int] == requests[order[place as int] as int]@);
                place += 1;
            }
            proof {
                if place < order.len() {
                    assert(asked[order[place as int] as int] == requests[order[place as int] as int]@);
                }
                lemma_order_grows_by_insertion(asked, ignore_before, order@, place as int, n);
            }
            order.insert(place, n);
        }
    }
    order
}

/// The first link of `links` that `published` does not hold.
fn first_fresh_link(links: &Vec<String>, published: &StringHashSet) -> (fresh: Option<usize>)
    ensures
        match fresh {
            Some(k) => is_first_fresh(links.deep_view(), k as int, published@),
            None => forall|k: int| !is_first_fresh(links.deep_view(), k, published@),
        },
{
    for k in 0..links.len()
        invariant
            forall|m: int| 0 <= m < k ==> published@.contains(#[trigger] links.deep_view()[m]),
    {
        if !published.contains(links[k].as_str()) {
            return Some(k);
        }
    }
    None
}

/// A first candidate and its first unpublished link are the first choice.
pub proof fn lemma_first_choice_is(
    requests: Seq<ScannedView>,
    published: Set<Seq<char>>,
    barred: Option<u64>,
    ignore_before: u64,
    i: int,
    k: int,
)
    requires
        is_first_candidate(requests, i, published, barred, ignore_before),
        is_first_fresh(requests[i].links, k, published),
    ensures
        first_choice(requests, published, barred, ignore_before) == Some(
            SelectionView { request: requests[i].message, link: requests[i].links[k] },
        ),
{
    let first = choose|c: int| is_first_candidate(requests, c, published, barred, ignore_before);
    lemma_first_candidate_is_unique(requests, published, barred, ignore_before, i, first);
    let fresh = choose|f: int| is_first_fresh(requests[i].links, f, published);
    lemma_first_fresh_is_unique(requests[i].links, published, k, fresh);
}

proof fn lemma_first_of_order_is_first_candidate(
    requests: Seq<ScannedView>,
    published: Set<Seq<char>>,
    barred: Option<u64>,
    ignore_before: u64,
    order: Seq<usize>,
    at: int,
)
    requires
        is_serving_order(requests, ignore_before, order),
        0 <= at < order.len(),
        is_candidate(requests, order[at] as int, published, barred, ignore_before),
        forall|q: int|
            0 <= q < at ==> !is_candidate(
                requests,
                (#[trigger] order[q]) as int,
                published,
                barred,
                ignore_before,
            ),
    ensures
        is_first_candidate(requests, order[at] as int, published, barred, ignore_before),
{
    let i = order[at] as int;
    assert forall|j: int|
        j != i && #[trigger] is_candidate(
            requests,
            j,
            published,
            barred,
            ignore_before,
        ) implies served_before(requests, i, j) by {
        assert(requests[j].message.id >= ignore_before);
        let q = choose|q: int| 0 <= q < order.len() && #[trigger] order[q] == j;
        assert(order[q] as int == j);
        if q < at {
            assert(!is_candidate(requests, order[q] as int, published, barred, ignore_before));
        } else {
            assert(served_before(requests, order[at] as int, order[q] as int));
        }
    }
}

proof fn lemma_no_candidate_outside_order(
    requests: Seq<ScannedView>,
    published: Set<Seq<char>>,
    barred: Option<u64>,
    ignore_before: u64,
    order: Seq<usize>,
)
    requires
        is_serving_order(requests, ignore_before, order),
        forall|q: int|
            0 <= q < order.len() ==> !is_candidate(
                requests,
                (#[trigger] order[q]) as int,
                published,
                barred,
                ignore_before,
            ),
    ensures
        first_choice(requests, published, barred, ignore_before) is None,
{
    assert forall|c: int| !is_candidate(requests, c, published, barred, ignore_before) by {
        if is_candidate(requests, c, published, barred, ignore_before) {
            assert(requests[c].message.id >= ignore_before);
            let q = choose|q: int| 0 <= q < order.len() && #[trigger] order[q] == c;
            assert(!is_candidate(requests, order[q] as int, published, barred, ignore_before));
        }
    }
}

/// Picks the request to publish next from feeds whose links are known.
///
/// Requests older than `ignore_before` do not count. Whoever asked for the
/// entry published last is passed over, and so is every link that the history
/// already holds. Of what is left the oldest request wins, with the first of
/// its links that was never published.
pub fn select_next(requests: &Vec<Scanned>, history: &Vec<Scanned>, ignore_before: u64) -> (picked:
    Option<Selection>)
    ensures
        picked.deep_view() == next_selection(
            requests.deep_view(),
            history.deep_view(),
            ignore_before,
        ),
        picked matches Some(chosen) ==> !link_set(history.deep_view()).contains(chosen.link@),
        picked matches Some(chosen) ==> yesterdays_requester(
            history.deep_view(),
            requests.deep_view(),
            ignore_before,
        ) != Some(chosen.request.author_id),
{
    let ghost asked = requests.deep_view();
    let ghost past = history.deep_view();
    let published = published_links(history);
    let barred = get_yesterdays_requester(history, requests, ignore_before);
    let order = serving_order(requests, ignore_before);
    for at in 0..order.len()
        invariant
            asked == requests.deep_view(),
            past == history.deep_view(),
            published@ == link_set(past),
            barred == yesterdays_requester(past, asked, ignore_before),
            is_serving_order(asked, ignore_before, order@),
            forall|q: int|
                0 <= q < at ==> !is_candidate(
                    asked,
                    (#[trigger] order[q]) as int,
                    published@,
                    barred,
                    ignore_before,
                ),
    {
        let i = order[at];
        assert(i < requests.len());
        assert(asked[i as int] == requests[i as int]@);
        let waits = match barred {
            Some(author) => author == requests[i].message.author_id,
            None => false,
        };
        let fresh = if waits {
            None
        } else {
            first_fresh_link(&requests[i].links, &published)
        };
        match fresh {
            Some(k) => {
                let chosen = Selection {
                    request: requests[i].message.clone(),
                    link: requests[i].links[k].clone(),
                };
                proof {
                    assert(is_first_fresh(asked[i as int].links, k as int, published@));
                    assert(is_candidate(asked, i as int, published@, barred, ignore_before));
                    lemma_first_of_order_is_first_candidate(
                        asked,
                        published@,
                        barred,
                        ignore_before,
                        order@,
                        at as int,
                    );
                    lemma_first_choice_is(
                        asked,
                        published@,
                        barred,
                        ignore_before,
                        i as int,
                        k as int,
                    );
                    assert(asked[i as int].links[k as int] == chosen.link@);
                }
                return Some(chosen);
            },
            None => {
                assert(!is_candidate(asked, i as int, published@, barred, ignore_before));
            },
        }
    }
    proof {
        lemma_no_candidate_outside_order(asked, published@, barred, ignore_before, order@);
    }
    None
}

/// Picks the request to publish next from the two feeds as they were fetched:
/// finds the links of every message with `pattern`, then chooses as
/// [`select_next`] does.
pub fn find_next_song(
    requests: &Vec<Message>,
    history: &Vec<Message>,
    pattern: &LinkPattern,
    ignore_before: u64,
) -> (picked: Option<Selection>)
    ensures
        picked.deep_view() == next_selection(
            scan_of(pattern@, requests.deep_view()),
            scan_of(pattern@, history.deep_view()),
            ignore_before,
        ),
        picked matches Some(chosen) ==> !link_set(
            scan_of(pattern@, history.deep_view()),
        ).contains(chosen.link@),
        picked matches Some(chosen) ==> yesterdays_requester(
            scan_of(pattern@, history.deep_view()),
            scan_of(pattern@, requests.deep_view()),
            ignore_before,
        ) != Some(chosen.request.author_id),
{
    let asked = pattern.scan(requests);
    let past = pattern.scan(history);
    select_next(&asked, &past, ignore_before)
}

/// Request `i` could be served if nobody had to wait: it is recent enough
/// and one of its links was never published.
pub open spec fn is_open_request(
    requests: Seq<ScannedView>,
    i: int,
    published: Set<Seq<char>>,
    ignore_before: u64,
) -> bool {
    is_candidate(requests, i, published, None, ignore_before)
}

/// A link that the history holds is never selected again, whoever asks for
/// it and however often.
pub proof fn law_published_link_is_never_selected(
    requests: Seq<ScannedView>,
    history: Seq<ScannedView>,
    ignore_before: u64,
)
    ensures
        next_selection(requests, history, ignore_before) matches Some(chosen) ==> !link_set(
            history,
        ).contains(chosen.link),
{
    let published = link_set(history);
    let barred = yesterdays_requester(history, requests, ignore_before);
    if exists|i: int| is_first_candidate(requests, i, published, barred, ignore_before) {
        let i = choose|i: int| is_first_candidate(requests, i, published, barred, ignore_before);
        let k = choose|k: int| is_first_fresh(requests[i].links, k, published);
        assert(is_first_fresh(requests[i].links, k, published));
    }
}

/// Whoever asked for the entry published last waits a turn: none of that
/// author's requests is selected, however old. What is selected instead is
/// the open request of another author that is served before every other such
/// request, and nothing is selected only if no other author has an open
/// request.
pub proof fn law_last_requester_waits_a_turn(
    requests: Seq<ScannedView>,
    history: Seq<ScannedView>,
    ignore_before: u64,
    last: u64,
)
    requires
        yesterdays_requester(history, requests, ignore_before) == Some(last),
    ensures
        match next_selection(requests, history, ignore_before) {
            Some(chosen) => {
                &&& chosen.request.author_id != last
                &&& exists|i: int|
                    {
                        &&& #[trigger] is_open_request(
                            requests,
                            i,
                            link_set(history),
                            ignore_before,
                        )
                        &&& chosen.request == requests[i].message
                        &&& forall|j: int|
                            j != i && requests[j].message.author_id != last
                                && #[trigger] is_open_request(
                                requests,
                                j,
                                link_set(history),
                                ignore_before,
                            ) ==> served_before(requests, i, j)
                    }
            },
            None => forall|j: int|
                #[trigger] is_open_request(requests, j, link_set(history), ignore_before)
                    ==> requests[j].message.author_id == last,
        },
{
    let published = link_set(history);
    let barred = Some(last);
    if exists|i: int| is_first_candidate(requests, i, published, barred, ignore_before) {
        let i = choose|i: int| is_first_candidate(requests, i, published, barred, ignore_before);
        assert(is_open_request(requests, i, published, ignore_before));
        assert forall|j: int|
            j != i && requests[j].message.author_id != last && #[trigger] is_open_request(
                requests,
                j,
                published,
                ignore_before,
            ) implies served_before(requests, i, j) by {
            assert(is_candidate(requests, j, published, barred, ignore_before));
        }
    } else {
        assert forall|j: int| #[trigger]
            is_open_request(requests, j, published, ignore_before) implies requests[j].message.author_id
            == last by {
            if requests[j].message.author_id != last {
                assert(is_candidate(requests, j, published, barred, ignore_before));
                lemma_some_candidate_is_first(requests, published, barred, ignore_before, j);
            }
        }
    }
}

/// Where there is a candidate, there is a first one.
proof fn lemma_some_candidate_is_first(
    requests: Seq<ScannedView>,
    published: Set<Seq<char>>,
    barred: Option<u64>,
    ignore_before: u64,
    c: int,
)
    requires
        is_candidate(requests, c, published, barred, ignore_before),
    ensures
        exists|i: int| is_first_candidate(requests, i, published, barred, ignore_before),
    decreases requests[c].message.id, c,
{
    if exists|j: int|
        j != c && is_candidate(requests, j, published, barred, ignore_before) && !served_before(
            requests,
            c,
            j,
        ) {
        let j = choose|j: int|
            j != c && is_candidate(requests, j, published, barred, ignore_before)
                && !served_before(requests, c, j);
        lemma_some_candidate_is_first(requests, published, barred, ignore_before, j);
    } else {
        assert(is_first_candidate(requests, c, published, barred, ignore_before));
    }
}

} // verus!
