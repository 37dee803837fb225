//! Finding the links that a message carries.

use vstd::prelude::*;
use vstd::hash_set::StringHashSet;
use regex::Regex;
use crate::message::{Message, MessageView};

verus! {

/// The two shapes of a track link that the rotation knows.
pub const SPOTIFY_LINK_PATTERN: &'static str =
    "https?://(?:open\\.spotify\\.com/track/[^\\s?]+|spotify\\.link/[^\\s?]+)";

/// The error of `regex::Regex::new`. It is handed on as it comes and never
/// looked into.
#[verifier::external_type_specification]
#[verifier::external_body]
pub struct ExRegexError(regex::Error);

/// Whether `regex::Regex::new` accepts `pattern`.
pub uninterp spec fn pattern_compiles(pattern: Seq<char>) -> bool;

/// What `regex::Regex::find_iter` yields for `pattern` on `text`: the
/// successive non-overlapping matches, from left to right.
pub uninterp spec fn pattern_matches(pattern: Seq<char>, text: Seq<char>) -> Seq<Seq<char>>;

/// Compiles `pattern` with `regex::Regex::new` and collects what
/// `regex::Regex::find_iter` yields on `text`, each match as the text it
/// covers. Nothing is proved of either call: the contract only gives their
/// results the names above.
#[verifier::external_body]
fn find_matches(pattern: &str, text: &str) -> (found: Result<Vec<String>, regex::Error>)
    ensures
        found is Ok <==> pattern_compiles(pattern@),
        found matches Ok(links) ==> links.deep_view() == pattern_matches(pattern@, text@),
{
    let compiled = Regex::new(pattern)?;
    Ok(compiled.find_iter(text).map(|hit| hit.as_str().to_string()).collect())
}

/// The pattern was refused when it was compiled.
#[derive(Debug, Clone, Copy, PartialEq, Eq, Structural)]
pub struct PatternRejected;

/// A pattern that is known to compile.
#[derive(Debug, PartialEq, Eq)]
pub struct LinkPattern {
    source: String,
}

impl View for LinkPattern {
    type V = Seq<char>;

    closed spec fn view(&self) -> Seq<char> {
        self.source@
    }
}

impl LinkPattern {
    #[verifier::type_invariant]
    spec fn compiles(self) -> bool {
        pattern_compiles(self.source@)
    }

    /// Accepts `source` if it compiles.
    pub fn new(source: &str) -> (made: Result<LinkPattern, PatternRejected>)
        ensures
            made is Ok <==> pattern_compiles(source@),
            made matches Ok(pattern) ==> pattern@ == source@,
    {
        match find_matches(source, "") {
            Ok(_) => Ok(LinkPattern { source: source.to_owned() }),
            Err(_) => Err(PatternRejected),
        }
    }

    /// The pattern of the two known link shapes.
    pub fn spotify() -> (made: Result<LinkPattern, PatternRejected>)
        ensures
            made is Ok <==> pattern_compiles(SPOTIFY_LINK_PATTERN@),
            made matches Ok(pattern) ==> pattern@ == SPOTIFY_LINK_PATTERN@,
    {
        LinkPattern::new(SPOTIFY_LINK_PATTERN)
    }

    /// The links in `text`, in the order in which they occur.
    pub fn extract(&self, text: &str) -> (links: Vec<String>)
        ensures
            links.deep_view() == pattern_matches(self@, text@),
    {
        proof {
            use_type_invariant(self);
        }
        match find_matches(self.source.as_str(), text) {
            Ok(links) => links,
            // Cannot happen: the pattern compiled when it was accepted.
            Err(_) => Vec::new(),
        }
    }
}

/// A message together with the links found in it.
#[derive(Debug, PartialEq, Eq)]
pub struct Scanned {
    pub message: Message,
    pub links: Vec<String>,
}

/// The mathematical content of a [`Scanned`] message.
pub struct ScannedView {
    pub message: MessageView,
    pub links: Seq<Seq<char>>,
}

impl View for Scanned {
    type V = ScannedView;

    open spec fn view(&self) -> ScannedView {
        ScannedView { message: self.message@, links: self.links.deep_view() }
    }
}

impl DeepView for Scanned {
    type V = ScannedView;

    open spec fn deep_view(&self) -> ScannedView {
        self@
    }
}

/// Each message of a feed with the links that `pattern` finds in it.
pub open spec fn scan_of(pattern: Seq<char>, messages: Seq<MessageView>) -> Seq<ScannedView> {
    Seq::new(
        messages.len(),
        |i: int| ScannedView {
            message: messages[i],
            links: pattern_matches(pattern, messages[i].content),
        },
    )
}

/// Whether `link` is the `k`-th link of the `i`-th message.
pub open spec fn link_at(scanned: Seq<ScannedView>, i: int, k: int, link: Seq<char>) -> bool {
    0 <= i < scanned.len() && 0 <= k < scanned[i].links.len() && scanned[i].links[k] == link
}

/// Every link that occurs anywhere in a scanned feed.
pub open spec fn link_set(scanned: Seq<ScannedView>) -> Set<Seq<char>> {
    Set::new(|link: Seq<char>| exists|i: int, k: int| link_at(scanned, i, k, link))
}

/// The links of the first `rows` messages, and the first `cols` of the next.
spec fn link_set_until(scanned: Seq<ScannedView>, rows: int, cols: int) -> Set<Seq<char>> {
    Set::new(
        |link: Seq<char>|
            exists|i: int, k: int|
                link_at(scanned, i, k, link) && (i < rows || (i == rows && k < cols)),
    )
}

impl LinkPattern {
    /// Pairs each message with the links found in its content.
    pub fn scan(&self, messages: &Vec<Message>) -> (scanned: Vec<Scanned>)
        ensures
            scanned.deep_view() == scan_of(self@, messages.deep_view()),
    {
        let mut scanned: Vec<Scanned> = Vec::new();
        for i in 0..messages.len()
            invariant
                scanned.len() == i,
                forall|j: int|
                    0 <= j < i ==> (#[trigger] scanned[j])@ == scan_of(
                        self@,
                        messages.deep_view(),
                    )[j],
        {
            let links = self.extract(messages[i].content.as_str());
            scanned.push(Scanned { message: messages[i].clone(), links });
        }
        assert(scanned.deep_view() =~= scan_of(self@, messages.deep_view()));
        scanned
    }
}

/// The set of all links of a scanned feed.
pub fn published_links(scanned: &Vec<Scanned>) -> (set: StringHashSet)
    ensures
        set@ == link_set(scanned.deep_view()),
{
    let ghost feed = scanned.deep_view();
    let mut set = StringHashSet::new();
    assert(set@ =~= link_set_until(feed, 0, 0));
    for i in 0..scanned.len()
        invariant
            feed == scanned.deep_view(),
            set@ == link_set_until(feed, i as int, 0),
    {
        let links = &scanned[i].links;
        for k in 0..links.len()
            invariant
                feed == scanned.deep_view(),
                0 <= i < scanned.len(),
                *links == scanned[i as int].links,
                set@ == link_set_until(feed, i as int, k as int),
        {
            let ghost before = set@;
            set.insert(links[k].clone());
            proof {
                let added = feed[i as int].links[k as int];
                assert(link_at(feed, i as int, k as int, added));
                assert forall|link: Seq<char>|
                    link_set_until(feed, i as int, k + 1).contains(link) implies before.insert(
                    added,
                ).contains(link) by {
                    let (a, b): (int, int) = choose|a: int, b: int|
                        link_at(feed, a, b, link) && (a < i || (a == i && b < k + 1));
                    if a == i && b == k {
                    } else {
                        assert(link_at(feed, a, b, link) && (a < i || (a == i && b < k)));
                    }
                }
                assert(set@ =~= link_set_until(feed, i as int, k + 1));
            }
        }
        proof {
            assert forall|link: Seq<char>|
                link_set_until(feed, i + 1, 0).contains(link) implies link_set_until(
                feed,
                i as int,
                links.len() as int,
            ).contains(link) by {
                let (a, b): (int, int) = choose|a: int, b: int|
                    link_at(feed, a, b, link) && (a < i + 1 || (a == i + 1 && b < 0));
                assert(link_at(feed, a, b, link) && (a < i || (a == i && b < links.len())));
            }
            assert(set@ =~= link_set_until(feed, i + 1, 0));
        }
    }
    assert(set@ =~= link_set(feed));
    set
}

/// The set of all links that `pattern` finds in `messages`.
pub fn collect_links(messages: &Vec<Message>, pattern: &LinkPattern) -> (set: StringHashSet)
    ensures
        set@ == link_set(scan_of(pattern@, messages.deep_view())),
{
    let scanned = pattern.scan(messages);
    published_links(&scanned)
}

} // verus!
