//! The public activity feed of a code-hosting account, and its
//! normalisation into the commit list that the panel shows.

use vstd::prelude::*;

use crate::error::FetchError;
use crate::text::{repo_name, repo_name_of, short_message, shortened};

verus! {

/// One commit carried by a push event.
#[derive(Debug)]
pub struct Commit {
    /// The full commit message, possibly several lines.
    pub message: String,
    /// The commit's API url; nothing downstream reads it.
    pub url: String,
}

/// The payload of an event: its commits, absent for event types that carry none.
#[derive(Debug)]
pub struct Payload {
    pub commits: Option<Vec<Commit>>,
}

/// The repository an event happened in.
#[derive(Debug)]
pub struct Repo {
    pub id: u64,
    pub name: String,
    /// The repository's API url, `.../repos/<owner>/<name>`.
    pub url: String,
}

/// One entry of the activity feed.
#[derive(Debug)]
pub struct Event {
    pub id: String,
    /// The event's kind; only push events carry commits worth showing.
    pub event_type: String,
    pub repo: Repo,
    pub payload: Payload,
}

/// A commit ready for display.
#[derive(Debug)]
pub struct LatestCommit {
    /// The message as it was written.
    pub message: String,
    /// Its first line, cut to at most 50 characters.
    pub message_short: String,
    /// `<owner>/<name>`, taken from the event's repository url.
    pub repo_name: String,
    /// The repository's web page.
    pub repo_url: String,
}

/// The commits of a feed's push events, in feed order.
#[derive(Debug)]
pub struct LatestCommits {
    pub commits: Vec<LatestCommit>,
}

/// What a displayed commit holds, as character sequences.
pub struct CommitView {
    pub message: Seq<char>,
    pub message_short: Seq<char>,
    pub repo_name: Seq<char>,
    pub repo_url: Seq<char>,
}

impl View for LatestCommit {
    type V = CommitView;

    open spec fn view(&self) -> CommitView {
        CommitView {
            message: self.message@,
            message_short: self.message_short@,
            repo_name: self.repo_name@,
            repo_url: self.repo_url@,
        }
    }
}

impl View for LatestCommits {
    type V = Seq<CommitView>;

    open spec fn view(&self) -> Seq<CommitView> {
        self.commits@.map_values(|c: LatestCommit| c@)
    }
}

/// The event type that carries commits.
pub open spec fn push_type() -> Seq<char> {
    "PushEvent"@
}

/// The web host that repository pages live on.
pub open spec fn web_host() -> Seq<char> {
    "https://github.com/"@
}

/// The commits that an event contributes: those of a push event, none otherwise;
/// an absent commit list counts as empty.
pub open spec fn pushed_commits(e: Event) -> Seq<Commit> {
    if e.event_type@ == push_type() {
        match e.payload.commits {
            Some(v) => v@,
            None => Seq::empty(),
        }
    } else {
        Seq::empty()
    }
}

/// The displayed form of a commit with message `message` in repository `name`.
pub open spec fn commit_view(name: Seq<char>, message: Seq<char>) -> CommitView {
    CommitView {
        message: message,
        message_short: shortened(message),
        repo_name: name,
        repo_url: web_host() + name,
    }
}

/// The displayed commits of one event; `None` when it has commits but its
/// repository url has no name in it.
pub open spec fn event_displays(e: Event) -> Option<Seq<CommitView>> {
    let cs = pushed_commits(e);
    if cs.len() == 0 {
        Some(Seq::empty())
    } else {
        match repo_name_of(e.repo.url@) {
            Some(n) => Some(cs.map_values(|c: Commit| commit_view(n, c.message@))),
            None => None,
        }
    }
}

/// Two partial results one after the other; `None` when either is.
pub open spec fn join(x: Option<Seq<CommitView>>, y: Option<Seq<CommitView>>) -> Option<Seq<CommitView>> {
    match (x, y) {
        (Some(a), Some(b)) => Some(a + b),
        _ => None,
    }
}

/// The displayed commits of a feed: those of each event, in order; `None`
/// when some event's commits cannot be named.
pub open spec fn normalized(events: Seq<Event>) -> Option<Seq<CommitView>>
    decreases events.len(),
{
    if events.len() == 0 {
        Some(Seq::empty())
    } else {
        join(normalized(events.drop_last()), event_displays(events.last()))
    }
}

/// `r` is what normalising `events` gives: the displayed commits when every
/// commit can be named, else a data-shape violation.
pub open spec fn normalizes_to(events: Seq<Event>, r: Result<LatestCommits, FetchError>) -> bool {
    match r {
        Ok(lc) => normalized(events) == Some(lc@),
        Err(e) => normalized(events) is None && e == FetchError::DataShapeViolation,
    }
}

/// Once a prefix of a feed cannot be normalised, the whole feed cannot.
proof fn lemma_none_extends(events: Seq<Event>, k: int)
    requires
        0 <= k <= events.len(),
        normalized(events.subrange(0, k)) is None,
    ensures
        normalized(events) is None,
    decreases events.len(),
{
    if k < events.len() {
        assert(events.drop_last().subrange(0, k) =~= events.subrange(0, k));
        lemma_none_extends(events.drop_last(), k);
    } else {
        assert(events.subrange(0, k) =~= events);
    }
}

/// How many commits the push events of a feed carry, an absent list counting as none.
pub open spec fn push_commit_count(events: Seq<Event>) -> nat
    decreases events.len(),
{
    if events.len() == 0 {
        0
    } else {
        push_commit_count(events.drop_last()) + pushed_commits(events.last()).len()
    }
}

/// Normalising yields one displayed commit per commit of a push event: the
/// output's length is the sum of the push events' commit counts.
pub proof fn lemma_normalized_len(events: Seq<Event>)
    ensures
        normalized(events) matches Some(v) ==> v.len() == push_commit_count(events),
    decreases events.len(),
{
    if events.len() > 0 {
        lemma_normalized_len(events.drop_last());
    }
}

/// Normalising a concatenation normalises each part and joins the results.
pub proof fn lemma_normalized_concat(a: Seq<Event>, b: Seq<Event>)
    ensures
        normalized(a + b) == join(normalized(a), normalized(b)),
    decreases b.len(),
{
    if b.len() == 0 {
        assert(a + b =~= a);
        if let Some(x) = normalized(a) {
            assert(x + Seq::<CommitView>::empty() =~= x);
        }
    } else {
        assert((a + b).drop_last() =~= a + b.drop_last());
        assert((a + b).last() == b.last());
        lemma_normalized_concat(a, b.drop_last());
        if let (Some(x), Some(y), Some(z)) = (normalized(a), normalized(b.drop_last()), event_displays(b.last())) {
            assert(x + y + z =~= x + (y + z));
        }
    }
}

/// An event that is not a push event contributes nothing, whatever its
/// payload: the feed without it normalises to the same result.
pub proof fn lemma_non_push_ignored(events: Seq<Event>, i: int)
    requires
        0 <= i < events.len(),
        events[i].event_type@ != push_type(),
    ensures
        normalized(events) == normalized(events.remove(i)),
{
    let a = events.subrange(0, i);
    let b = events.subrange(i + 1, events.len() as int);
    let e = seq![events[i]];
    assert(events =~= (a + e) + b);
    assert(events.remove(i) =~= a + b);
    lemma_normalized_concat(a + e, b);
    lemma_normalized_concat(a, e);
    lemma_normalized_concat(a, b);
    assert(e.drop_last() =~= Seq::<Event>::empty());
    assert(normalized(e.drop_last()) == Some(Seq::<CommitView>::empty()));
    assert(e.last() == events[i]);
    assert(event_displays(e.last()) == Some(Seq::<CommitView>::empty()));
    assert(Seq::<CommitView>::empty() + Seq::<CommitView>::empty() =~= Seq::<CommitView>::empty());
    assert(normalized(e) == Some(Seq::<CommitView>::empty()));
    if let Some(x) = normalized(a) {
        assert(x + Seq::<CommitView>::empty() =~= x);
    }
}

/// Normalising is a function of the feed alone: two runs on one feed agree.
pub proof fn lemma_normalize_deterministic(
    events: Seq<Event>,
    r1: Result<LatestCommits, FetchError>,
    r2: Result<LatestCommits, FetchError>,
)
    requires
        normalizes_to(events, r1),
        normalizes_to(events, r2),
    ensures
        r1 is Ok <==> r2 is Ok,
        r1 matches Ok(a) ==> r2 matches Ok(b) && a@ == b@,
        r1 matches Err(x) ==> r2 matches Err(y) && x == y,
{
}

/// The web page of the repository named `name`.
fn repo_web_url(name: &str) -> (r: String)
    ensures
        r@ == web_host() + name@,
{
    let mut r = String::from_str("https://github.com/");
    r.append(name);
    r
}

impl LatestCommits {
    /// Normalises a feed: keeps the commits of push events in feed order,
    /// each with its repository name and page and its short message.
    pub fn from(events: Vec<Event>) -> (r: Result<LatestCommits, FetchError>)
        ensures
            normalizes_to(events@, r),
    {
        let push = String::from_str("PushEvent");
        let mut out: Vec<LatestCommit> = Vec::new();
        let mut i: usize = 0;
        while i < events.len()
            invariant
                push@ == push_type(),
                i <= events@.len(),
                normalized(events@.subrange(0, i as int)) == Some(out@.map_values(|c: LatestCommit| c@)),
            decreases events@.len() - i,
        {
            let e = &events[i];
            let ghost before = out@.map_values(|c: LatestCommit| c@);
            assert(events@.subrange(0, i + 1).drop_last() =~= events@.subrange(0, i as int));
            if e.event_type == push {
                match &e.payload.commits {
                    Some(cs) => {
                        if cs.len() > 0 {
                            let name = match repo_name(e.repo.url.as_str()) {
                                Ok(n) => n,
                                Err(err) => {
                                    proof {
                                        lemma_none_extends(events@, i + 1);
                                    }
                                    return Err(err);
                                },
                            };
                            let url = repo_web_url(name.as_str());
                            let mut j: usize = 0;
                            while j < cs.len()
                                invariant
                                    j <= cs@.len(),
                                    url@ == web_host() + name@,
                                    out@.map_values(|c: LatestCommit| c@) == before + cs@.subrange(0, j as int).map_values(
                                        |c: Commit| commit_view(name@, c.message@),
                                    ),
                                decreases cs@.len() - j,
                            {
                                let c = &cs[j];
                                let d = LatestCommit {
                                    message: c.message.clone(),
                                    message_short: short_message(c.message.as_str()),
                                    repo_name: name.clone(),
                                    repo_url: url.clone(),
                                };
                                assert(d@ == commit_view(name@, cs@[j as int].message@));
                                let ghost prev = out@;
                                out.push(d);
                                assert(out@.map_values(|c: LatestCommit| c@) =~= prev.map_values(|c: LatestCommit| c@).push(d@));
                                assert(cs@.subrange(0, j + 1).map_values(|c: Commit| commit_view(name@, c.message@))
                                    =~= cs@.subrange(0, j as int).map_values(|c: Commit| commit_view(name@, c.message@)).push(
                                    commit_view(name@, cs@[j as int].message@)));
                                j = j + 1;
                                assert(out@.map_values(|c: LatestCommit| c@) =~= before + cs@.subrange(0, j as int).map_values(
                                    |c: Commit| commit_view(name@, c.message@),
                                ));
                            }
                            assert(cs@.subrange(0, j as int) =~= cs@);
                        }
                    },
                    None => {},
                }
            }
            assert(out@.map_values(|c: LatestCommit| c@) =~= before + event_displays(*e)->0);
            i = i + 1;
        }
        assert(events@.subrange(0, i as int) =~= events@);
        Ok(LatestCommits { commits: out })
    }
}

} // verus!
