//! The watch loop as a state machine.
//!
//! The watcher owns the pagination cursor and the processed set. It never
//! performs network or file traffic itself: [`Watcher::step`] consumes the
//! outcome of the previous outside action as an [`Event`] and answers with
//! the next [`Action`] for the surrounding program to perform. The spec
//! transition function [`step_spec`] states what every step does; the laws
//! module derives the per-post guarantees from it.

use vstd::prelude::*;

use crate::store::{ids_json, ProcessedSet};
use crate::util::{extract_gh_info, extract_spec, is_self_domain, starts_with_self};

verus! {

/// Seconds to wait before the next fetch when a page brings nothing new.
pub const EMPTY_SUBREDDIT_DELAY: u64 = 15;

/// The fixed text of every reply.
pub open spec fn response_text_spec() -> Seq<char> {
    "The linked GitHub repository does not contain a license.\n\nPlease read over this article for more information: https://help.github.com/en/github/creating-cloning-and-archiving-repositories/licensing-a-repository"@
}

/// The fixed reply text posted under a post whose repository lacks a license.
pub fn response_text() -> (r: &'static str)
    ensures
        r@ == response_text_spec(),
{
    "The linked GitHub repository does not contain a license.\n\nPlease read over this article for more information: https://help.github.com/en/github/creating-cloning-and-archiving-repositories/licensing-a-repository"
}

/// One externally sourced post: unique identifier (fullname), domain
/// classification, and target URL. Never mutated by the watcher.
pub struct Post {
    pub name: String,
    pub domain: String,
    pub url: String,
}

/// The mathematical content of a post.
pub struct PostView {
    pub name: Seq<char>,
    pub domain: Seq<char>,
    pub url: Seq<char>,
}

impl View for Post {
    type V = PostView;

    open spec fn view(&self) -> PostView {
        PostView { name: self.name@, domain: self.domain@, url: self.url@ }
    }
}

/// The views of a sequence of posts, element by element.
pub open spec fn post_views(v: Seq<Post>) -> Seq<PostView> {
    Seq::new(v.len(), |i: int| v[i]@)
}

/// The view of an optional string.
pub open spec fn opt_view(o: Option<String>) -> Option<Seq<char>> {
    match o {
        Some(s) => Some(s@),
        None => None,
    }
}

/// Whether a status code reports success.
pub open spec fn success_status(status: u16) -> bool {
    200 <= status < 300
}

/// Errors the per-post pipeline reports; both are logged by the surrounding
/// program and abandon only the one post, never the loop.
#[derive(Debug, PartialEq, Eq, Structural)]
pub enum BotError {
    /// The repository-existence query answered with this non-success status.
    RepositoryInvalid { status: u16 },
    /// The reply submission answered with this non-success status.
    ReplyFailed { status: u16 },
}

/// Classify the repository-existence response: success means the repository
/// exists; any other status is a `RepositoryInvalid` error carrying it.
pub fn repo_check_outcome(status: u16) -> (r: Result<(), BotError>)
    ensures
        r is Ok <==> success_status(status),
        !success_status(status) ==> r == Result::<(), BotError>::Err(
            BotError::RepositoryInvalid { status },
        ),
{
    if 200 <= status && status < 300 {
        Ok(())
    } else {
        Err(BotError::RepositoryInvalid { status })
    }
}

/// Classify the license response: a non-success status means the license is
/// missing and a reply is due; success means a license is present.
pub fn license_check_outcome(status: u16) -> (r: bool)
    ensures
        r == !success_status(status),
{
    !(200 <= status && status < 300)
}

/// Classify the reply response: any non-success status is a `ReplyFailed`
/// error carrying it.
pub fn reply_outcome(status: u16) -> (r: Result<(), BotError>)
    ensures
        r is Ok <==> success_status(status),
        !success_status(status) ==> r == Result::<(), BotError>::Err(
            BotError::ReplyFailed { status },
        ),
{
    if 200 <= status && status < 300 {
        Ok(())
    } else {
        Err(BotError::ReplyFailed { status })
    }
}

/// What the watcher asks the surrounding program to do next.
pub enum Action {
    /// Fetch a page of newest posts, starting after the given cursor.
    FetchPage { after: Option<String> },
    /// Query the hosting API for the repository itself.
    CheckRepo { owner: String, name: String },
    /// Query the hosting API for the repository's license sub-resource.
    CheckLicense { owner: String, name: String },
    /// Submit the fixed reply text under the post with this fullname.
    Reply { fullname: String },
    /// Wait the empty-page delay before the next event.
    Delay,
    /// Overwrite the persisted processed-set file with this text.
    Persist { data: String },
}

/// The mathematical content of an action.
pub enum ActionView {
    FetchPage { after: Option<Seq<char>> },
    CheckRepo { owner: Seq<char>, name: Seq<char> },
    CheckLicense { owner: Seq<char>, name: Seq<char> },
    Reply { fullname: Seq<char> },
    Delay,
    Persist { data: Seq<char> },
}

impl View for Action {
    type V = ActionView;

    open spec fn view(&self) -> ActionView {
        match self {
            Action::FetchPage { after } => ActionView::FetchPage { after: opt_view(*after) },
            Action::CheckRepo { owner, name } => ActionView::CheckRepo {
                owner: owner@,
                name: name@,
            },
            Action::CheckLicense { owner, name } => ActionView::CheckLicense {
                owner: owner@,
                name: name@,
            },
            Action::Reply { fullname } => ActionView::Reply { fullname: fullname@ },
            Action::Delay => ActionView::Delay,
            Action::Persist { data } => ActionView::Persist { data: data@ },
        }
    }
}

/// What the surrounding program reports back after performing an action.
pub enum Event {
    /// The listing endpoint answered with these posts and trailing cursor.
    PageFetched { posts: Vec<Post>, after: Option<String> },
    /// The listing fetch failed: non-success status, transport error, or a
    /// response whose core listing fields are absent.
    FetchFailed,
    /// The repository-existence query answered with this status.
    RepoStatus { status: u16 },
    /// The license query answered with this status.
    LicenseStatus { status: u16 },
    /// The reply submission answered with this status.
    ReplyStatus { status: u16 },
    /// The empty-page delay elapsed.
    DelayDone,
    /// The processed-set file was written.
    PersistDone,
}

/// The mathematical content of an event.
pub enum EventView {
    PageFetched { posts: Seq<PostView>, after: Option<Seq<char>> },
    FetchFailed,
    RepoStatus { status: u16 },
    LicenseStatus { status: u16 },
    ReplyStatus { status: u16 },
    DelayDone,
    PersistDone,
}

impl View for Event {
    type V = EventView;

    open spec fn view(&self) -> EventView {
        match self {
            Event::PageFetched { posts, after } => EventView::PageFetched {
                posts: post_views(posts@),
                after: opt_view(*after),
            },
            Event::FetchFailed => EventView::FetchFailed,
            Event::RepoStatus { status } => EventView::RepoStatus { status: *status },
            Event::LicenseStatus { status } => EventView::LicenseStatus { status: *status },
            Event::ReplyStatus { status } => EventView::ReplyStatus { status: *status },
            Event::DelayDone => EventView::DelayDone,
            Event::PersistDone => EventView::PersistDone,
        }
    }
}

/// Where the watcher stands: about to fetch, waiting for one of the three
/// per-post queries, waiting out the empty-page delay, or flushing the set.
pub enum PhaseView {
    Fetching,
    AwaitRepo {
        posts: Seq<PostView>,
        index: int,
        page_after: Option<Seq<char>>,
        owner: Seq<char>,
        repo: Seq<char>,
        fullname: Seq<char>,
    },
    AwaitLicense {
        posts: Seq<PostView>,
        index: int,
        page_after: Option<Seq<char>>,
        fullname: Seq<char>,
    },
    AwaitReply { posts: Seq<PostView>, index: int, page_after: Option<Seq<char>> },
    Delaying,
    Persisting,
}

/// The abstract state of a watcher: its cursor, the identifiers already
/// handled, and the phase of the loop it stands in.
pub struct WatcherView {
    pub cursor: Option<Seq<char>>,
    pub processed: Seq<Seq<char>>,
    pub phase: PhaseView,
}

/// One transition: the state after it and the action it hands out.
pub struct StepView {
    pub state: WatcherView,
    pub action: ActionView,
}

/// The result of walking a page for the next post that needs a repository
/// check: either such a post with its extracted owner and repository, or the
/// end of the page; either way, the set as grown by the walk.
pub enum ScanResult {
    Found {
        index: int,
        processed: Seq<Seq<char>>,
        owner: Seq<char>,
        repo: Seq<char>,
        fullname: Seq<char>,
    },
    Done { processed: Seq<Seq<char>> },
}

/// Walk the page from position `i`: a post already in the set is skipped
/// untouched; every other post is recorded at once, then skipped when it is
/// a self post or carries no recognisable repository link; the walk stops at
/// the first post that needs a repository check.
pub open spec fn scan(posts: Seq<PostView>, i: int, pr: Seq<Seq<char>>) -> ScanResult
    decreases posts.len() + 1 - i,
{
    if i < 0 || i >= posts.len() {
        ScanResult::Done { processed: pr }
    } else if pr.contains(posts[i].name) {
        scan(posts, i + 1, pr)
    } else if is_self_domain(posts[i].domain) {
        scan(posts, i + 1, pr.push(posts[i].name))
    } else {
        match extract_spec(posts[i].url) {
            Some(on) => ScanResult::Found {
                index: i,
                processed: pr.push(posts[i].name),
                owner: on.0,
                repo: on.1,
                fullname: posts[i].name,
            },
            None => scan(posts, i + 1, pr.push(posts[i].name)),
        }
    }
}

/// End an iteration: move to the flush of the set, unconditionally.
pub open spec fn persist_step(cursor: Option<Seq<char>>, processed: Seq<Seq<char>>) -> StepView {
    StepView {
        state: WatcherView { cursor, processed, phase: PhaseView::Persisting },
        action: ActionView::Persist { data: ids_json(processed) },
    }
}

/// Resume the walk of the current page at position `i`. A found post leads
/// to its repository check; an exhausted page advances the cursor to the
/// page's trailing token and flushes, or, when the page carried none, keeps
/// the cursor and waits the empty-page delay first.
pub open spec fn continue_page(
    cursor: Option<Seq<char>>,
    processed: Seq<Seq<char>>,
    posts: Seq<PostView>,
    page_after: Option<Seq<char>>,
    i: int,
) -> StepView {
    match scan(posts, i, processed) {
        ScanResult::Found { index, processed: pr, owner, repo, fullname } => StepView {
            state: WatcherView {
                cursor,
                processed: pr,
                phase: PhaseView::AwaitRepo { posts, index, page_after, owner, repo, fullname },
            },
            action: ActionView::CheckRepo { owner, name: repo },
        },
        ScanResult::Done { processed: pr } => match page_after {
            Some(a) => persist_step(Some(a), pr),
            None => StepView {
                state: WatcherView { cursor, processed: pr, phase: PhaseView::Delaying },
                action: ActionView::Delay,
            },
        },
    }
}

/// Events a phase does not expect leave the watcher as it stands; `accepts`
/// rules them out for the verified step function.
pub open spec fn stay(w: WatcherView) -> StepView {
    StepView { state: w, action: ActionView::Delay }
}

/// The transition function of the watch loop.
pub open spec fn step_spec(w: WatcherView, ev: EventView) -> StepView {
    match ev {
        EventView::PageFetched { posts, after } => match w.phase {
            PhaseView::Fetching => {
                if posts.len() == 0 {
                    StepView {
                        state: WatcherView { phase: PhaseView::Delaying, ..w },
                        action: ActionView::Delay,
                    }
                } else {
                    continue_page(w.cursor, w.processed, posts, after, 0)
                }
            },
            _ => stay(w),
        },
        EventView::FetchFailed => match w.phase {
            PhaseView::Fetching => persist_step(w.cursor, w.processed),
            _ => stay(w),
        },
        EventView::RepoStatus { status } => match w.phase {
            PhaseView::AwaitRepo { posts, index, page_after, owner, repo, fullname } => {
                if success_status(status) {
                    StepView {
                        state: WatcherView {
                            cursor: w.cursor,
                            processed: w.processed,
                            phase: PhaseView::AwaitLicense { posts, index, page_after, fullname },
                        },
                        action: ActionView::CheckLicense { owner, name: repo },
                    }
                } else {
                    continue_page(w.cursor, w.processed, posts, page_after, index + 1)
                }
            },
            _ => stay(w),
        },
        EventView::LicenseStatus { status } => match w.phase {
            PhaseView::AwaitLicense { posts, index, page_after, fullname } => {
                if !success_status(status) {
                    StepView {
                        state: WatcherView {
                            cursor: w.cursor,
                            processed: w.processed,
                            phase: PhaseView::AwaitReply { posts, index, page_after },
                        },
                        action: ActionView::Reply { fullname },
                    }
                } else {
                    continue_page(w.cursor, w.processed, posts, page_after, index + 1)
                }
            },
            _ => stay(w),
        },
        EventView::ReplyStatus { .. } => match w.phase {
            PhaseView::AwaitReply { posts, index, page_after } => continue_page(
                w.cursor,
                w.processed,
                posts,
                page_after,
                index + 1,
            ),
            _ => stay(w),
        },
        EventView::DelayDone => match w.phase {
            PhaseView::Delaying => persist_step(w.cursor, w.processed),
            _ => stay(w),
        },
        EventView::PersistDone => match w.phase {
            PhaseView::Persisting => StepView {
                state: WatcherView { phase: PhaseView::Fetching, ..w },
                action: ActionView::FetchPage { after: w.cursor },
            },
            _ => stay(w),
        },
    }
}

/// Whether the phase expects this event: exactly one event kind answers each
/// outstanding action.
pub open spec fn accepts(phase: PhaseView, ev: EventView) -> bool {
    match ev {
        EventView::PageFetched { .. } => phase is Fetching,
        EventView::FetchFailed => phase is Fetching,
        EventView::RepoStatus { .. } => phase is AwaitRepo,
        EventView::LicenseStatus { .. } => phase is AwaitLicense,
        EventView::ReplyStatus { .. } => phase is AwaitReply,
        EventView::DelayDone => phase is Delaying,
        EventView::PersistDone => phase is Persisting,
    }
}

/// A clone of an optional string.
fn clone_opt(o: &Option<String>) -> (r: Option<String>)
    ensures
        r == *o,
{
    match o {
        Some(s) => Some(s.clone()),
        None => None,
    }
}

enum Phase {
    Fetching,
    AwaitRepo,
    AwaitLicense,
    AwaitReply,
    Delaying,
    Persisting,
}

/// The watcher of one subreddit: the only owner of the cursor and of the
/// processed set, driven one event at a time by the surrounding program.
pub struct Watcher {
    cursor: Option<String>,
    processed: ProcessedSet,
    phase: Phase,
    posts: Vec<Post>,
    index: usize,
    page_after: Option<String>,
    owner: String,
    repo: String,
    fullname: String,
}

impl View for Watcher {
    type V = WatcherView;

    closed spec fn view(&self) -> WatcherView {
        WatcherView {
            cursor: opt_view(self.cursor),
            processed: self.processed@,
            phase: match self.phase {
                Phase::Fetching => PhaseView::Fetching,
                Phase::AwaitRepo => PhaseView::AwaitRepo {
                    posts: post_views(self.posts@),
                    index: self.index as int,
                    page_after: opt_view(self.page_after),
                    owner: self.owner@,
                    repo: self.repo@,
                    fullname: self.fullname@,
                },
                Phase::AwaitLicense => PhaseView::AwaitLicense {
                    posts: post_views(self.posts@),
                    index: self.index as int,
                    page_after: opt_view(self.page_after),
                    fullname: self.fullname@,
                },
                Phase::AwaitReply => PhaseView::AwaitReply {
                    posts: post_views(self.posts@),
                    index: self.index as int,
                    page_after: opt_view(self.page_after),
                },
                Phase::Delaying => PhaseView::Delaying,
                Phase::Persisting => PhaseView::Persisting,
            },
        }
    }
}

impl Watcher {
    /// A watcher at the start of its loop: no cursor yet, the processed set
    /// restored from the persisted text when there is one.
    pub fn new(saved: Option<&str>) -> (r: Self)
        ensures
            r@.phase is Fetching,
            r@.cursor is None,
            match saved {
                Some(data) => forall|w: Seq<Seq<char>>|
                    data@ == #[trigger] ids_json(w) ==> r@.processed == w,
                None => r@.processed == Seq::<Seq<char>>::empty(),
            },
    {
        let processed = match saved {
            Some(data) => ProcessedSet::restore(data),
            None => ProcessedSet::new(),
        };
        Watcher {
            cursor: None,
            processed,
            phase: Phase::Fetching,
            posts: Vec::new(),
            index: 0,
            page_after: None,
            owner: String::new(),
            repo: String::new(),
            fullname: String::new(),
        }
    }

    /// The fetch the watcher asks for whenever it is about to read a page.
    pub fn fetch_action(&self) -> (a: Action)
        requires
            self@.phase is Fetching,
        ensures
            a@ == (ActionView::FetchPage { after: self@.cursor }),
    {
        Action::FetchPage { after: clone_opt(&self.cursor) }
    }

    /// Whether this identifier was already handled.
    pub fn is_processed(&self, id: &String) -> (b: bool)
        ensures
            b == self@.processed.contains(id@),
    {
        self.processed.contains(id)
    }

    /// How many identifiers the watcher has recorded.
    pub fn processed_len(&self) -> (n: usize)
        ensures
            n == self@.processed.len(),
    {
        self.processed.len()
    }

    /// Whether the watcher expects this event in its current phase; the
    /// surrounding program may test it before calling [`Watcher::step`].
    pub fn accepts_event(&self, ev: &Event) -> (b: bool)
        ensures
            b == accepts(self@.phase, ev@),
    {
        match ev {
            Event::PageFetched { .. } => matches!(self.phase, Phase::Fetching),
            Event::FetchFailed => matches!(self.phase, Phase::Fetching),
            Event::RepoStatus { .. } => matches!(self.phase, Phase::AwaitRepo),
            Event::LicenseStatus { .. } => matches!(self.phase, Phase::AwaitLicense),
            Event::ReplyStatus { .. } => matches!(self.phase, Phase::AwaitReply),
            Event::DelayDone => matches!(self.phase, Phase::Delaying),
            Event::PersistDone => matches!(self.phase, Phase::Persisting),
        }
    }

    /// Advance the state machine by one event and say what to do next.
    pub fn step(&mut self, ev: Event) -> (a: Action)
        requires
            accepts(old(self)@.phase, ev@),
        ensures
            final(self)@ == step_spec(old(self)@, ev@).state,
            a@ == step_spec(old(self)@, ev@).action,
    {
        match ev {
            Event::PageFetched { posts, after } => {
                self.posts = posts;
                self.page_after = after;
                self.index = 0;
                if self.posts.len() == 0 {
                    self.phase = Phase::Delaying;
                    Action::Delay
                } else {
                    self.advance_from(0)
                }
            },
            Event::FetchFailed => {
                self.phase = Phase::Persisting;
                Action::Persist { data: self.processed.encode() }
            },
            Event::RepoStatus { status } => {
                match repo_check_outcome(status) {
                    Ok(_) => {
                        self.phase = Phase::AwaitLicense;
                        Action::CheckLicense {
                            owner: self.owner.clone(),
                            name: self.repo.clone(),
                        }
                    },
                    Err(_) => {
                        let next = self.next_index();
                        self.advance_from(next)
                    },
                }
            },
            Event::LicenseStatus { status } => {
                if license_check_outcome(status) {
                    self.phase = Phase::AwaitReply;
                    Action::Reply { fullname: self.fullname.clone() }
                } else {
                    let next = self.next_index();
                    self.advance_from(next)
                }
            },
            Event::ReplyStatus { .. } => {
                let next = self.next_index();
                self.advance_from(next)
            },
            Event::DelayDone => {
                self.phase = Phase::Persisting;
                Action::Persist { data: self.processed.encode() }
            },
            Event::PersistDone => {
                self.phase = Phase::Fetching;
                Action::FetchPage { after: clone_opt(&self.cursor) }
            },
        }
    }

    /// The position after the pending post, capped at the page length so that
    /// resuming the walk is safe whatever the stored position holds.
    fn next_index(&self) -> (r: usize)
        ensures
            r <= self.posts@.len(),
            scan(post_views(self.posts@), self.index + 1, self.processed@) == scan(
                post_views(self.posts@),
                r as int,
                self.processed@,
            ),
    {
        if self.index >= self.posts.len() {
            proof {
                assert(scan(post_views(self.posts@), self.index + 1, self.processed@)
                    == (ScanResult::Done { processed: self.processed@ }));
                assert(scan(post_views(self.posts@), self.posts@.len() as int, self.processed@)
                    == (ScanResult::Done { processed: self.processed@ }));
            }
            self.posts.len()
        } else {
            self.index + 1
        }
    }

    /// Resume the walk of the current page at `start`, recording every post
    /// passed over, and produce the next action.
    fn advance_from(&mut self, start: usize) -> (a: Action)
        requires
            start <= old(self).posts@.len(),
        ensures
            ({
                let s = continue_page(
                    opt_view(old(self).cursor),
                    old(self).processed@,
                    post_views(old(self).posts@),
                    opt_view(old(self).page_after),
                    start as int,
                );
                final(self)@ == s.state && a@ == s.action
            }),
    {
        let ghost pv = post_views(self.posts@);
        let mut i = start;
        while i < self.posts.len()
            invariant
                i <= self.posts@.len(),
                pv == post_views(self.posts@),
                self.posts@ == old(self).posts@,
                self.cursor == old(self).cursor,
                self.page_after == old(self).page_after,
                scan(pv, start as int, old(self).processed@) == scan(
                    pv,
                    i as int,
                    self.processed@,
                ),
            decreases self.posts@.len() - i,
        {
            proof {
                assert(pv[i as int] == self.posts@[i as int]@);
            }
            if self.processed.contains(&self.posts[i].name) {
                proof {
                    assert(scan(pv, i as int, self.processed@) == scan(
                        pv,
                        i as int + 1,
                        self.processed@,
                    ));
                }
                i += 1;
            } else {
                self.processed.add(&self.posts[i].name);
                if starts_with_self(self.posts[i].domain.as_str()) {
                    i += 1;
                } else {
                    match extract_gh_info(self.posts[i].url.as_str()) {
                        Some((o, rp)) => {
                            self.owner = o;
                            self.repo = rp;
                            self.fullname = self.posts[i].name.clone();
                            self.index = i;
                            self.phase = Phase::AwaitRepo;
                            return Action::CheckRepo {
                                owner: self.owner.clone(),
                                name: self.repo.clone(),
                            };
                        },
                        None => {
                            i += 1;
                        },
                    }
                }
            }
        }
        match &self.page_after {
            Some(_) => {
                self.cursor = clone_opt(&self.page_after);
                self.phase = Phase::Persisting;
                Action::Persist { data: self.processed.encode() }
            },
            None => {
                self.phase = Phase::Delaying;
                Action::Delay
            },
        }
    }
}

} // verus!
