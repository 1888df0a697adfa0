//! The cross-cutting guarantees of the watch loop, derived from the spec
//! transition function.

use vstd::prelude::*;

use crate::util::{extract_spec, is_self_domain};
use crate::watcher::{
    accepts, scan, step_spec, ActionView, EventView, PhaseView, PostView, ScanResult, WatcherView,
};

verus! {

/// A post whose identifier is already recorded is skipped outright: the page
/// walk neither selects it for any repository query or reply nor changes the
/// processed set on its account.
pub proof fn lemma_processed_post_skipped(posts: Seq<PostView>, i: int, pr: Seq<Seq<char>>)
    requires
        0 <= i < posts.len(),
        pr.contains(posts[i].name),
    ensures
        scan(posts, i, pr) == scan(posts, i + 1, pr),
{
}

/// When every post of a page is already recorded, walking the page selects
/// nothing and leaves the processed set exactly as it was.
pub proof fn lemma_all_processed(posts: Seq<PostView>, i: int, pr: Seq<Seq<char>>)
    requires
        forall|k: int| 0 <= k < posts.len() ==> pr.contains(#[trigger] posts[k].name),
    ensures
        scan(posts, i, pr) == (ScanResult::Done { processed: pr }),
    decreases posts.len() + 1 - i,
{
    if 0 <= i < posts.len() {
        lemma_all_processed(posts, i + 1, pr);
    }
}

/// An empty page causes exactly one delay and changes neither the cursor nor
/// the processed set.
pub proof fn lemma_empty_page(w: WatcherView, after: Option<Seq<char>>)
    requires
        w.phase is Fetching,
    ensures
        ({
            let s = step_spec(w, EventView::PageFetched { posts: Seq::empty(), after });
            &&& s.action == ActionView::Delay
            &&& s.state.cursor == w.cursor
            &&& s.state.processed == w.processed
            &&& s.state.phase is Delaying
        }),
{
}

/// A self post is recorded as processed and then skipped: the walk never
/// hands its URL to the extractor and never selects it for a repository
/// query.
pub proof fn lemma_self_post_skipped(posts: Seq<PostView>, i: int, pr: Seq<Seq<char>>)
    requires
        0 <= i < posts.len(),
        !pr.contains(posts[i].name),
        is_self_domain(posts[i].domain),
    ensures
        scan(posts, i, pr) == scan(posts, i + 1, pr.push(posts[i].name)),
{
}

/// The processed set a walk ends with, whether or not it found a post.
pub open spec fn scan_set(r: ScanResult) -> Seq<Seq<char>> {
    match r {
        ScanResult::Found { processed, .. } => processed,
        ScanResult::Done { processed } => processed,
    }
}

/// The processed set only ever grows along a walk: every identifier present
/// before is still present after, and none is removed.
pub proof fn lemma_scan_grows(posts: Seq<PostView>, i: int, pr: Seq<Seq<char>>)
    ensures
        pr.len() <= scan_set(scan(posts, i, pr)).len(),
        forall|id: Seq<char>|
            pr.contains(id) ==> #[trigger] scan_set(scan(posts, i, pr)).contains(id),
    decreases posts.len() + 1 - i,
{
    if i < 0 || i >= posts.len() {
    } else if pr.contains(posts[i].name) {
        lemma_scan_grows(posts, i + 1, pr);
    } else {
        let pr2 = pr.push(posts[i].name);
        lemma_push_keeps(pr, posts[i].name);
        if is_self_domain(posts[i].domain) || extract_spec(posts[i].url) is None {
            lemma_scan_grows(posts, i + 1, pr2);
            assert(scan(posts, i, pr) == scan(posts, i + 1, pr2));
            assert forall|id: Seq<char>|
                pr.contains(id) implies #[trigger] scan_set(scan(posts, i, pr)).contains(id) by {
                assert(pr2.contains(id));
                assert(scan_set(scan(posts, i + 1, pr2)).contains(id));
            };
        } else {
            assert(scan_set(scan(posts, i, pr)) == pr2);
        }
    }
}

/// What the walk selects is always a post that genuinely needs the check: it
/// lies within the page at or after the start of the walk, it was not yet
/// recorded when reached, it is recorded by the time the walk stops, it is
/// no self post, and its owner and repository names are exactly what the
/// extractor yields for its URL. Since a reply can only follow such a find,
/// and a find records the post at once, at most one reply attempt is ever
/// made per post.
pub proof fn lemma_found_post(
    posts: Seq<PostView>,
    i: int,
    pr: Seq<Seq<char>>,
    index: int,
    processed: Seq<Seq<char>>,
    owner: Seq<char>,
    repo: Seq<char>,
    fullname: Seq<char>,
)
    requires
        scan(posts, i, pr) == (ScanResult::Found { index, processed, owner, repo, fullname }),
    ensures
        i <= index < posts.len(),
        fullname == posts[index].name,
        !pr.contains(posts[index].name),
        processed.contains(posts[index].name),
        !is_self_domain(posts[index].domain),
        extract_spec(posts[index].url) == Some((owner, repo)),
    decreases posts.len() + 1 - i,
{
    if i < 0 || i >= posts.len() {
        assert(false);
    } else if pr.contains(posts[i].name) {
        lemma_found_post(posts, i + 1, pr, index, processed, owner, repo, fullname);
    } else if is_self_domain(posts[i].domain) {
        lemma_found_post(
            posts,
            i + 1,
            pr.push(posts[i].name),
            index,
            processed,
            owner,
            repo,
            fullname,
        );
        lemma_push_keeps_absence(pr, posts[i].name, posts[index].name);
    } else {
        match extract_spec(posts[i].url) {
            Some(_) => {
                assert(pr.push(posts[i].name)[pr.len() as int] == posts[i].name);
            },
            None => {
                lemma_found_post(
                    posts,
                    i + 1,
                    pr.push(posts[i].name),
                    index,
                    processed,
                    owner,
                    repo,
                    fullname,
                );
                lemma_push_keeps_absence(pr, posts[i].name, posts[index].name);
            },
        }
    }
}

/// An identifier absent after an append was absent before it.
proof fn lemma_push_keeps_absence(pr: Seq<Seq<char>>, id: Seq<char>, x: Seq<char>)
    requires
        !pr.push(id).contains(x),
    ensures
        !pr.contains(x),
{
    if pr.contains(x) {
        let k = choose|k: int| 0 <= k < pr.len() && pr[k] == x;
        assert(pr.push(id)[k] == x);
    }
}

/// A page whose every post is already recorded leads straight to the end of
/// the iteration: no repository query and no reply is requested, and the
/// membership of the processed set does not change. Together with the
/// restore contract of the store this is restart durability: identifiers in
/// the persisted file are never reprocessed, even when they reappear in a
/// later page.
pub proof fn lemma_known_page_makes_no_calls(
    w: WatcherView,
    posts: Seq<PostView>,
    after: Option<Seq<char>>,
)
    requires
        w.phase is Fetching,
        forall|k: int| 0 <= k < posts.len() ==> w.processed.contains(#[trigger] posts[k].name),
    ensures
        ({
            let s = step_spec(w, EventView::PageFetched { posts, after });
            &&& !(s.action is CheckRepo)
            &&& !(s.action is Reply)
            &&& s.state.processed == w.processed
        }),
{
    if posts.len() > 0 {
        lemma_all_processed(posts, 0, w.processed);
    }
}

/// No accepted step ever removes an identifier: once a post is recorded it
/// stays recorded for the lifetime of the run.
pub proof fn lemma_step_never_forgets(w: WatcherView, ev: EventView, id: Seq<char>)
    requires
        accepts(w.phase, ev),
        w.processed.contains(id),
    ensures
        step_spec(w, ev).state.processed.contains(id),
{
    match ev {
        EventView::PageFetched { posts, .. } => {
            if posts.len() > 0 {
                lemma_scan_grows(posts, 0, w.processed);
            }
        },
        EventView::RepoStatus { status } => {
            if let PhaseView::AwaitRepo { posts, index, .. } = w.phase {
                if !(200 <= status < 300) {
                    lemma_scan_grows(posts, index + 1, w.processed);
                }
            }
        },
        EventView::LicenseStatus { status } => {
            if let PhaseView::AwaitLicense { posts, index, .. } = w.phase {
                if 200 <= status < 300 {
                    lemma_scan_grows(posts, index + 1, w.processed);
                }
            }
        },
        EventView::ReplyStatus { .. } => {
            if let PhaseView::AwaitReply { posts, index, .. } = w.phase {
                lemma_scan_grows(posts, index + 1, w.processed);
            }
        },
        _ => {},
    }
}

/// Appending an identifier keeps every identifier already present.
proof fn lemma_push_keeps(pr: Seq<Seq<char>>, id: Seq<char>)
    ensures
        forall|x: Seq<char>| pr.contains(x) ==> #[trigger] pr.push(id).contains(x),
{
    assert forall|x: Seq<char>| pr.contains(x) implies #[trigger] pr.push(id).contains(x) by {
        let k = choose|k: int| 0 <= k < pr.len() && pr[k] == x;
        assert(pr.push(id)[k] == x);
    }
}

} // verus!
