//! What holds of a run as a whole: of every state that it can reach and of
//! every sequence of events that its caller can report.

use vstd::prelude::*;
use crate::error::RunError;
use crate::pipeline::{
    halt,
    initial,
    photo_posts,
    processing_order,
    take_next,
    transition,
    ActionView,
    EventView,
    PipelineView,
    StageView,
};
use crate::client::{reblog_address, RumblrView};
use crate::pipeline::{language_pair, signed_caption, RunConfigView};
use crate::post::PostView;
use crate::response::posts_in_body;

verus! {

/// Where a run stands after `events` have been reported one after the other,
/// and the actions that it asked for on the way, one for each event.
pub open spec fn run_from(s: PipelineView, events: Seq<EventView>) -> (
    PipelineView,
    Seq<ActionView>,
)
    decreases events.len(),
{
    if events.len() == 0 {
        (s, Seq::empty())
    } else {
        let (next, action) = transition(s, events.first());
        let (last, actions) = run_from(next, events.drop_first());
        (last, seq![action] + actions)
    }
}

/// Whether a run has ended, in one way or the other.
pub open spec fn ended(s: PipelineView) -> bool {
    s.stage is Finished || s.stage is Failed
}

/// The answer of a run that has ended: the same for every event.
pub open spec fn last_word(s: PipelineView) -> ActionView {
    match s.stage {
        StageView::Failed(e) => ActionView::Abort(e),
        _ => ActionView::Finish,
    }
}

/// Every post that the run holds is a photo post.
pub open spec fn holds_photos_only(s: PipelineView) -> bool {
    &&& forall|i: int| 0 <= i < s.queue.len() ==> (#[trigger] s.queue[i]).is_photo()
    &&& s.stage matches StageView::AwaitTranslation { post } ==> post.is_photo()
    &&& s.stage matches StageView::AwaitReblog { post } ==> post.is_photo()
}

/// The posts that a run takes from a page are its photo posts and nothing
/// else, and it takes them backwards: the one that the page lists last comes
/// first, the one that the page lists first comes last.
pub proof fn lemma_processing_order_photos(page: Seq<PostView>)
    ensures
        forall|i: int|
            0 <= i < processing_order(page).len() ==> (#[trigger] processing_order(
                page,
            )[i]).is_photo(),
        processing_order(page).len() == photo_posts(page).len(),
        forall|i: int|
            0 <= i < photo_posts(page).len() ==> #[trigger] processing_order(page)[i]
                == photo_posts(page)[photo_posts(page).len() - 1 - i],
{
    let pred = |post: PostView| post.is_photo();
    let kept = photo_posts(page);
    assert forall|i: int| 0 <= i < kept.len() implies (#[trigger] kept[i]).is_photo() by {
        page.lemma_filter_pred(pred, i);
    }
}

/// A run that has ended stays as it is: whatever is reported, the state does
/// not change and the answer is the same. After a failure nothing is asked
/// for any more.
pub proof fn lemma_ended_is_final(s: PipelineView, event: EventView)
    requires
        ended(s),
    ensures
        transition(s, event) == (s, last_word(s)),
{
}

/// A run that has ended stays as it is over any number of events.
pub proof fn lemma_ended_stays_ended(s: PipelineView, events: Seq<EventView>)
    requires
        ended(s),
    ensures
        run_from(s, events).0 == s,
        run_from(s, events).1.len() == events.len(),
        forall|i: int|
            0 <= i < events.len() ==> #[trigger] run_from(s, events).1[i] == last_word(s),
    decreases events.len(),
{
    if events.len() > 0 {
        lemma_ended_stays_ended(s, events.drop_first());
    }
}

/// A failure that is reported to a run in progress ends it at once: the run
/// fails, with `Translation` where a translation was awaited and `Network`
/// otherwise, and neither the queue nor the record of what was reblogged
/// changes.
pub proof fn lemma_failure_ends_run(s: PipelineView)
    requires
        !ended(s),
    ensures
        transition(s, EventView::Failed) == halt(
            s,
            if s.stage is AwaitTranslation {
                RunError::Translation
            } else {
                RunError::Network
            },
        ),
        transition(s, EventView::Failed).0.queue == s.queue,
        transition(s, EventView::Failed).0.published == s.published,
        ended(transition(s, EventView::Failed).0),
{
}

/// After a failure nothing is attempted any more: whatever is reported to a
/// run behind a failure, every answer is the same refusal, what was
/// reblogged before the failure stays on record, and the posts that were
/// still to be taken stay untouched.
pub proof fn lemma_nothing_follows_a_failure(s: PipelineView, later: Seq<EventView>)
    requires
        !ended(s),
    ensures
        ({
            let (failed, refusal) = transition(s, EventView::Failed);
            let (last, actions) = run_from(s, seq![EventView::Failed] + later);
            &&& refusal is Abort
            &&& last == failed
            &&& last.published == s.published
            &&& last.queue == s.queue
            &&& actions.len() == later.len() + 1
            &&& forall|i: int| 0 <= i < actions.len() ==> #[trigger] actions[i] == refusal
        }),
{
    let (failed, refusal) = transition(s, EventView::Failed);
    let events = seq![EventView::Failed] + later;
    lemma_failure_ends_run(s);
    lemma_ended_stays_ended(failed, later);
    assert(events.drop_first() =~= later);
}

/// No step takes back a reblog: what was reblogged before a step is the
/// beginning of what is reblogged after it.
pub proof fn lemma_step_keeps_published(s: PipelineView, event: EventView)
    ensures
        s.published.is_prefix_of(transition(s, event).0.published),
{
}

/// No sequence of events takes back a reblog, whether the run goes on,
/// finishes or fails.
pub proof fn lemma_run_keeps_published(s: PipelineView, events: Seq<EventView>)
    ensures
        s.published.is_prefix_of(run_from(s, events).0.published),
    decreases events.len(),
{
    if events.len() > 0 {
        lemma_step_keeps_published(s, events.first());
        lemma_run_keeps_published(transition(s, events.first()).0, events.drop_first());
    }
}

/// A run begins with photo posts only, for it holds no post at all.
pub proof fn lemma_initial_holds_photos_only(client: RumblrView, config: RunConfigView)
    ensures
        holds_photos_only(initial(client, config).0),
{
}

/// A step keeps the posts of a run photo posts: the page is filtered when it
/// comes in, and nothing else enters the queue.
pub proof fn lemma_step_holds_photos_only(s: PipelineView, event: EventView)
    requires
        holds_photos_only(s),
    ensures
        holds_photos_only(transition(s, event).0),
{
    match (s.stage, event) {
        (StageView::AwaitPage, EventView::Response(body)) => {
            if let Some(page) = posts_in_body(body) {
                lemma_processing_order_photos(page);
                lemma_take_next_holds_photos_only(
                    PipelineView { queue: processing_order(page), ..s },
                );
            }
        },
        (StageView::AwaitReblog { post }, EventView::Reblogged) => {
            lemma_take_next_holds_photos_only(
                PipelineView { published: s.published.push(post.id()->Ok_0), ..s },
            );
        },
        _ => {},
    }
}

/// Turning to the next post keeps the posts of a run photo posts.
proof fn lemma_take_next_holds_photos_only(s: PipelineView)
    requires
        holds_photos_only(s),
    ensures
        holds_photos_only(take_next(s).0),
{
    if s.queue.len() > 0 {
        let rest = s.queue.drop_first();
        assert forall|i: int| 0 <= i < rest.len() implies (#[trigger] rest[i]).is_photo() by {
            assert(rest[i] == s.queue[i + 1]);
        }
    }
}

/// While a run holds photo posts only, it never fails for having been asked
/// to treat another kind of post as a photo post.
pub proof fn lemma_no_wrong_post_kind(s: PipelineView, event: EventView)
    requires
        holds_photos_only(s),
        !ended(s),
    ensures
        transition(s, event).1 != ActionView::Abort(RunError::WrongPostKind),
{
    if let (StageView::AwaitPage, EventView::Response(body)) = (s.stage, event) {
        if let Some(page) = posts_in_body(body) {
            lemma_processing_order_photos(page);
        }
    }
}

/// What is reported in a run in which every translation and every reblog
/// succeeds: for each translated text in turn, the text and then the word
/// that the reblog went through.
pub open spec fn success_events(translations: Seq<Seq<char>>) -> Seq<EventView>
    decreases translations.len(),
{
    if translations.len() == 0 {
        Seq::empty()
    } else {
        seq![EventView::Translated(translations.first()), EventView::Reblogged] + success_events(
            translations.drop_first(),
        )
    }
}

/// The reblog of `post` under the translated caption.
pub open spec fn reblog_of(s: PipelineView, post: PostView, translated: Seq<char>) -> ActionView {
    ActionView::Reblog {
        url: reblog_address(
            s.client.tumblr_key,
            post,
            s.config.bot_blog,
            signed_caption(translated),
        )->Ok_0,
        comment: signed_caption(translated),
    }
}

/// What follows the reblog of a post: the translation of the next post's
/// caption, or the end of the run after the last one.
pub open spec fn turn_to(rest: Seq<PostView>) -> ActionView {
    if rest.len() == 0 {
        ActionView::Finish
    } else {
        ActionView::Translate { text: rest.first().caption()->Ok_0, language_pair: language_pair() }
    }
}

/// The actions of a run that takes `posts` in their order and is given
/// `translations` for their captions: for each post its reblog, then the turn
/// to the post behind it.
pub open spec fn actions_for(
    s: PipelineView,
    posts: Seq<PostView>,
    translations: Seq<Seq<char>>,
) -> Seq<ActionView>
    decreases posts.len(),
{
    if posts.len() == 0 || translations.len() == 0 {
        Seq::empty()
    } else {
        seq![reblog_of(s, posts.first(), translations.first()), turn_to(posts.drop_first())]
            + actions_for(s, posts.drop_first(), translations.drop_first())
    }
}

/// The identifiers of a list of photo posts, in order.
pub open spec fn ids_of(posts: Seq<PostView>) -> Seq<u64> {
    Seq::new(posts.len(), |i: int| posts[i].id()->Ok_0)
}

/// Two events are taken one after the other, and the rest after them.
proof fn lemma_run_two(s: PipelineView, first: EventView, second: EventView, rest: Seq<EventView>)
    ensures
        run_from(s, seq![first, second] + rest) == ({
            let (s1, a1) = transition(s, first);
            let (s2, a2) = transition(s1, second);
            let (last, actions) = run_from(s2, rest);
            (last, seq![a1, a2] + actions)
        }),
{
    let events = seq![first, second] + rest;
    let (s1, a1) = transition(s, first);
    let (s2, a2) = transition(s1, second);
    let (last, actions) = run_from(s2, rest);
    assert(events.drop_first() =~= seq![second] + rest);
    assert(events.drop_first().drop_first() =~= rest);
    assert(run_from(s1, events.drop_first()) == (last, seq![a2] + actions));
    assert(seq![a1] + (seq![a2] + actions) =~= seq![a1, a2] + actions);
}

/// A run that awaits the translation of a post, holds photo posts only and
/// is given a translation for the post in hand and for every post of its
/// queue, with every reblog going through, reblogs all of them in the order
/// of the queue: each with its translated caption and the attribution, each
/// before the next caption is sent for translation. It then finishes, with
/// the identifiers of these posts added to its record in the same order.
pub proof fn lemma_successful_run(s: PipelineView, translations: Seq<Seq<char>>)
    requires
        holds_photos_only(s),
        s.stage is AwaitTranslation,
        translations.len() == s.queue.len() + 1,
    ensures
        ({
            let posts = seq![s.stage->AwaitTranslation_post] + s.queue;
            let (last, actions) = run_from(s, success_events(translations));
            &&& actions == actions_for(s, posts, translations)
            &&& last.stage is Finished
            &&& last.queue.len() == 0
            &&& last.published == s.published + ids_of(posts)
        }),
    decreases s.queue.len(),
{
    let post = s.stage->AwaitTranslation_post;
    let posts = seq![post] + s.queue;
    let text = translations.first();
    let more = translations.drop_first();
    // The post in hand is reblogged, and the run turns to its queue.
    let (s1, a1) = transition(s, EventView::Translated(text));
    let (s2, a2) = transition(s1, EventView::Reblogged);
    lemma_run_two(s, EventView::Translated(text), EventView::Reblogged, success_events(more));
    assert(posts.drop_first() =~= s.queue);
    assert(a1 == reblog_of(s, post, text));
    assert(a2 == turn_to(s.queue));
    if s.queue.len() == 0 {
        // Nothing is left: no event follows, and no action.
        assert(success_events(more) =~= Seq::<EventView>::empty());
        assert(actions_for(s, s.queue, more) =~= Seq::<ActionView>::empty());
        assert(s2.published =~= s.published + ids_of(posts));
    } else {
        // The rest of the run is a run of the same kind with a shorter queue.
        lemma_step_holds_photos_only(s, EventView::Translated(text));
        lemma_step_holds_photos_only(s1, EventView::Reblogged);
        lemma_successful_run(s2, more);
        assert(seq![s2.stage->AwaitTranslation_post] + s2.queue =~= s.queue);
        lemma_actions_for_same_addresses(s, s2, s.queue, more);
        assert(s2.published + ids_of(s.queue) =~= s.published + ids_of(posts));
    }
}

/// The reblogs of a run depend on its state only through the key and the
/// bot blog, which no step changes.
proof fn lemma_actions_for_same_addresses(
    s: PipelineView,
    t: PipelineView,
    posts: Seq<PostView>,
    translations: Seq<Seq<char>>,
)
    requires
        s.client == t.client,
        s.config == t.config,
    ensures
        actions_for(s, posts, translations) == actions_for(t, posts, translations),
    decreases posts.len(),
{
    if posts.len() > 0 && translations.len() > 0 {
        lemma_actions_for_same_addresses(s, t, posts.drop_first(), translations.drop_first());
    }
}

/// A run that receives a well-formed page and is then given a translation
/// for every photo post of it, with every reblog going through, takes the
/// photo posts of the page in the reverse of the page's order, leaves the
/// other posts aside, reblogs each photo post with its translated caption
/// and the attribution, and finishes.
pub proof fn lemma_page_is_republished(
    s: PipelineView,
    body: Seq<u8>,
    translations: Seq<Seq<char>>,
)
    requires
        s.stage is AwaitPage,
        posts_in_body(body) is Some,
        translations.len() == processing_order(posts_in_body(body)->Some_0).len(),
    ensures
        ({
            let posts = processing_order(posts_in_body(body)->Some_0);
            let (last, actions) = run_from(
                s,
                seq![EventView::Response(body)] + success_events(translations),
            );
            &&& actions == seq![turn_to(posts)] + actions_for(s, posts, translations)
            &&& last.stage is Finished
            &&& last.published == s.published + ids_of(posts)
        }),
{
    let page = posts_in_body(body)->Some_0;
    let posts = processing_order(page);
    let events = seq![EventView::Response(body)] + success_events(translations);
    let (s1, a1) = transition(s, EventView::Response(body));
    assert(events.drop_first() =~= success_events(translations));
    assert(a1 == turn_to(posts));
    lemma_processing_order_photos(page);
    if posts.len() == 0 {
        assert(run_from(s, events).1 =~= seq![a1]);
        assert(s.published + ids_of(posts) =~= s.published);
    } else {
        // The run now awaits the translation of the post that the page lists
        // last, with the other photo posts in its queue.
        let queue = s1.queue;
        assert forall|i: int| 0 <= i < queue.len() implies (#[trigger] queue[i]).is_photo() by {
            assert(queue[i] == posts[i + 1]);
        }
        lemma_successful_run(s1, translations);
        assert(seq![posts.first()] + s1.queue =~= posts);
        lemma_actions_for_same_addresses(s, s1, posts, translations);
    }
}

} // verus!
