//! One run of the bot, as a machine that asks for one outside action at a
//! time.
//!
//! A run counts the posts of the bot blog and of the source blog, fetches one
//! page of the source blog, and then takes the photo posts of that page in
//! the reverse of the order in which the page lists them: each caption is
//! translated, signed as the bot's, and reblogged to the bot blog. The caller
//! performs what an [`Action`] asks for and hands back an [`Event`]; the first
//! failure ends the run, and what was reblogged until then stays so.

use vstd::prelude::*;
use vstd::string::*;
use crate::client::{page_address, posts_address, reblog_address, Rumblr, RumblrView};
use crate::error::RunError;
use crate::post::{Post, PostView};
use crate::response::{
    parse_posts,
    parse_total_posts,
    post_views,
    posts_in_body,
    total_in_body,
};
use crate::window::{compute_window, window_of, WindowConfig};

verus! {

/// The language pair of every translation: from Russian to English.
pub open spec fn language_pair() -> Seq<char> {
    "ru-en"@
}

/// What the bot adds to every caption.
pub open spec fn attribution() -> Seq<char> {
    "\n(I am a bot)"@
}

/// The caption of a reblog: the translated text, then the attribution.
pub open spec fn signed_caption(translated: Seq<char>) -> Seq<char> {
    translated + attribution()
}

/// The photo posts of a page, in the order of the page.
pub open spec fn photo_posts(page: Seq<PostView>) -> Seq<PostView> {
    page.filter(|post: PostView| post.is_photo())
}

/// The posts of a page that a run republishes, in the order in which it takes
/// them: the photo posts, last listed first.
pub open spec fn processing_order(page: Seq<PostView>) -> Seq<PostView> {
    photo_posts(page).reverse()
}

/// Signs a translated caption as the bot's.
pub fn compose_caption(translated: &str) -> (caption: String)
    ensures
        caption@ == signed_caption(translated@),
{
    let mut caption = String::from_str(translated);
    caption.append("\n(I am a bot)");
    caption
}

/// Keeps the photo posts of a page, in the order of the page.
pub fn keep_photos(page: Vec<Post>) -> (photos: Vec<Post>)
    ensures
        post_views(photos@) == photo_posts(post_views(page@)),
{
    let ghost whole = post_views(page@);
    let mut page = page;
    let mut backwards: Vec<Post> = Vec::new();
    while page.len() > 0
        invariant
            post_views(page@) + post_views(backwards@).reverse() =~= whole,
        decreases page.len(),
    {
        let post = page.pop().unwrap();
        backwards.push(post);
    }
    let mut photos: Vec<Post> = Vec::new();
    let ghost mut done: Seq<PostView> = Seq::empty();
    while backwards.len() > 0
        invariant
            done + post_views(backwards@).reverse() =~= whole,
            post_views(photos@) == photo_posts(done),
        decreases backwards.len(),
    {
        let post = backwards.pop().unwrap();
        proof {
            done.lemma_filter_push(post@, |post: PostView| post.is_photo());
            done = done.push(post@);
        }
        if post.is_photo() {
            photos.push(post);
        }
    }
    photos
}

/// The blogs and distances of a run.
#[derive(Debug, PartialEq, Eq)]
pub struct RunConfig {
    /// The blog whose photo posts are taken.
    pub source_blog: String,
    /// The blog to which the bot reblogs them.
    pub bot_blog: String,
    pub window: WindowConfig,
}

/// What a `RunConfig` holds, as mathematical values.
pub struct RunConfigView {
    pub source_blog: Seq<char>,
    pub bot_blog: Seq<char>,
    pub window: WindowConfig,
}

impl View for RunConfig {
    type V = RunConfigView;

    open spec fn view(&self) -> RunConfigView {
        RunConfigView {
            source_blog: self.source_blog@,
            bot_blog: self.bot_blog@,
            window: self.window,
        }
    }
}

/// What a run is waiting for, or how it ended.
#[derive(Debug, PartialEq, Eq)]
pub enum Stage {
    /// The post count of the bot blog has been asked for.
    AwaitBotTotal,
    /// The post count of the source blog has been asked for.
    AwaitSourceTotal { bot_total: i64 },
    /// The page of the source blog has been asked for.
    AwaitPage,
    /// The caption of `post` is with the translation service.
    AwaitTranslation { post: Post },
    /// The reblog of `post` has been sent.
    AwaitReblog { post: Post },
    /// Every photo post of the page has been reblogged.
    Finished,
    /// The run has stopped on an error.
    Failed(RunError),
}

/// What a `Stage` holds, as mathematical values.
pub enum StageView {
    AwaitBotTotal,
    AwaitSourceTotal { bot_total: i64 },
    AwaitPage,
    AwaitTranslation { post: PostView },
    AwaitReblog { post: PostView },
    Finished,
    Failed(RunError),
}

impl View for Stage {
    type V = StageView;

    open spec fn view(&self) -> StageView {
        match *self {
            Stage::AwaitBotTotal => StageView::AwaitBotTotal,
            Stage::AwaitSourceTotal { bot_total } => StageView::AwaitSourceTotal { bot_total },
            Stage::AwaitPage => StageView::AwaitPage,
            Stage::AwaitTranslation { post } => StageView::AwaitTranslation { post: post@ },
            Stage::AwaitReblog { post } => StageView::AwaitReblog { post: post@ },
            Stage::Finished => StageView::Finished,
            Stage::Failed(e) => StageView::Failed(e),
        }
    }
}

/// What the caller reports after it has performed an action.
#[derive(Debug, PartialEq, Eq)]
pub enum Event {
    /// The body with which the blog service answered a `Get`.
    Response(Vec<u8>),
    /// The text that the translation service returned.
    Translated(String),
    /// The blog service accepted the reblog.
    Reblogged,
    /// The action could not be completed.
    Failed,
}

/// What an `Event` holds, as mathematical values.
pub enum EventView {
    Response(Seq<u8>),
    Translated(Seq<char>),
    Reblogged,
    Failed,
}

impl View for Event {
    type V = EventView;

    open spec fn view(&self) -> EventView {
        match *self {
            Event::Response(body) => EventView::Response(body@),
            Event::Translated(text) => EventView::Translated(text@),
            Event::Reblogged => EventView::Reblogged,
            Event::Failed => EventView::Failed,
        }
    }
}

/// What the run asks its caller to do next.
#[derive(Debug, PartialEq, Eq)]
pub enum Action {
    /// Send a signed GET request to `url` and report the body.
    Get { url: String },
    /// Have `text` translated for `language_pair` and report the result.
    Translate { text: String, language_pair: String },
    /// Send a signed POST request to `url`, which publishes a reblog with the
    /// caption `comment`.
    Reblog { url: String, comment: String },
    /// Nothing is left to do: the run is complete.
    Finish,
    /// Nothing more will be done: the run has failed.
    Abort(RunError),
}

/// What an `Action` holds, as mathematical values.
pub enum ActionView {
    Get { url: Seq<char> },
    Translate { text: Seq<char>, language_pair: Seq<char> },
    Reblog { url: Seq<char>, comment: Seq<char> },
    Finish,
    Abort(RunError),
}

impl View for Action {
    type V = ActionView;

    open spec fn view(&self) -> ActionView {
        match *self {
            Action::Get { url } => ActionView::Get { url: url@ },
            Action::Translate { text, language_pair } => ActionView::Translate {
                text: text@,
                language_pair: language_pair@,
            },
            Action::Reblog { url, comment } => ActionView::Reblog { url: url@, comment: comment@ },
            Action::Finish => ActionView::Finish,
            Action::Abort(e) => ActionView::Abort(e),
        }
    }
}

/// A run in progress.
#[derive(Debug)]
pub struct Pipeline {
    pub client: Rumblr,
    pub config: RunConfig,
    pub stage: Stage,
    /// The photo posts that are still to be taken, in the order of the page.
    /// The run takes them from the end.
    pub pending: Vec<Post>,
    /// The identifiers of the posts that this run has reblogged, first one
    /// first.
    pub published: Vec<u64>,
}

/// The state of a run, as mathematical values.
pub struct PipelineView {
    pub client: RumblrView,
    pub config: RunConfigView,
    pub stage: StageView,
    /// The photo posts that are still to be taken, next one first.
    pub queue: Seq<PostView>,
    pub published: Seq<u64>,
}

impl View for Pipeline {
    type V = PipelineView;

    open spec fn view(&self) -> PipelineView {
        PipelineView {
            client: self.client@,
            config: self.config@,
            stage: self.stage@,
            queue: post_views(self.pending@).reverse(),
            published: self.published@,
        }
    }
}

/// The state in which a run begins, and its first request: the post count of
/// the bot blog.
pub open spec fn initial(client: RumblrView, config: RunConfigView) -> (PipelineView, ActionView) {
    (
        PipelineView {
            client,
            config,
            stage: StageView::AwaitBotTotal,
            queue: Seq::empty(),
            published: Seq::empty(),
        },
        ActionView::Get { url: posts_address(client.tumblr_key, config.bot_blog) },
    )
}

/// The run stops on `error`. Nothing else changes.
pub open spec fn halt(s: PipelineView, error: RunError) -> (PipelineView, ActionView) {
    (PipelineView { stage: StageView::Failed(error), ..s }, ActionView::Abort(error))
}

/// The run turns to the next post of its queue: it asks for the translation
/// of that post's caption, or finishes where the queue is empty.
pub open spec fn take_next(s: PipelineView) -> (PipelineView, ActionView) {
    if s.queue.len() == 0 {
        (PipelineView { stage: StageView::Finished, ..s }, ActionView::Finish)
    } else {
        let post = s.queue.first();
        match post.caption() {
            Ok(text) => (
                PipelineView {
                    stage: StageView::AwaitTranslation { post },
                    queue: s.queue.drop_first(),
                    ..s
                },
                ActionView::Translate { text, language_pair: language_pair() },
            ),
            Err(e) => halt(s, e),
        }
    }
}

/// What a run does when `event` is reported in state `s`: the state that
/// follows, and the action that it asks for.
pub open spec fn transition(s: PipelineView, event: EventView) -> (PipelineView, ActionView) {
    match s.stage {
        StageView::AwaitBotTotal => match event {
            EventView::Response(body) => match total_in_body(body) {
                Some(bot_total) => (
                    PipelineView { stage: StageView::AwaitSourceTotal { bot_total }, ..s },
                    ActionView::Get {
                        url: posts_address(s.client.tumblr_key, s.config.source_blog),
                    },
                ),
                None => halt(s, RunError::MalformedResponse),
            },
            EventView::Failed => halt(s, RunError::Network),
            _ => halt(s, RunError::UnexpectedEvent),
        },
        StageView::AwaitSourceTotal { bot_total } => match event {
            EventView::Response(body) => match total_in_body(body) {
                Some(source_total) => match window_of(
                    s.config.window,
                    source_total as int,
                    bot_total as int,
                ) {
                    Ok(window) => (
                        PipelineView { stage: StageView::AwaitPage, ..s },
                        ActionView::Get {
                            url: page_address(s.client.tumblr_key, s.config.source_blog, window),
                        },
                    ),
                    Err(e) => halt(s, e),
                },
                None => halt(s, RunError::MalformedResponse),
            },
            EventView::Failed => halt(s, RunError::Network),
            _ => halt(s, RunError::UnexpectedEvent),
        },
        StageView::AwaitPage => match event {
            EventView::Response(body) => match posts_in_body(body) {
                Some(page) => take_next(PipelineView { queue: processing_order(page), ..s }),
                None => halt(s, RunError::MalformedResponse),
            },
            EventView::Failed => halt(s, RunError::Network),
            _ => halt(s, RunError::UnexpectedEvent),
        },
        StageView::AwaitTranslation { post } => match event {
            EventView::Translated(text) => match reblog_address(
                s.client.tumblr_key,
                post,
                s.config.bot_blog,
                signed_caption(text),
            ) {
                Ok(url) => (
                    PipelineView { stage: StageView::AwaitReblog { post }, ..s },
                    ActionView::Reblog { url, comment: signed_caption(text) },
                ),
                Err(e) => halt(s, e),
            },
            EventView::Failed => halt(s, RunError::Translation),
            _ => halt(s, RunError::UnexpectedEvent),
        },
        StageView::AwaitReblog { post } => match event {
            EventView::Reblogged => match post.id() {
                Ok(id) => take_next(PipelineView { published: s.published.push(id), ..s }),
                Err(e) => halt(s, e),
            },
            EventView::Failed => halt(s, RunError::Network),
            _ => halt(s, RunError::UnexpectedEvent),
        },
        StageView::Finished => (s, ActionView::Finish),
        StageView::Failed(e) => (s, ActionView::Abort(e)),
    }
}

impl Pipeline {
    /// Begins a run. The first action asks for the post count of the bot
    /// blog.
    pub fn start(client: Rumblr, config: RunConfig) -> (begun: (Pipeline, Action))
        ensures
            (begun.0@, begun.1@) == initial(client@, config@),
    {
        let url = client.total_posts_url(config.bot_blog.as_str());
        let pipeline = Pipeline {
            client,
            config,
            stage: Stage::AwaitBotTotal,
            pending: Vec::new(),
            published: Vec::new(),
        };
        (pipeline, Action::Get { url })
    }

    /// Stops the run on `error`.
    fn halt(self, error: RunError) -> (next: (Pipeline, Action))
        ensures
            (next.0@, next.1@) == halt(self@, error),
    {
        let mut run = self;
        run.stage = Stage::Failed(error);
        (run, Action::Abort(error))
    }

    /// Turns to the next post of the queue.
    fn take_next(self) -> (next: (Pipeline, Action))
        ensures
            (next.0@, next.1@) == take_next(self@),
    {
        let mut run = self;
        let ghost before = run.pending@;
        if run.pending.len() == 0 {
            run.stage = Stage::Finished;
            return (run, Action::Finish);
        }
        match run.pending[run.pending.len() - 1].caption() {
            Ok(text) => {
                let post = run.pending.pop().unwrap();
                assert(post_views(run.pending@).reverse() =~= post_views(
                    before,
                ).reverse().drop_first());
                run.stage = Stage::AwaitTranslation { post };
                (run, Action::Translate { text, language_pair: String::from_str("ru-en") })
            },
            Err(e) => run.halt(e),
        }
    }

    /// Takes in what the caller reports and decides what is done next.
    ///
    /// A response is read as the stage expects it; the page is cut down to
    /// its photo posts, which are then taken from the last one listed to the
    /// first. A failure, a response that cannot be read and an event that the
    /// stage does not await stop the run. Once the run has ended, every event
    /// gets the same answer.
    pub fn step(self, event: Event) -> (next: (Pipeline, Action))
        ensures
            (next.0@, next.1@) == transition(self@, event@),
    {
        let mut run = self;
        match run.stage {
            Stage::AwaitBotTotal => match event {
                Event::Response(body) => match parse_total_posts(body.as_slice()) {
                    Ok(bot_total) => {
                        let url = run.client.total_posts_url(run.config.source_blog.as_str());
                        run.stage = Stage::AwaitSourceTotal { bot_total };
                        (run, Action::Get { url })
                    },
                    Err(e) => run.halt(e),
                },
                Event::Failed => run.halt(RunError::Network),
                _ => run.halt(RunError::UnexpectedEvent),
            },
            Stage::AwaitSourceTotal { bot_total } => match event {
                Event::Response(body) => match parse_total_posts(body.as_slice()) {
                    Ok(source_total) => match compute_window(
                        &run.config.window,
                        source_total,
                        bot_total,
                    ) {
                        Ok(window) => {
                            let url = run.client.posts_url(run.config.source_blog.as_str(), window);
                            run.stage = Stage::AwaitPage;
                            (run, Action::Get { url })
                        },
                        Err(e) => run.halt(e),
                    },
                    Err(e) => run.halt(e),
                },
                Event::Failed => run.halt(RunError::Network),
                _ => run.halt(RunError::UnexpectedEvent),
            },
            Stage::AwaitPage => match event {
                Event::Response(body) => match parse_posts(body.as_slice()) {
                    Ok(page) => {
                        run.pending = keep_photos(page);
                        run.take_next()
                    },
                    Err(e) => run.halt(e),
                },
                Event::Failed => run.halt(RunError::Network),
                _ => run.halt(RunError::UnexpectedEvent),
            },
            Stage::AwaitTranslation { post } => {
                let reblog = match event {
                    Event::Translated(text) => {
                        let comment = compose_caption(text.as_str());
                        match run.client.reblog_url(
                            &post,
                            run.config.bot_blog.as_str(),
                            comment.as_str(),
                        ) {
                            Ok(url) => Ok(Action::Reblog { url, comment }),
                            Err(e) => Err(e),
                        }
                    },
                    Event::Failed => Err(RunError::Translation),
                    _ => Err(RunError::UnexpectedEvent),
                };
                match reblog {
                    Ok(action) => {
                        run.stage = Stage::AwaitReblog { post };
                        (run, action)
                    },
                    Err(e) => {
                        run.stage = Stage::AwaitTranslation { post };
                        run.halt(e)
                    },
                }
            },
            Stage::AwaitReblog { post } => {
                let reblogged = match event {
                    Event::Reblogged => post.id(),
                    Event::Failed => Err(RunError::Network),
                    _ => Err(RunError::UnexpectedEvent),
                };
                run.stage = Stage::AwaitReblog { post };
                match reblogged {
                    Ok(id) => {
                        run.published.push(id);
                        run.take_next()
                    },
                    Err(e) => run.halt(e),
                }
            },
            Stage::Finished => (run, Action::Finish),
            Stage::Failed(e) => (run, Action::Abort(e)),
        }
    }
}

} // verus!
