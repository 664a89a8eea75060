//! Publishing a video on a page.
//!
//! The video is handed over, watched until it is ready, given its
//! thumbnail where there is one, and published to the news feed; where the
//! direct way fails to show the video, it is published to the videos tab
//! first.

use crate::api::{graph_path, graph_url, video_path, video_url, Fbapi};
use crate::apis::post_video_thumnail::{thumbnail_call, thumbnail_record, thumbnail_request};
use crate::error::{reply_view, ErrorView, FbapiError};
use crate::exchange::{
    actions_view, and_then, done_turn, form_request, fresh_record, observe, observed, send_turn,
    Action, ActionView, Channel, LogParams, LogParamsView, Next, NextView, Request, Turn, TurnView,
};
use crate::flow::{id_call_continued, IdCall};
use crate::json::{Json, JsonValue};
use crate::poll::{
    class_entry, classes_view, poll_absorbed, poll_started, FailureRule, FailureRuleView, Guard,
    GuardView, PollConfig, PollConfigView, PollLoop, PollLoopView, PollStart, PollStartView,
    PollStep, PollStepView, StatusClass,
};
use crate::retry::{
    form_settled, settled, started, Ended, EndedView, Executor, ExecutorView, FormCall, Reply,
    Settled, SettledView,
};
use crate::text::{borrowed_pairs, owned_texts, Pair};
use vstd::prelude::*;

verus! {

/// What a video is published with.
pub struct VideoPlan {
    pub version: String,
    pub access_token: String,
    pub page_fbid: String,
    pub url: String,
    pub description: String,
    /// Whether the caller holds a thumbnail to set.
    pub thumb: bool,
    /// Whether the video goes to the videos tab before the news feed.
    pub via_videos_tab: bool,
    /// How many checks there are.
    pub check_retry_count: usize,
    /// The seconds between two checks.
    pub check_video_delay: usize,
    /// The attempts of each call but the first.
    pub retry_count: usize,
}

/// The mathematical value of a [`VideoPlan`].
pub struct VideoPlanView {
    pub version: Seq<char>,
    pub access_token: Seq<char>,
    pub page_fbid: Seq<char>,
    pub url: Seq<char>,
    pub description: Seq<char>,
    pub thumb: bool,
    pub via_videos_tab: bool,
    pub check_retry_count: usize,
    pub check_video_delay: usize,
    pub retry_count: usize,
}

impl View for VideoPlan {
    type V = VideoPlanView;

    open spec fn view(&self) -> VideoPlanView {
        VideoPlanView {
            version: self.version@,
            access_token: self.access_token@,
            page_fbid: self.page_fbid@,
            url: self.url@,
            description: self.description@,
            thumb: self.thumb,
            via_videos_tab: self.via_videos_tab,
            check_retry_count: self.check_retry_count,
            check_video_delay: self.check_video_delay,
            retry_count: self.retry_count,
        }
    }
}

/// Where the videos of a page are handed over.
pub open spec fn videos_url(plan: VideoPlanView) -> Seq<char> {
    video_url(plan.version, plan.page_fbid + "/videos"@)
}

/// The fields that hand a video over.
pub open spec fn video_fields(plan: VideoPlanView) -> Seq<Pair> {
    seq![
        ("access_token"@, plan.access_token),
        ("description"@, plan.description),
        ("file_url"@, plan.url),
        ("published"@, "true"@),
        ("secret"@, "true"@),
    ]
}

/// Where the status of a video is fetched.
pub open spec fn status_url(plan: VideoPlanView, fbid: Seq<char>) -> Seq<char> {
    graph_url(plan.version, fbid + "?fields=status&access_token="@ + plan.access_token)
}

/// What the status of a video means.
pub open spec fn video_classes() -> Seq<(Seq<char>, StatusClass)> {
    seq![("ready"@, StatusClass::Success), ("processing"@, StatusClass::Transient)]
}

/// The poll loop that watches a video: its status is fetched until it is
/// `ready`, as long as it is `processing`.
pub open spec fn video_config(plan: VideoPlanView, fbid: Seq<char>) -> PollConfigView {
    PollConfigView {
        path: status_url(plan, fbid),
        field_path: seq!["status"@, "video_status"@],
        classes: video_classes(),
        interval: plan.check_video_delay,
        max_iterations: plan.check_retry_count,
        retry_per_poll: plan.retry_count,
        failure: FailureRuleView::Video,
        guard: GuardView::Nothing,
    }
}

/// The fields that publish a video to `target`.
pub open spec fn publish_fields(plan: VideoPlanView, target: Seq<char>) -> Seq<Pair> {
    seq![("access_token"@, plan.access_token), (target, "true"@), ("fields"@, "id"@)]
}

/// The stages of the chain, each with what is in flight.
pub enum VideoStage {
    /// The video is handed over.
    Create(IdCall),
    /// The video is watched.
    Check { poll: PollLoop, fbid: String },
    /// The thumbnail is set.
    Thumbnail { form: FormCall, fbid: String },
    /// The video is published to the videos tab.
    VideosTab { call: Executor, fbid: String },
    /// The video is published to the news feed.
    NewsFeed { call: Executor },
}

/// The mathematical value of a [`VideoStage`].
pub enum VideoStageView {
    Create(ExecutorView),
    Check { poll: PollLoopView, fbid: Seq<char> },
    Thumbnail { form: LogParamsView, fbid: Seq<char> },
    VideosTab { call: ExecutorView, fbid: Seq<char> },
    NewsFeed { call: ExecutorView },
}

impl View for VideoStage {
    type V = VideoStageView;

    open spec fn view(&self) -> VideoStageView {
        match self {
            VideoStage::Create(call) => VideoStageView::Create(call@),
            VideoStage::Check { poll, fbid } => VideoStageView::Check { poll: poll@, fbid: fbid@ },
            VideoStage::Thumbnail { form, fbid } => VideoStageView::Thumbnail {
                form: form@,
                fbid: fbid@,
            },
            VideoStage::VideosTab { call, fbid } => VideoStageView::VideosTab {
                call: call@,
                fbid: fbid@,
            },
            VideoStage::NewsFeed { call } => VideoStageView::NewsFeed { call: call@ },
        }
    }
}

/// A video that is published, with one request in flight. The product is
/// the reply to the publication to the news feed.
pub struct VideoPublish {
    pub plan: VideoPlan,
    pub stage: VideoStage,
}

/// The mathematical value of a [`VideoPublish`].
pub struct VideoPublishView {
    pub plan: VideoPlanView,
    pub stage: VideoStageView,
}

impl View for VideoPublish {
    type V = VideoPublishView;

    open spec fn view(&self) -> VideoPublishView {
        VideoPublishView { plan: self.plan@, stage: self.stage@ }
    }
}

/// A turn of publishing a video.
pub type VideoTurn = TurnView<VideoPublishView, JsonValue>;

/// The turn that begins the chain: the video is handed over, in one
/// attempt, on the patient transport.
pub open spec fn video_begun(plan: VideoPlanView) -> VideoTurn {
    let request = form_request(videos_url(plan), video_fields(plan), Channel::Long);
    let record = fresh_record(videos_url(plan), video_fields(plan));
    send_turn(
        seq![ActionView::Observe(record)],
        request,
        VideoPublishView { plan, stage: VideoStageView::Create(started(0, request, record)) },
    )
}

/// The turn that begins watching the video `fbid` after the actions
/// `before`.
pub open spec fn watch_turn(
    plan: VideoPlanView,
    before: Seq<ActionView>,
    fbid: Seq<char>,
) -> VideoTurn {
    match poll_started(before, video_config(plan, fbid)) {
        PollStartView::Polling { poll, actions, request } => send_turn(
            actions,
            request,
            VideoPublishView { plan, stage: VideoStageView::Check { poll, fbid } },
        ),
        PollStartView::TimedOut { actions } => done_turn(actions, Err(ErrorView::VideoTimeout)),
    }
}

/// The turn that publishes the video `fbid` to the news feed after the
/// actions `before`.
pub open spec fn feed_turn(
    plan: VideoPlanView,
    before: Seq<ActionView>,
    fbid: Seq<char>,
) -> VideoTurn {
    let url = graph_url(plan.version, fbid);
    let fields = publish_fields(plan, "publish_to_news_feed"@);
    send_turn(
        before + seq![ActionView::Observe(fresh_record(url, fields))],
        form_request(url, fields, Channel::Standard),
        VideoPublishView {
            plan,
            stage: VideoStageView::NewsFeed {
                call: started(
                    plan.retry_count,
                    form_request(url, fields, Channel::Standard),
                    fresh_record(url, fields),
                ),
            },
        },
    )
}

/// The turn that publishes the video `fbid` after the actions `before`: to
/// the videos tab first where the plan says so, else to the news feed.
pub open spec fn publish_turn(
    plan: VideoPlanView,
    before: Seq<ActionView>,
    fbid: Seq<char>,
) -> VideoTurn {
    if plan.via_videos_tab {
        let url = graph_url(plan.version, fbid);
        let fields = publish_fields(plan, "publish_to_videos_tab"@);
        send_turn(
            before + seq![ActionView::Observe(fresh_record(url, fields))],
            form_request(url, fields, Channel::Standard),
            VideoPublishView {
                plan,
                stage: VideoStageView::VideosTab {
                    call: started(
                        plan.retry_count,
                        form_request(url, fields, Channel::Standard),
                        fresh_record(url, fields),
                    ),
                    fbid,
                },
            },
        )
    } else {
        feed_turn(plan, before, fbid)
    }
}

/// What follows the check: the thumbnail is set where the caller holds
/// one; else the video is published.
pub open spec fn after_check(
    plan: VideoPlanView,
    before: Seq<ActionView>,
    fbid: Seq<char>,
) -> VideoTurn {
    if plan.thumb {
        send_turn(
            before + seq![
                ActionView::Observe(thumbnail_record(plan.version, plan.access_token, fbid)),
            ],
            thumbnail_request(plan.version, plan.access_token, fbid),
            VideoPublishView {
                plan,
                stage: VideoStageView::Thumbnail {
                    form: thumbnail_record(plan.version, plan.access_token, fbid),
                    fbid,
                },
            },
        )
    } else {
        publish_turn(plan, before, fbid)
    }
}

/// The turn that the chain takes with the reply to the request in flight.
///
/// The stages follow each other in one order: the video is handed over,
/// watched until it is ready, given its thumbnail, published to the videos
/// tab where the plan says so, and published to the news feed. The first
/// failure ends the chain; the product is the reply to the last call.
pub open spec fn video_continued(state: VideoPublishView, reply: Reply) -> VideoTurn {
    let plan = state.plan;
    match state.stage {
        VideoStageView::Create(call) => match id_call_continued(call, reply) {
            TurnView { actions, next: NextView::Send { request, state } } => send_turn(
                actions,
                request,
                VideoPublishView { plan, stage: VideoStageView::Create(state) },
            ),
            TurnView { actions, next: NextView::Done(Ok(fbid)) } => watch_turn(
                plan,
                actions,
                fbid,
            ),
            TurnView { actions, next: NextView::Done(Err(e)) } => done_turn(actions, Err(e)),
        },
        VideoStageView::Check { poll, fbid } => match poll_absorbed(poll, reply) {
            PollStepView::Continue { poll, actions, request } => send_turn(
                actions,
                request,
                VideoPublishView { plan, stage: VideoStageView::Check { poll, fbid } },
            ),
            PollStepView::Failed { actions, error } => done_turn(actions, Err(error)),
            PollStepView::Succeeded { actions } => after_check(plan, actions, fbid),
        },
        VideoStageView::Thumbnail { form, fbid } => match form_settled(form, reply) {
            EndedView { notice, result: Err(e) } => done_turn(observed(notice), Err(e)),
            EndedView { notice, result: Ok(_) } => publish_turn(plan, observed(notice), fbid),
        },
        VideoStageView::VideosTab { call, fbid } => match settled(call, reply) {
            SettledView::Again { executor, record, request } => send_turn(
                seq![ActionView::Observe(record)],
                request,
                VideoPublishView {
                    plan,
                    stage: VideoStageView::VideosTab { call: executor, fbid },
                },
            ),
            SettledView::Finished(EndedView { notice, result: Err(e) }) => done_turn(
                observed(notice),
                Err(e),
            ),
            SettledView::Finished(EndedView { notice, result: Ok(_) }) => feed_turn(
                plan,
                observed(notice),
                fbid,
            ),
        },
        VideoStageView::NewsFeed { call } => match settled(call, reply) {
            SettledView::Again { executor, record, request } => send_turn(
                seq![ActionView::Observe(record)],
                request,
                VideoPublishView { plan, stage: VideoStageView::NewsFeed { call: executor } },
            ),
            SettledView::Finished(ended) => done_turn(observed(ended.notice), ended.result),
        },
    }
}

impl VideoPlan {
    fn create(&self) -> (r: (Request, LogParams))
        ensures
            r.0@ == form_request(videos_url(self@), video_fields(self@), Channel::Long),
            r.1@ == fresh_record(videos_url(self@), video_fields(self@)),
    {
        let mut postfix = self.page_fbid.clone();
        postfix.append("/videos");
        let path = video_path(self.version.as_str(), postfix.as_str());
        let params = [
            ("access_token", self.access_token.as_str()),
            ("description", self.description.as_str()),
            ("file_url", self.url.as_str()),
            ("published", "true"),
            ("secret", "true"),
        ];
        proof {
            assert(borrowed_pairs(params@) =~= video_fields(self@));
        }
        (
            Request::post_form(path.as_str(), &params, Channel::Long),
            LogParams::new(path.as_str(), &params),
        )
    }

    fn watch(&self, fbid: &str) -> (r: PollConfig)
        ensures
            r@ == video_config(self@, fbid@),
    {
        let mut postfix = fbid.to_owned();
        postfix.append("?fields=status&access_token=");
        postfix.append(self.access_token.as_str());
        let mut field_path: Vec<String> = Vec::new();
        field_path.push("status".to_owned());
        field_path.push("video_status".to_owned());
        let mut classes: Vec<(String, StatusClass)> = Vec::new();
        assert(classes_view(classes@) =~= Seq::empty());
        class_entry(&mut classes, "ready", StatusClass::Success);
        class_entry(&mut classes, "processing", StatusClass::Transient);
        proof {
            assert(owned_texts(field_path@) =~= seq!["status"@, "video_status"@]);
            assert(classes_view(classes@) =~= video_classes());
        }
        PollConfig {
            path: graph_path(self.version.as_str(), postfix.as_str()),
            field_path,
            classes,
            interval: self.check_video_delay,
            max_iterations: self.check_retry_count,
            retry_per_poll: self.retry_count,
            failure: FailureRule::Video,
            guard: Guard::Nothing,
        }
    }

    fn publish(&self, fbid: &str, target: &str) -> (r: (Request, LogParams))
        ensures
            r.0@ == form_request(
                graph_url(self@.version, fbid@),
                publish_fields(self@, target@),
                Channel::Standard,
            ),
            r.1@ == fresh_record(graph_url(self@.version, fbid@), publish_fields(self@, target@)),
    {
        let path = graph_path(self.version.as_str(), fbid);
        let params = [
            ("access_token", self.access_token.as_str()),
            (target, "true"),
            ("fields", "id"),
        ];
        proof {
            assert(borrowed_pairs(params@) =~= publish_fields(self@, target@));
        }
        (
            Request::post_form(path.as_str(), &params, Channel::Standard),
            LogParams::new(path.as_str(), &params),
        )
    }
}

impl VideoPublish {
    /// Begins the chain.
    pub fn begin(plan: VideoPlan) -> (r: Turn<VideoPublish, Json>)
        ensures
            r@ == video_begun(plan@),
    {
        let (request, record) = plan.create();
        let first = Executor::begin(0, request, record);
        Turn::send(
            observe(Some(first.record)),
            first.request,
            VideoPublish { plan, stage: VideoStage::Create(IdCall::of(first.executor)) },
        )
    }

    fn enter_watch(plan: VideoPlan, before: Vec<Action>, fbid: String) -> (r: Turn<
        VideoPublish,
        Json,
    >)
        ensures
            r@ == watch_turn(plan@, actions_view(before@), fbid@),
    {
        let config = plan.watch(fbid.as_str());
        match PollLoop::start(before, config) {
            PollStart::Polling { poll, actions, request } => Turn::send(
                actions,
                request,
                VideoPublish { plan, stage: VideoStage::Check { poll, fbid } },
            ),
            PollStart::TimedOut { actions } => Turn::fail(actions, FbapiError::VideoTimeout),
        }
    }

    fn enter_feed(plan: VideoPlan, before: Vec<Action>, fbid: String) -> (r: Turn<
        VideoPublish,
        Json,
    >)
        ensures
            r@ == feed_turn(plan@, actions_view(before@), fbid@),
    {
        let (request, record) = plan.publish(fbid.as_str(), "publish_to_news_feed");
        let first = Executor::begin(plan.retry_count, request, record);
        Turn::send(
            and_then(before, Action::Observe(first.record)),
            first.request,
            VideoPublish { plan, stage: VideoStage::NewsFeed { call: first.executor } },
        )
    }

    fn enter_publish(plan: VideoPlan, before: Vec<Action>, fbid: String) -> (r: Turn<
        VideoPublish,
        Json,
    >)
        ensures
            r@ == publish_turn(plan@, actions_view(before@), fbid@),
    {
        if plan.via_videos_tab {
            let (request, record) = plan.publish(fbid.as_str(), "publish_to_videos_tab");
            let first = Executor::begin(plan.retry_count, request, record);
            Turn::send(
                and_then(before, Action::Observe(first.record)),
                first.request,
                VideoPublish { plan, stage: VideoStage::VideosTab { call: first.executor, fbid } },
            )
        } else {
            Self::enter_feed(plan, before, fbid)
        }
    }

    fn enter_thumbnail(plan: VideoPlan, before: Vec<Action>, fbid: String) -> (r: Turn<
        VideoPublish,
        Json,
    >)
        ensures
            r@ == after_check(plan@, actions_view(before@), fbid@),
    {
        if plan.thumb {
            let (request, record) = thumbnail_call(
                plan.version.as_str(),
                plan.access_token.as_str(),
                fbid.as_str(),
            );
            let (form, first) = FormCall::begin(record);
            Turn::send(
                and_then(before, Action::Observe(first)),
                request,
                VideoPublish { plan, stage: VideoStage::Thumbnail { form, fbid } },
            )
        } else {
            Self::enter_publish(plan, before, fbid)
        }
    }

    /// Takes the reply to the request in flight.
    pub fn advance(self, reply: Result<Json, FbapiError>) -> (r: Turn<VideoPublish, Json>)
        ensures
            r@ == video_continued(self@, reply_view(reply)),
    {
        let VideoPublish { plan, stage } = self;
        match stage {
            VideoStage::Create(call) => match call.advance(reply) {
                Turn { actions, next: Next::Send { request, state } } => Turn::send(
                    actions,
                    request,
                    VideoPublish { plan, stage: VideoStage::Create(state) },
                ),
                Turn { actions, next: Next::Done(Ok(fbid)) } => Self::enter_watch(
                    plan,
                    actions,
                    fbid,
                ),
                Turn { actions, next: Next::Done(Err(e)) } => Turn::fail(actions, e),
            },
            VideoStage::Check { poll, fbid } => match poll.absorb(reply) {
                PollStep::Continue { poll, actions, request } => Turn::send(
                    actions,
                    request,
                    VideoPublish { plan, stage: VideoStage::Check { poll, fbid } },
                ),
                PollStep::Failed { actions, error } => Turn::fail(actions, error),
                PollStep::Succeeded { actions } => Self::enter_thumbnail(plan, actions, fbid),
            },
            VideoStage::Thumbnail { form, fbid } => match form.settle(reply) {
                Ended { notice, result: Err(e) } => Turn::fail(observe(notice), e),
                Ended { notice, result: Ok(_) } => Self::enter_publish(
                    plan,
                    observe(notice),
                    fbid,
                ),
            },
            VideoStage::VideosTab { call, fbid } => match call.settle(reply) {
                Settled::Again { executor, record, request } => Turn::send(
                    observe(Some(record)),
                    request,
                    VideoPublish { plan, stage: VideoStage::VideosTab { call: executor, fbid } },
                ),
                Settled::Finished(Ended { notice, result: Err(e) }) => Turn::fail(
                    observe(notice),
                    e,
                ),
                Settled::Finished(Ended { notice, result: Ok(_) }) => Self::enter_feed(
                    plan,
                    observe(notice),
                    fbid,
                ),
            },
            VideoStage::NewsFeed { call } => match call.settle(reply) {
                Settled::Again { executor, record, request } => Turn::send(
                    observe(Some(record)),
                    request,
                    VideoPublish { plan, stage: VideoStage::NewsFeed { call: executor } },
                ),
                Settled::Finished(Ended { notice, result: Ok(doc) }) => Turn::finish(
                    observe(notice),
                    doc,
                ),
                Settled::Finished(Ended { notice, result: Err(e) }) => Turn::fail(
                    observe(notice),
                    e,
                ),
            },
        }
    }
}

/// The plan of a client for a video of a page.
pub open spec fn video_plan(
    version: Seq<char>,
    access_token: Seq<char>,
    page_fbid: Seq<char>,
    url: Seq<char>,
    description: Seq<char>,
    thumb: bool,
    via_videos_tab: bool,
    check_retry_count: usize,
    check_video_delay: usize,
    retry_count: usize,
) -> VideoPlanView {
    VideoPlanView {
        version,
        access_token,
        page_fbid,
        url,
        description,
        thumb,
        via_videos_tab,
        check_retry_count,
        check_video_delay,
        retry_count,
    }
}

impl Fbapi {
    /// Publishes the video at `url` on the page, to the news feed, with a
    /// description, and with a thumbnail where `thumb` says that the caller
    /// holds one.
    pub fn post_video(
        &self,
        access_token: &str,
        page_fbid: &str,
        url: &str,
        description: &str,
        thumb: bool,
        check_retry_count: usize,
        check_video_delay: usize,
        retry_count: usize,
    ) -> (r: Turn<VideoPublish, Json>)
        ensures
            r@ == video_begun(
                video_plan(
                    self@.version,
                    access_token@,
                    page_fbid@,
                    url@,
                    description@,
                    thumb,
                    false,
                    check_retry_count,
                    check_video_delay,
                    retry_count,
                ),
            ),
    {
        VideoPublish::begin(
            VideoPlan {
                version: self.version().to_owned(),
                access_token: access_token.to_owned(),
                page_fbid: page_fbid.to_owned(),
                url: url.to_owned(),
                description: description.to_owned(),
                thumb,
                via_videos_tab: false,
                check_retry_count,
                check_video_delay,
                retry_count,
            },
        )
    }

    /// Publishes the video at `url` on the page, to the videos tab first
    /// and then to the news feed.
    pub fn post_video_via_videos_tab(
        &self,
        access_token: &str,
        page_fbid: &str,
        url: &str,
        description: &str,
        thumb: bool,
        check_retry_count: usize,
        check_video_delay: usize,
        retry_count: usize,
    ) -> (r: Turn<VideoPublish, Json>)
        ensures
            r@ == video_begun(
                video_plan(
                    self@.version,
                    access_token@,
                    page_fbid@,
                    url@,
                    description@,
                    thumb,
                    true,
                    check_retry_count,
                    check_video_delay,
                    retry_count,
                ),
            ),
    {
        VideoPublish::begin(
            VideoPlan {
                version: self.version().to_owned(),
                access_token: access_token.to_owned(),
                page_fbid: page_fbid.to_owned(),
                url: url.to_owned(),
                description: description.to_owned(),
                thumb,
                via_videos_tab: true,
                check_retry_count,
                check_video_delay,
                retry_count,
            },
        )
    }
}

} // verus!
