//! Media containers: made, watched until they are finished, and published.

use crate::api::{graph_path, graph_url, Fbapi};
use crate::error::{reply_view, ErrorView, FbapiError};
use crate::exchange::{
    actions_view, and_then, done_turn, form_request, fresh_record, observe, observed, send_turn,
    Action, ActionView, Channel, LogParams, Next, NextView, Request, Turn, TurnView,
};
use crate::flow::{id_call_continued, IdCall};
use crate::json::{Json, JsonValue};
use crate::poll::{
    class_entry, classes_view, poll_absorbed, poll_started, FailureRule, FailureRuleView, Guard,
    GuardView, PollConfig, PollConfigView, PollLoop, PollLoopView, PollStart, PollStartView,
    PollStep, PollStepView, StatusClass,
};
use crate::retry::{settled, started, Ended, Executor, ExecutorView, Reply, Settled, SettledView};
use crate::text::{borrowed_pairs, owned_texts, Pair};
use vstd::prelude::*;

verus! {

/// The two ways in which a container is watched.
#[derive(Clone, Copy, Debug, PartialEq, Eq, Structural)]
pub enum CheckStyle {
    /// The status code alone is asked for, and a failure carries nothing.
    Plain,
    /// The status is asked for with the status code, and a failure carries
    /// the status document.
    Detailed,
}

/// The fields that a check asks for.
pub open spec fn check_fields(style: CheckStyle) -> Seq<char> {
    match style {
        CheckStyle::Plain => "status_code"@,
        CheckStyle::Detailed => "status,status_code"@,
    }
}

/// How a check reports a failure.
pub open spec fn check_failure(style: CheckStyle) -> FailureRuleView {
    match style {
        CheckStyle::Plain => FailureRuleView::Video,
        CheckStyle::Detailed => FailureRuleView::Container,
    }
}

/// What the status codes of a container mean.
pub open spec fn container_classes() -> Seq<(Seq<char>, StatusClass)> {
    seq![("FINISHED"@, StatusClass::Success), ("IN_PROGRESS"@, StatusClass::Transient)]
}

/// What a container is made, watched and published with.
pub struct MediaPlan {
    pub version: String,
    pub access_token: String,
    pub account_igid: String,
    pub style: CheckStyle,
    /// How many checks there are.
    pub check_retry_count: usize,
    /// The seconds between two checks.
    pub check_delay: usize,
    /// The attempts of each call.
    pub retry_count: usize,
}

/// The mathematical value of a [`MediaPlan`].
pub struct MediaPlanView {
    pub version: Seq<char>,
    pub access_token: Seq<char>,
    pub account_igid: Seq<char>,
    pub style: CheckStyle,
    pub check_retry_count: usize,
    pub check_delay: usize,
    pub retry_count: usize,
}

impl View for MediaPlan {
    type V = MediaPlanView;

    open spec fn view(&self) -> MediaPlanView {
        MediaPlanView {
            version: self.version@,
            access_token: self.access_token@,
            account_igid: self.account_igid@,
            style: self.style,
            check_retry_count: self.check_retry_count,
            check_delay: self.check_delay,
            retry_count: self.retry_count,
        }
    }
}

/// Where the containers of an account are made.
pub open spec fn media_url(version: Seq<char>, account_igid: Seq<char>) -> Seq<char> {
    graph_url(version, account_igid + "/media"@)
}

/// Where the containers of an account are published.
pub open spec fn publish_url(version: Seq<char>, account_igid: Seq<char>) -> Seq<char> {
    graph_url(version, account_igid + "/media_publish"@)
}

/// The fields that publish a container.
pub open spec fn publish_fields(access_token: Seq<char>, creation_id: Seq<char>) -> Seq<Pair> {
    seq![("access_token"@, access_token), ("creation_id"@, creation_id)]
}

/// Where the status of a container is fetched.
pub open spec fn container_url(plan: MediaPlanView, creation_id: Seq<char>) -> Seq<char> {
    graph_url(
        plan.version,
        creation_id + "?fields="@ + check_fields(plan.style) + "&access_token="@
            + plan.access_token,
    )
}

/// The poll loop that watches a container: its status code is fetched
/// until it is `FINISHED`, as long as it is `IN_PROGRESS`.
pub open spec fn container_config(plan: MediaPlanView, creation_id: Seq<char>) -> PollConfigView {
    PollConfigView {
        path: container_url(plan, creation_id),
        field_path: seq!["status_code"@],
        classes: container_classes(),
        interval: plan.check_delay,
        max_iterations: plan.check_retry_count,
        retry_per_poll: plan.retry_count,
        failure: check_failure(plan.style),
        guard: GuardView::Nothing,
    }
}

/// The plan of a client for an account.
pub open spec fn media_plan(
    version: Seq<char>,
    access_token: Seq<char>,
    account_igid: Seq<char>,
    style: CheckStyle,
    check_retry_count: usize,
    check_delay: usize,
    retry_count: usize,
) -> MediaPlanView {
    MediaPlanView {
        version,
        access_token,
        account_igid,
        style,
        check_retry_count,
        check_delay,
        retry_count,
    }
}

impl Fbapi {
    /// The plan for a medium of an account.
    pub fn media_plan(
        &self,
        access_token: &str,
        account_igid: &str,
        style: CheckStyle,
        check_retry_count: usize,
        check_delay: usize,
        retry_count: usize,
    ) -> (r: MediaPlan)
        ensures
            r@ == media_plan(
                self@.version,
                access_token@,
                account_igid@,
                style,
                check_retry_count,
                check_delay,
                retry_count,
            ),
    {
        MediaPlan {
            version: self.version().to_owned(),
            access_token: access_token.to_owned(),
            account_igid: account_igid.to_owned(),
            style,
            check_retry_count,
            check_delay,
            retry_count,
        }
    }
}

impl MediaPlan {
    /// The URL at which the account's containers are made.
    pub fn media_path(&self) -> (r: String)
        ensures
            r@ == media_url(self@.version, self@.account_igid),
    {
        let mut postfix = self.account_igid.clone();
        postfix.append("/media");
        graph_path(self.version.as_str(), postfix.as_str())
    }

    /// The poll loop that watches the container `creation_id`.
    pub fn check(&self, creation_id: &str) -> (r: PollConfig)
        ensures
            r@ == container_config(self@, creation_id@),
    {
        let mut postfix = creation_id.to_owned();
        postfix.append("?fields=");
        postfix.append(
            match self.style {
                CheckStyle::Plain => "status_code",
                CheckStyle::Detailed => "status,status_code",
            },
        );
        postfix.append("&access_token=");
        postfix.append(self.access_token.as_str());
        let mut field_path: Vec<String> = Vec::new();
        field_path.push("status_code".to_owned());
        let mut classes: Vec<(String, StatusClass)> = Vec::new();
        assert(classes_view(classes@) =~= Seq::empty());
        class_entry(&mut classes, "FINISHED", StatusClass::Success);
        class_entry(&mut classes, "IN_PROGRESS", StatusClass::Transient);
        proof {
            assert(owned_texts(field_path@) =~= seq!["status_code"@]);
            assert(classes_view(classes@) =~= container_classes());
            assert(postfix@ =~= creation_id@ + "?fields="@ + check_fields(self.style)
                + "&access_token="@ + self.access_token@);
        }
        PollConfig {
            path: graph_path(self.version.as_str(), postfix.as_str()),
            field_path,
            classes,
            interval: self.check_delay,
            max_iterations: self.check_retry_count,
            retry_per_poll: self.retry_count,
            failure: match self.style {
                CheckStyle::Plain => FailureRule::Video,
                CheckStyle::Detailed => FailureRule::Container,
            },
            guard: Guard::Nothing,
        }
    }

    /// The call that publishes the container `creation_id`.
    pub fn publish(&self, creation_id: &str) -> (r: (Request, LogParams))
        ensures
            r.0@ == form_request(
                publish_url(self@.version, self@.account_igid),
                publish_fields(self@.access_token, creation_id@),
                Channel::Standard,
            ),
            r.1@ == fresh_record(
                publish_url(self@.version, self@.account_igid),
                publish_fields(self@.access_token, creation_id@),
            ),
    {
        let mut postfix = self.account_igid.clone();
        postfix.append("/media_publish");
        let path = graph_path(self.version.as_str(), postfix.as_str());
        let params = [("access_token", self.access_token.as_str()), ("creation_id", creation_id)];
        proof {
            assert(borrowed_pairs(params@) =~= publish_fields(self@.access_token, creation_id@));
        }
        (
            Request::post_form(path.as_str(), &params, Channel::Standard),
            LogParams::new(path.as_str(), &params),
        )
    }
}

/// The stages of bringing a container up: it is made, then watched.
pub enum UploadStage {
    Create(IdCall),
    Check { poll: PollLoop, creation_id: String },
}

/// The mathematical value of an [`UploadStage`].
pub enum UploadStageView {
    Create(ExecutorView),
    Check { poll: PollLoopView, creation_id: Seq<char> },
}

impl View for UploadStage {
    type V = UploadStageView;

    open spec fn view(&self) -> UploadStageView {
        match self {
            UploadStage::Create(call) => UploadStageView::Create(call@),
            UploadStage::Check { poll, creation_id } => UploadStageView::Check {
                poll: poll@,
                creation_id: creation_id@,
            },
        }
    }
}

/// A turn of the stages of bringing a container up.
pub type StageTurn = TurnView<UploadStageView, Seq<char>>;

/// The turn that begins bringing a container up: the container is made
/// with the given fields.
pub open spec fn stage_begun(plan: MediaPlanView, fields: Seq<Pair>) -> StageTurn {
    let url = media_url(plan.version, plan.account_igid);
    send_turn(
        seq![ActionView::Observe(fresh_record(url, fields))],
        form_request(url, fields, Channel::Standard),
        UploadStageView::Create(
            started(
                plan.retry_count,
                form_request(url, fields, Channel::Standard),
                fresh_record(url, fields),
            ),
        ),
    )
}

/// The turn that begins watching the container `creation_id` after the
/// actions `before`.
pub open spec fn check_turn(
    plan: MediaPlanView,
    before: Seq<ActionView>,
    creation_id: Seq<char>,
) -> StageTurn {
    match poll_started(before, container_config(plan, creation_id)) {
        PollStartView::Polling { poll, actions, request } => send_turn(
            actions,
            request,
            UploadStageView::Check { poll, creation_id },
        ),
        PollStartView::TimedOut { actions } => done_turn(actions, Err(ErrorView::VideoTimeout)),
    }
}

/// The turn that bringing a container up takes with a reply. Once the
/// container is made, it is watched; once it is finished, its id is the
/// product.
pub open spec fn stage_continued(
    plan: MediaPlanView,
    stage: UploadStageView,
    reply: Reply,
) -> StageTurn {
    match stage {
        UploadStageView::Create(call) => match id_call_continued(call, reply) {
            TurnView { actions, next: NextView::Send { request, state } } => send_turn(
                actions,
                request,
                UploadStageView::Create(state),
            ),
            TurnView { actions, next: NextView::Done(Ok(creation_id)) } => check_turn(
                plan,
                actions,
                creation_id,
            ),
            TurnView { actions, next: NextView::Done(Err(e)) } => done_turn(actions, Err(e)),
        },
        UploadStageView::Check { poll, creation_id } => match poll_absorbed(poll, reply) {
            PollStepView::Continue { poll, actions, request } => send_turn(
                actions,
                request,
                UploadStageView::Check { poll, creation_id },
            ),
            PollStepView::Failed { actions, error } => done_turn(actions, Err(error)),
            PollStepView::Succeeded { actions } => done_turn(actions, Ok(creation_id)),
        },
    }
}

impl UploadStage {
    /// Begins bringing a container up.
    pub fn begin(plan: &MediaPlan, fields: &[(&str, &str)]) -> (r: Turn<UploadStage, String>)
        ensures
            r@ == stage_begun(plan@, borrowed_pairs(fields@)),
    {
        let path = plan.media_path();
        let request = Request::post_form(path.as_str(), fields, Channel::Standard);
        let record = LogParams::new(path.as_str(), fields);
        let first = Executor::begin(plan.retry_count, request, record);
        Turn::send(
            observe(Some(first.record)),
            first.request,
            UploadStage::Create(IdCall::of(first.executor)),
        )
    }

    fn enter_check(plan: &MediaPlan, before: Vec<Action>, creation_id: String) -> (r: Turn<
        UploadStage,
        String,
    >)
        ensures
            r@ == check_turn(plan@, actions_view(before@), creation_id@),
    {
        let config = plan.check(creation_id.as_str());
        match PollLoop::start(before, config) {
            PollStart::Polling { poll, actions, request } => Turn::send(
                actions,
                request,
                UploadStage::Check { poll, creation_id },
            ),
            PollStart::TimedOut { actions } => Turn::fail(actions, FbapiError::VideoTimeout),
        }
    }

    /// Takes the reply to the request in flight.
    pub fn advance(self, plan: &MediaPlan, reply: Result<Json, FbapiError>) -> (r: Turn<
        UploadStage,
        String,
    >)
        ensures
            r@ == stage_continued(plan@, self@, reply_view(reply)),
    {
        match self {
            UploadStage::Create(call) => match call.advance(reply) {
                Turn { actions, next: Next::Send { request, state } } => Turn::send(
                    actions,
                    request,
                    UploadStage::Create(state),
                ),
                Turn { actions, next: Next::Done(Ok(creation_id)) } => Self::enter_check(
                    plan,
                    actions,
                    creation_id,
                ),
                Turn { actions, next: Next::Done(Err(e)) } => Turn::fail(actions, e),
            },
            UploadStage::Check { poll, creation_id } => match poll.absorb(reply) {
                PollStep::Continue { poll, actions, request } => Turn::send(
                    actions,
                    request,
                    UploadStage::Check { poll, creation_id },
                ),
                PollStep::Failed { actions, error } => Turn::fail(actions, error),
                PollStep::Succeeded { actions } => Turn::finish(actions, creation_id),
            },
        }
    }
}

/// A container that is brought up, with one request in flight. The product
/// is the id of the finished container.
pub struct ContainerUpload {
    pub plan: MediaPlan,
    pub stage: UploadStage,
}

/// The mathematical value of a [`ContainerUpload`].
pub struct ContainerUploadView {
    pub plan: MediaPlanView,
    pub stage: UploadStageView,
}

impl View for ContainerUpload {
    type V = ContainerUploadView;

    open spec fn view(&self) -> ContainerUploadView {
        ContainerUploadView { plan: self.plan@, stage: self.stage@ }
    }
}

/// A turn of bringing a container up.
pub type UploadTurn = TurnView<ContainerUploadView, Seq<char>>;

/// A turn of the stages, as a turn of the chain with its plan.
pub open spec fn upload_turn(plan: MediaPlanView, turn: StageTurn) -> UploadTurn {
    match turn.next {
        NextView::Send { request, state } => send_turn(
            turn.actions,
            request,
            ContainerUploadView { plan, stage: state },
        ),
        NextView::Done(result) => done_turn(turn.actions, result),
    }
}

impl ContainerUpload {
    fn with_plan(plan: MediaPlan, turn: Turn<UploadStage, String>) -> (r: Turn<
        ContainerUpload,
        String,
    >)
        ensures
            r@ == upload_turn(plan@, turn@),
    {
        match turn {
            Turn { actions, next: Next::Send { request, state } } => Turn::send(
                actions,
                request,
                ContainerUpload { plan, stage: state },
            ),
            Turn { actions, next: Next::Done(Ok(creation_id)) } => Turn::finish(
                actions,
                creation_id,
            ),
            Turn { actions, next: Next::Done(Err(e)) } => Turn::fail(actions, e),
        }
    }

    /// Begins bringing a container up: it is made with the given fields.
    pub fn begin(plan: MediaPlan, fields: &[(&str, &str)]) -> (r: Turn<ContainerUpload, String>)
        ensures
            r@ == upload_turn(plan@, stage_begun(plan@, borrowed_pairs(fields@))),
    {
        let turn = UploadStage::begin(&plan, fields);
        Self::with_plan(plan, turn)
    }

    /// Takes the reply to the request in flight.
    pub fn advance(self, reply: Result<Json, FbapiError>) -> (r: Turn<ContainerUpload, String>)
        ensures
            r@ == upload_turn(
                self@.plan,
                stage_continued(self@.plan, self@.stage, reply_view(reply)),
            ),
    {
        let ContainerUpload { plan, stage } = self;
        let turn = stage.advance(&plan, reply);
        Self::with_plan(plan, turn)
    }
}

/// The stages of publishing a medium: its container is brought up, then
/// published.
pub enum MediaStage {
    Upload(UploadStage),
    Publish(Executor),
}

/// The mathematical value of a [`MediaStage`].
pub enum MediaStageView {
    Upload(UploadStageView),
    Publish(ExecutorView),
}

impl View for MediaStage {
    type V = MediaStageView;

    open spec fn view(&self) -> MediaStageView {
        match self {
            MediaStage::Upload(stage) => MediaStageView::Upload(stage@),
            MediaStage::Publish(call) => MediaStageView::Publish(call@),
        }
    }
}

/// A medium that is published, with one request in flight. The product is
/// the reply to the publication.
pub struct MediaPublish {
    pub plan: MediaPlan,
    pub stage: MediaStage,
}

/// The mathematical value of a [`MediaPublish`].
pub struct MediaPublishView {
    pub plan: MediaPlanView,
    pub stage: MediaStageView,
}

impl View for MediaPublish {
    type V = MediaPublishView;

    open spec fn view(&self) -> MediaPublishView {
        MediaPublishView { plan: self.plan@, stage: self.stage@ }
    }
}

/// A turn of publishing a medium.
pub type MediaTurn = TurnView<MediaPublishView, JsonValue>;

/// The turn that publishes the finished container `creation_id` after the
/// actions `before`.
pub open spec fn publish_turn(
    plan: MediaPlanView,
    before: Seq<ActionView>,
    creation_id: Seq<char>,
) -> MediaTurn {
    let url = publish_url(plan.version, plan.account_igid);
    let fields = publish_fields(plan.access_token, creation_id);
    send_turn(
        before + seq![ActionView::Observe(fresh_record(url, fields))],
        form_request(url, fields, Channel::Standard),
        MediaPublishView {
            plan,
            stage: MediaStageView::Publish(
                started(
                    plan.retry_count,
                    form_request(url, fields, Channel::Standard),
                    fresh_record(url, fields),
                ),
            ),
        },
    )
}

/// What a turn of bringing the container up is to the publication: the
/// same request, the same failure, and for the finished container the call
/// that publishes it.
pub open spec fn media_turn(plan: MediaPlanView, turn: StageTurn) -> MediaTurn {
    match turn.next {
        NextView::Send { request, state } => send_turn(
            turn.actions,
            request,
            MediaPublishView { plan, stage: MediaStageView::Upload(state) },
        ),
        NextView::Done(Ok(creation_id)) => publish_turn(plan, turn.actions, creation_id),
        NextView::Done(Err(e)) => done_turn(turn.actions, Err(e)),
    }
}

/// The turn that begins publishing a medium: its container is made with
/// the given fields.
pub open spec fn media_begun(plan: MediaPlanView, fields: Seq<Pair>) -> MediaTurn {
    media_turn(plan, stage_begun(plan, fields))
}

/// The turn that publishing a medium takes with a reply. The container is
/// made, watched until it is finished, and then published; the reply to the
/// publication is the product.
pub open spec fn media_continued(state: MediaPublishView, reply: Reply) -> MediaTurn {
    match state.stage {
        MediaStageView::Upload(stage) => media_turn(
            state.plan,
            stage_continued(state.plan, stage, reply),
        ),
        MediaStageView::Publish(call) => match settled(call, reply) {
            SettledView::Again { executor, record, request } => send_turn(
                seq![ActionView::Observe(record)],
                request,
                MediaPublishView { plan: state.plan, stage: MediaStageView::Publish(executor) },
            ),
            SettledView::Finished(ended) => done_turn(observed(ended.notice), ended.result),
        },
    }
}

impl MediaPublish {
    fn with_plan(plan: MediaPlan, turn: Turn<UploadStage, String>) -> (r: Turn<
        MediaPublish,
        Json,
    >)
        ensures
            r@ == media_turn(plan@, turn@),
    {
        match turn {
            Turn { actions, next: Next::Send { request, state } } => Turn::send(
                actions,
                request,
                MediaPublish { plan, stage: MediaStage::Upload(state) },
            ),
            Turn { actions, next: Next::Done(Ok(creation_id)) } => {
                let (request, record) = plan.publish(creation_id.as_str());
                let first = Executor::begin(plan.retry_count, request, record);
                Turn::send(
                    and_then(actions, Action::Observe(first.record)),
                    first.request,
                    MediaPublish { plan, stage: MediaStage::Publish(first.executor) },
                )
            },
            Turn { actions, next: Next::Done(Err(e)) } => Turn::fail(actions, e),
        }
    }

    /// Begins publishing a medium: its container is made with the given
    /// fields.
    pub fn begin(plan: MediaPlan, fields: &[(&str, &str)]) -> (r: Turn<MediaPublish, Json>)
        ensures
            r@ == media_begun(plan@, borrowed_pairs(fields@)),
    {
        let turn = UploadStage::begin(&plan, fields);
        Self::with_plan(plan, turn)
    }

    /// Takes the reply to the request in flight.
    pub fn advance(self, reply: Result<Json, FbapiError>) -> (r: Turn<MediaPublish, Json>)
        ensures
            r@ == media_continued(self@, reply_view(reply)),
    {
        let MediaPublish { plan, stage } = self;
        match stage {
            MediaStage::Upload(stage) => {
                let turn = stage.advance(&plan, reply);
                Self::with_plan(plan, turn)
            },
            MediaStage::Publish(call) => match call.settle(reply) {
                Settled::Again { executor, record, request } => Turn::send(
                    observe(Some(record)),
                    request,
                    MediaPublish { plan, stage: MediaStage::Publish(executor) },
                ),
                Settled::Finished(Ended { notice, result: Ok(doc) }) => Turn::finish(
                    observe(notice),
                    doc,
                ),
                Settled::Finished(Ended { notice, result: Err(e) }) => Turn::fail(
                    observe(notice),
                    e,
                ),
            },
        }
    }
}

} // verus!
