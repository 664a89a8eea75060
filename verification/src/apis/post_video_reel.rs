//! Publishing a reel: a chain of calls and poll loops, each the condition
//! of the next.
//!
//! An upload session is requested and the video handed to it. Then the
//! platform's work is watched phase by phase: the upload, the copyright
//! check, and, once the thumbnail is set and the reel published, the
//! processing and the publishing. The first failure ends the chain; the
//! platform keeps what it has made by then.

use crate::api::{graph_path, graph_url, Fbapi};
use crate::apis::post_video_thumnail::{thumbnail_call, thumbnail_record, thumbnail_request};
use crate::error::{reply_view, ErrorKind, ErrorView, FbapiError};
use crate::exchange::{
    actions_view, and_then, done_turn, form_request, fresh_record, observe, observed, send_turn,
    Action, ActionView, Channel, LogParams, LogParamsView, NextView, Payload, PayloadView, Request,
    RequestView, Turn, TurnView, Verb,
};
use crate::json::{Json, JsonValue};
use crate::poll::{
    bool_at, class_entry, classes_view, classify, lemma_failure_status_ends_loop, phase_report,
    poll_absorbed, poll_started, text_at, FailureRule, FailureRuleView, Guard, GuardView,
    PollConfig, PollConfigView, PollLoop, PollLoopView, PollStart, PollStartView, PollStep,
    PollStepView, StatusClass,
};
use crate::retry::{
    form_settled, settled, started, Ended, EndedView, Executor, ExecutorView, FormCall, Reply,
    Settled, SettledView,
};
use crate::text::{borrowed_pairs, owned_texts, Pair};
use vstd::prelude::*;

verus! {

/// The phases of the platform's work on a reel.
#[derive(Clone, Copy, Debug, PartialEq, Eq, Structural)]
pub enum Phase {
    Uploading,
    Copyright,
    Processing,
    Publishing,
}

/// The member of the status under which a phase reports.
pub open spec fn phase_name(phase: Phase) -> Seq<char> {
    match phase {
        Phase::Uploading => "uploading_phase"@,
        Phase::Copyright => "copyright_check_status"@,
        Phase::Processing => "processing_phase"@,
        Phase::Publishing => "publishing_phase"@,
    }
}

/// The path of a member of a phase's report.
pub open spec fn phase_path(phase: Phase, leaf: Seq<char>) -> Seq<Seq<char>> {
    seq!["status"@, phase_name(phase), leaf]
}

/// What the status tokens of a phase mean. Every phase is done with
/// `complete`, under way with `in_progress`, and has failed with `error` and
/// `failed`; the phases after the publication may also be `not_started`.
pub open spec fn phase_classes(phase: Phase) -> Seq<(Seq<char>, StatusClass)> {
    match phase {
        Phase::Uploading | Phase::Copyright => seq![
            ("complete"@, StatusClass::Success),
            ("in_progress"@, StatusClass::Transient),
            ("error"@, StatusClass::Failure),
            ("failed"@, StatusClass::Failure),
        ],
        Phase::Processing | Phase::Publishing => seq![
            ("complete"@, StatusClass::Success),
            ("in_progress"@, StatusClass::Transient),
            ("not_started"@, StatusClass::Transient),
            ("error"@, StatusClass::Failure),
            ("failed"@, StatusClass::Failure),
        ],
    }
}

/// The seconds between two polls of a phase.
pub open spec fn phase_interval(phase: Phase) -> usize {
    match phase {
        Phase::Uploading => 1,
        _ => 2,
    }
}

/// What a phase looks at besides its status: the copyright check at the
/// matches it found, the processing at its error object.
pub open spec fn phase_guard(phase: Phase) -> GuardView {
    match phase {
        Phase::Copyright => GuardView::Matches(phase_path(phase, "matches_found"@)),
        Phase::Processing => GuardView::ErrorObject(phase_path(phase, "error"@)),
        _ => GuardView::Nothing,
    }
}

/// The poll loop of a phase: the status of the video is fetched, each poll
/// in one attempt, at most `max_checks` times.
pub open spec fn phase_config(
    phase: Phase,
    check_path: Seq<char>,
    max_checks: usize,
) -> PollConfigView {
    PollConfigView {
        path: check_path,
        field_path: phase_path(phase, "status"@),
        classes: phase_classes(phase),
        interval: phase_interval(phase),
        max_iterations: max_checks,
        retry_per_poll: 0,
        failure: FailureRuleView::Phase(phase_name(phase)),
        guard: phase_guard(phase),
    }
}

fn name_of(phase: Phase) -> (r: &'static str)
    ensures
        r@ == phase_name(phase),
{
    match phase {
        Phase::Uploading => "uploading_phase",
        Phase::Copyright => "copyright_check_status",
        Phase::Processing => "processing_phase",
        Phase::Publishing => "publishing_phase",
    }
}

fn path_of(phase: Phase, leaf: &str) -> (r: Vec<String>)
    ensures
        owned_texts(r@) == phase_path(phase, leaf@),
{
    let mut path: Vec<String> = Vec::new();
    path.push("status".to_owned());
    path.push(name_of(phase).to_owned());
    path.push(leaf.to_owned());
    assert(owned_texts(path@) =~= phase_path(phase, leaf@));
    path
}

fn classes_of(phase: Phase) -> (r: Vec<(String, StatusClass)>)
    ensures
        classes_view(r@) == phase_classes(phase),
{
    let mut classes: Vec<(String, StatusClass)> = Vec::new();
    assert(classes_view(classes@) =~= Seq::empty());
    class_entry(&mut classes, "complete", StatusClass::Success);
    class_entry(&mut classes, "in_progress", StatusClass::Transient);
    match phase {
        Phase::Processing | Phase::Publishing => {
            class_entry(&mut classes, "not_started", StatusClass::Transient);
        },
        _ => {},
    }
    class_entry(&mut classes, "error", StatusClass::Failure);
    class_entry(&mut classes, "failed", StatusClass::Failure);
    assert(classes_view(classes@) =~= phase_classes(phase));
    classes
}

/// The poll loop of a phase.
pub fn config_of(phase: Phase, check_path: &str, max_checks: usize) -> (r: PollConfig)
    ensures
        r@ == phase_config(phase, check_path@, max_checks),
{
    PollConfig {
        path: check_path.to_owned(),
        field_path: path_of(phase, "status"),
        classes: classes_of(phase),
        interval: match phase {
            Phase::Uploading => 1,
            _ => 2,
        },
        max_iterations: max_checks,
        retry_per_poll: 0,
        failure: FailureRule::Phase(name_of(phase).to_owned()),
        guard: match phase {
            Phase::Copyright => Guard::Matches(path_of(phase, "matches_found")),
            Phase::Processing => Guard::ErrorObject(path_of(phase, "error")),
            _ => Guard::Nothing,
        },
    }
}

/// What a reel is published with.
pub struct ReelPlan {
    pub version: String,
    pub access_token: String,
    pub page_fbid: String,
    pub file_url: String,
    pub description: String,
    /// Whether the caller holds a thumbnail to set.
    pub thumb: bool,
    /// How many polls each phase has.
    pub max_checks: usize,
}

/// The mathematical value of a [`ReelPlan`].
pub struct ReelPlanView {
    pub version: Seq<char>,
    pub access_token: Seq<char>,
    pub page_fbid: Seq<char>,
    pub file_url: Seq<char>,
    pub description: Seq<char>,
    pub thumb: bool,
    pub max_checks: usize,
}

impl View for ReelPlan {
    type V = ReelPlanView;

    open spec fn view(&self) -> ReelPlanView {
        ReelPlanView {
            version: self.version@,
            access_token: self.access_token@,
            page_fbid: self.page_fbid@,
            file_url: self.file_url@,
            description: self.description@,
            thumb: self.thumb,
            max_checks: self.max_checks,
        }
    }
}

/// Where a page's reels are made.
pub open spec fn reels_url(plan: ReelPlanView) -> Seq<char> {
    graph_url(plan.version, plan.page_fbid + "/video_reels"@)
}

/// The fields that ask for an upload session.
pub open spec fn start_fields(plan: ReelPlanView) -> Seq<Pair> {
    seq![("access_token"@, plan.access_token), ("upload_phase"@, "start"@)]
}

/// The fields that publish the uploaded video.
pub open spec fn finish_fields(plan: ReelPlanView, video_id: Seq<char>) -> Seq<Pair> {
    seq![
        ("access_token"@, plan.access_token),
        ("video_id"@, video_id),
        ("upload_phase"@, "finish"@),
        ("video_state"@, "PUBLISHED"@),
        ("description"@, plan.description),
    ]
}

/// The request that hands the video to the upload session: a POST to the
/// session's URL on the patient transport, with the access token as the
/// authorization and the place of the video, both as headers.
pub open spec fn upload_request(plan: ReelPlanView, upload_url: Seq<char>) -> RequestView {
    RequestView {
        verb: Verb::Post,
        url: upload_url,
        headers: seq![
            ("Authorization"@, "OAuth "@ + plan.access_token),
            ("file_url"@, plan.file_url),
        ],
        payload: PayloadView::Empty,
        channel: Channel::Long,
    }
}

/// The record with which the upload is observed.
pub open spec fn upload_record(plan: ReelPlanView, upload_url: Seq<char>) -> LogParamsView {
    fresh_record(upload_url, seq![("file_url"@, plan.file_url)])
}

/// Where the status of the video is fetched.
pub open spec fn check_url(plan: ReelPlanView, video_id: Seq<char>) -> Seq<char> {
    graph_url(plan.version, video_id + "?fields=status&access_token="@ + plan.access_token)
}

/// The poll loop of a phase of a reel.
pub open spec fn reel_phase(
    plan: ReelPlanView,
    phase: Phase,
    video_id: Seq<char>,
) -> PollConfigView {
    phase_config(phase, check_url(plan, video_id), plan.max_checks)
}

/// The stages of the chain, each with what is in flight.
pub enum ReelStage {
    /// An upload session is asked for.
    Start { call: Executor },
    /// The video is handed to the session.
    Upload { call: Executor, video_id: String },
    /// The upload is watched.
    UploadingPhase { poll: PollLoop, video_id: String },
    /// The copyright check is watched.
    CopyrightPhase { poll: PollLoop, video_id: String },
    /// The thumbnail is set.
    Thumbnail { form: FormCall, video_id: String },
    /// The reel is published.
    Finish { call: Executor, video_id: String },
    /// The processing is watched.
    ProcessingPhase { poll: PollLoop, video_id: String, finish_res: Json },
    /// The publishing is watched.
    PublishingPhase { poll: PollLoop, finish_res: Json },
}

/// The mathematical value of a [`ReelStage`].
pub enum ReelStageView {
    Start { call: ExecutorView },
    Upload { call: ExecutorView, video_id: Seq<char> },
    UploadingPhase { poll: PollLoopView, video_id: Seq<char> },
    CopyrightPhase { poll: PollLoopView, video_id: Seq<char> },
    Thumbnail { form: LogParamsView, video_id: Seq<char> },
    Finish { call: ExecutorView, video_id: Seq<char> },
    ProcessingPhase { poll: PollLoopView, video_id: Seq<char>, finish_res: JsonValue },
    PublishingPhase { poll: PollLoopView, finish_res: JsonValue },
}

impl View for ReelStage {
    type V = ReelStageView;

    open spec fn view(&self) -> ReelStageView {
        match self {
            ReelStage::Start { call } => ReelStageView::Start { call: call@ },
            ReelStage::Upload { call, video_id } => ReelStageView::Upload {
                call: call@,
                video_id: video_id@,
            },
            ReelStage::UploadingPhase { poll, video_id } => ReelStageView::UploadingPhase {
                poll: poll@,
                video_id: video_id@,
            },
            ReelStage::CopyrightPhase { poll, video_id } => ReelStageView::CopyrightPhase {
                poll: poll@,
                video_id: video_id@,
            },
            ReelStage::Thumbnail { form, video_id } => ReelStageView::Thumbnail {
                form: form@,
                video_id: video_id@,
            },
            ReelStage::Finish { call, video_id } => ReelStageView::Finish {
                call: call@,
                video_id: video_id@,
            },
            ReelStage::ProcessingPhase { poll, video_id, finish_res } => {
                ReelStageView::ProcessingPhase {
                    poll: poll@,
                    video_id: video_id@,
                    finish_res: finish_res@,
                }
            },
            ReelStage::PublishingPhase { poll, finish_res } => ReelStageView::PublishingPhase {
                poll: poll@,
                finish_res: finish_res@,
            },
        }
    }
}

/// The upload of a reel, with one request in flight.
pub struct ReelUpload {
    pub plan: ReelPlan,
    pub stage: ReelStage,
}

/// The mathematical value of a [`ReelUpload`].
pub struct ReelUploadView {
    pub plan: ReelPlanView,
    pub stage: ReelStageView,
}

impl View for ReelUpload {
    type V = ReelUploadView;

    open spec fn view(&self) -> ReelUploadView {
        ReelUploadView { plan: self.plan@, stage: self.stage@ }
    }
}

/// A turn of the upload of a reel.
pub type ReelTurn = TurnView<ReelUploadView, JsonValue>;

/// The turn that begins a call of the chain after the actions `before`: the
/// call's first attempt is observed and sent, and `stage` waits for its
/// reply.
pub open spec fn call_turn(
    plan: ReelPlanView,
    before: Seq<ActionView>,
    request: RequestView,
    record: LogParamsView,
    stage: spec_fn(ExecutorView) -> ReelStageView,
) -> ReelTurn {
    send_turn(
        before + seq![ActionView::Observe(record.attempt(0))],
        request,
        ReelUploadView { plan, stage: stage(started(0, request, record)) },
    )
}

/// The turn that begins a phase after the actions `before`.
pub open spec fn phase_turn(
    plan: ReelPlanView,
    before: Seq<ActionView>,
    phase: Phase,
    video_id: Seq<char>,
    stage: spec_fn(PollLoopView) -> ReelStageView,
) -> ReelTurn {
    match poll_started(before, reel_phase(plan, phase, video_id)) {
        PollStartView::Polling { poll, actions, request } => send_turn(
            actions,
            request,
            ReelUploadView { plan, stage: stage(poll) },
        ),
        PollStartView::TimedOut { actions } => done_turn(actions, Err(ErrorView::VideoTimeout)),
    }
}

/// The turn that begins the chain: an upload session is asked for, in one
/// attempt, on the patient transport.
pub open spec fn reel_started(plan: ReelPlanView) -> ReelTurn {
    call_turn(
        plan,
        Seq::empty(),
        form_request(reels_url(plan), start_fields(plan), Channel::Long),
        fresh_record(reels_url(plan), start_fields(plan)),
        |call: ExecutorView| ReelStageView::Start { call },
    )
}

/// What follows the reply to the request for an upload session: with the
/// session's URL and the video's id, both texts, the video is handed over;
/// any other reply is of an unexpected shape.
pub open spec fn after_start(
    plan: ReelPlanView,
    before: Seq<ActionView>,
    doc: JsonValue,
) -> ReelTurn {
    match (doc.text_of("upload_url"@), doc.text_of("video_id"@)) {
        (Some(upload_url), Some(video_id)) => call_turn(
            plan,
            before,
            upload_request(plan, upload_url),
            upload_record(plan, upload_url),
            |call: ExecutorView| ReelStageView::Upload { call, video_id },
        ),
        _ => done_turn(before, Err(ErrorView::UnExpected(doc))),
    }
}

/// What follows the reply to the upload: where it says `success: true` the
/// upload is watched; any other reply is of an unexpected shape.
pub open spec fn after_upload(
    plan: ReelPlanView,
    before: Seq<ActionView>,
    video_id: Seq<char>,
    doc: JsonValue,
) -> ReelTurn {
    if doc.flag_of("success"@) == Some(true) {
        phase_turn(
            plan,
            before,
            Phase::Uploading,
            video_id,
            |poll: PollLoopView| ReelStageView::UploadingPhase { poll, video_id },
        )
    } else {
        done_turn(before, Err(ErrorView::UnExpected(doc)))
    }
}

/// What follows the upload phase: the copyright check is watched.
pub open spec fn after_uploading(
    plan: ReelPlanView,
    before: Seq<ActionView>,
    video_id: Seq<char>,
) -> ReelTurn {
    phase_turn(
        plan,
        before,
        Phase::Copyright,
        video_id,
        |poll: PollLoopView| ReelStageView::CopyrightPhase { poll, video_id },
    )
}

/// The turn that publishes the uploaded video, in one attempt, on the
/// patient transport.
pub open spec fn finish_turn(
    plan: ReelPlanView,
    before: Seq<ActionView>,
    video_id: Seq<char>,
) -> ReelTurn {
    call_turn(
        plan,
        before,
        form_request(reels_url(plan), finish_fields(plan, video_id), Channel::Long),
        fresh_record(reels_url(plan), finish_fields(plan, video_id)),
        |call: ExecutorView| ReelStageView::Finish { call, video_id },
    )
}

/// What follows the copyright check: the thumbnail is set where the caller
/// holds one; else the reel is published.
pub open spec fn after_copyright(
    plan: ReelPlanView,
    before: Seq<ActionView>,
    video_id: Seq<char>,
) -> ReelTurn {
    if plan.thumb {
        send_turn(
            before + seq![
                ActionView::Observe(thumbnail_record(plan.version, plan.access_token, video_id)),
            ],
            thumbnail_request(plan.version, plan.access_token, video_id),
            ReelUploadView {
                plan,
                stage: ReelStageView::Thumbnail {
                    form: thumbnail_record(plan.version, plan.access_token, video_id),
                    video_id,
                },
            },
        )
    } else {
        finish_turn(plan, before, video_id)
    }
}

/// What follows the reply to the publication: where it says `success: true`
/// and names the post by a text, the processing is watched; any other reply
/// is of an unexpected shape.
pub open spec fn after_finish(
    plan: ReelPlanView,
    before: Seq<ActionView>,
    video_id: Seq<char>,
    doc: JsonValue,
) -> ReelTurn {
    if doc.flag_of("success"@) == Some(true) && doc.text_of("post_id"@) is Some {
        phase_turn(
            plan,
            before,
            Phase::Processing,
            video_id,
            |poll: PollLoopView|
                ReelStageView::ProcessingPhase { poll, video_id, finish_res: doc },
        )
    } else {
        done_turn(before, Err(ErrorView::UnExpected(doc)))
    }
}

/// What follows the processing: the publishing is watched.
pub open spec fn after_processing(
    plan: ReelPlanView,
    before: Seq<ActionView>,
    video_id: Seq<char>,
    finish_res: JsonValue,
) -> ReelTurn {
    phase_turn(
        plan,
        before,
        Phase::Publishing,
        video_id,
        |poll: PollLoopView| ReelStageView::PublishingPhase { poll, finish_res },
    )
}

/// What a call of the chain comes to with a reply: another attempt in the
/// same stage, the end of the chain with the call's failure, or what
/// follows the call's document.
pub open spec fn call_advanced(
    plan: ReelPlanView,
    call: ExecutorView,
    reply: Reply,
    stage: spec_fn(ExecutorView) -> ReelStageView,
    after: spec_fn(Seq<ActionView>, JsonValue) -> ReelTurn,
) -> ReelTurn {
    match settled(call, reply) {
        SettledView::Again { executor, record, request } => send_turn(
            seq![ActionView::Observe(record)],
            request,
            ReelUploadView { plan, stage: stage(executor) },
        ),
        SettledView::Finished(EndedView { notice, result: Err(e) }) => done_turn(
            observed(notice),
            Err(e),
        ),
        SettledView::Finished(EndedView { notice, result: Ok(doc) }) => after(
            observed(notice),
            doc,
        ),
    }
}

/// What a phase comes to with a reply: another request in the same phase,
/// the end of the chain with the phase's failure, or what follows the phase.
pub open spec fn phase_advanced(
    plan: ReelPlanView,
    poll: PollLoopView,
    reply: Reply,
    stage: spec_fn(PollLoopView) -> ReelStageView,
    after: spec_fn(Seq<ActionView>) -> ReelTurn,
) -> ReelTurn {
    match poll_absorbed(poll, reply) {
        PollStepView::Continue { poll, actions, request } => send_turn(
            actions,
            request,
            ReelUploadView { plan, stage: stage(poll) },
        ),
        PollStepView::Failed { actions, error } => done_turn(actions, Err(error)),
        PollStepView::Succeeded { actions } => after(actions),
    }
}

/// The turn that the chain takes with the reply to the request in flight.
///
/// The stages follow each other in one order: the session, the upload, the
/// upload phase, the copyright check, the thumbnail where there is one, the
/// publication, the processing, the publishing. Each stage is entered only
/// when the one before it has succeeded, and the chain ends with the reply
/// to the publication once the publishing is complete.
pub open spec fn reel_advanced(state: ReelUploadView, reply: Reply) -> ReelTurn {
    let plan = state.plan;
    match state.stage {
        ReelStageView::Start { call } => call_advanced(
            plan,
            call,
            reply,
            |call: ExecutorView| ReelStageView::Start { call },
            |before: Seq<ActionView>, doc: JsonValue| after_start(plan, before, doc),
        ),
        ReelStageView::Upload { call, video_id } => call_advanced(
            plan,
            call,
            reply,
            |call: ExecutorView| ReelStageView::Upload { call, video_id },
            |before: Seq<ActionView>, doc: JsonValue| after_upload(plan, before, video_id, doc),
        ),
        ReelStageView::UploadingPhase { poll, video_id } => phase_advanced(
            plan,
            poll,
            reply,
            |poll: PollLoopView| ReelStageView::UploadingPhase { poll, video_id },
            |before: Seq<ActionView>| after_uploading(plan, before, video_id),
        ),
        ReelStageView::CopyrightPhase { poll, video_id } => phase_advanced(
            plan,
            poll,
            reply,
            |poll: PollLoopView| ReelStageView::CopyrightPhase { poll, video_id },
            |before: Seq<ActionView>| after_copyright(plan, before, video_id),
        ),
        ReelStageView::Thumbnail { form, video_id } => match form_settled(form, reply) {
            EndedView { notice, result: Err(e) } => done_turn(observed(notice), Err(e)),
            EndedView { notice, result: Ok(_) } => finish_turn(plan, observed(notice), video_id),
        },
        ReelStageView::Finish { call, video_id } => call_advanced(
            plan,
            call,
            reply,
            |call: ExecutorView| ReelStageView::Finish { call, video_id },
            |before: Seq<ActionView>, doc: JsonValue| after_finish(plan, before, video_id, doc),
        ),
        ReelStageView::ProcessingPhase { poll, video_id, finish_res } => phase_advanced(
            plan,
            poll,
            reply,
            |poll: PollLoopView| ReelStageView::ProcessingPhase { poll, video_id, finish_res },
            |before: Seq<ActionView>| after_processing(plan, before, video_id, finish_res),
        ),
        ReelStageView::PublishingPhase { poll, finish_res } => phase_advanced(
            plan,
            poll,
            reply,
            |poll: PollLoopView| ReelStageView::PublishingPhase { poll, finish_res },
            |before: Seq<ActionView>| done_turn(before, Ok(finish_res)),
        ),
    }
}

impl ReelPlan {
    fn reels_path(&self) -> (r: String)
        ensures
            r@ == reels_url(self@),
    {
        let mut postfix = self.page_fbid.clone();
        postfix.append("/video_reels");
        graph_path(self.version.as_str(), postfix.as_str())
    }

    fn check_path(&self, video_id: &str) -> (r: String)
        ensures
            r@ == check_url(self@, video_id@),
    {
        let mut postfix = video_id.to_owned();
        postfix.append("?fields=status&access_token=");
        postfix.append(self.access_token.as_str());
        graph_path(self.version.as_str(), postfix.as_str())
    }

    fn phase(&self, phase: Phase, video_id: &str) -> (r: PollConfig)
        ensures
            r@ == reel_phase(self@, phase, video_id@),
    {
        let path = self.check_path(video_id);
        config_of(phase, path.as_str(), self.max_checks)
    }

    fn upload(&self, upload_url: &str) -> (r: (Request, LogParams))
        ensures
            r.0@ == upload_request(self@, upload_url@),
            r.1@ == upload_record(self@, upload_url@),
    {
        let mut authorization = "OAuth ".to_owned();
        authorization.append(self.access_token.as_str());
        let mut headers: Vec<(String, String)> = Vec::new();
        headers.push(("Authorization".to_owned(), authorization));
        headers.push(("file_url".to_owned(), self.file_url.clone()));
        let request = Request {
            verb: Verb::Post,
            url: upload_url.to_owned(),
            headers,
            payload: Payload::Empty,
            channel: Channel::Long,
        };
        let params = [("file_url", self.file_url.as_str())];
        let record = LogParams::new(upload_url, &params);
        proof {
            assert(request@.headers =~= upload_request(self@, upload_url@).headers);
            assert(borrowed_pairs(params@) =~= seq![("file_url"@, self.file_url@)]);
        }
        (request, record)
    }

    fn start(&self) -> (r: (Request, LogParams))
        ensures
            r.0@ == form_request(reels_url(self@), start_fields(self@), Channel::Long),
            r.1@ == fresh_record(reels_url(self@), start_fields(self@)),
    {
        let path = self.reels_path();
        let params = [("access_token", self.access_token.as_str()), ("upload_phase", "start")];
        proof {
            assert(borrowed_pairs(params@) =~= start_fields(self@));
        }
        (
            Request::post_form(path.as_str(), &params, Channel::Long),
            LogParams::new(path.as_str(), &params),
        )
    }

    fn finish(&self, video_id: &str) -> (r: (Request, LogParams))
        ensures
            r.0@ == form_request(reels_url(self@), finish_fields(self@, video_id@), Channel::Long),
            r.1@ == fresh_record(reels_url(self@), finish_fields(self@, video_id@)),
    {
        let path = self.reels_path();
        let params = [
            ("access_token", self.access_token.as_str()),
            ("video_id", video_id),
            ("upload_phase", "finish"),
            ("video_state", "PUBLISHED"),
            ("description", self.description.as_str()),
        ];
        proof {
            assert(borrowed_pairs(params@) =~= finish_fields(self@, video_id@));
        }
        (
            Request::post_form(path.as_str(), &params, Channel::Long),
            LogParams::new(path.as_str(), &params),
        )
    }
}

impl ReelUpload {
    /// Begins the chain.
    pub fn begin(plan: ReelPlan) -> (r: Turn<ReelUpload, Json>)
        ensures
            r@ == reel_started(plan@),
    {
        let (request, record) = plan.start();
        let first = Executor::begin(0, request, record);
        let before: Vec<Action> = Vec::new();
        assert(actions_view(before@) =~= Seq::empty());
        Turn::send(
            and_then(before, Action::Observe(first.record)),
            first.request,
            ReelUpload { plan, stage: ReelStage::Start { call: first.executor } },
        )
    }

    fn enter_upload(plan: ReelPlan, before: Vec<Action>, doc: Json) -> (r: Turn<ReelUpload, Json>)
        ensures
            r@ == after_start(plan@, actions_view(before@), doc@),
    {
        let session = match (doc.text_of("upload_url"), doc.text_of("video_id")) {
            (Some(upload_url), Some(video_id)) => Some(
                (plan.upload(upload_url), video_id.to_owned()),
            ),
            _ => None,
        };
        match session {
            Some(((request, record), video_id)) => {
                let first = Executor::begin(0, request, record);
                Turn::send(
                    and_then(before, Action::Observe(first.record)),
                    first.request,
                    ReelUpload {
                        plan,
                        stage: ReelStage::Upload { call: first.executor, video_id },
                    },
                )
            },
            None => Turn::fail(before, FbapiError::UnExpected(doc)),
        }
    }

    fn enter_uploading(plan: ReelPlan, before: Vec<Action>, video_id: String, doc: Json) -> (r:
        Turn<ReelUpload, Json>)
        ensures
            r@ == after_upload(plan@, actions_view(before@), video_id@, doc@),
    {
        match doc.flag_of("success") {
            Some(true) => {
                let config = plan.phase(Phase::Uploading, video_id.as_str());
                match PollLoop::start(before, config) {
                    PollStart::Polling { poll, actions, request } => Turn::send(
                        actions,
                        request,
                        ReelUpload { plan, stage: ReelStage::UploadingPhase { poll, video_id } },
                    ),
                    PollStart::TimedOut { actions } => Turn::fail(
                        actions,
                        FbapiError::VideoTimeout,
                    ),
                }
            },
            _ => Turn::fail(before, FbapiError::UnExpected(doc)),
        }
    }

    fn enter_copyright(plan: ReelPlan, before: Vec<Action>, video_id: String) -> (r: Turn<
        ReelUpload,
        Json,
    >)
        ensures
            r@ == after_uploading(plan@, actions_view(before@), video_id@),
    {
        let config = plan.phase(Phase::Copyright, video_id.as_str());
        match PollLoop::start(before, config) {
            PollStart::Polling { poll, actions, request } => Turn::send(
                actions,
                request,
                ReelUpload { plan, stage: ReelStage::CopyrightPhase { poll, video_id } },
            ),
            PollStart::TimedOut { actions } => Turn::fail(actions, FbapiError::VideoTimeout),
        }
    }

    fn enter_finish(plan: ReelPlan, before: Vec<Action>, video_id: String) -> (r: Turn<
        ReelUpload,
        Json,
    >)
        ensures
            r@ == finish_turn(plan@, actions_view(before@), video_id@),
    {
        let (request, record) = plan.finish(video_id.as_str());
        let first = Executor::begin(0, request, record);
        Turn::send(
            and_then(before, Action::Observe(first.record)),
            first.request,
            ReelUpload { plan, stage: ReelStage::Finish { call: first.executor, video_id } },
        )
    }

    fn enter_thumbnail(plan: ReelPlan, before: Vec<Action>, video_id: String) -> (r: Turn<
        ReelUpload,
        Json,
    >)
        ensures
            r@ == after_copyright(plan@, actions_view(before@), video_id@),
    {
        if plan.thumb {
            let (request, record) = thumbnail_call(
                plan.version.as_str(),
                plan.access_token.as_str(),
                video_id.as_str(),
            );
            let (form, first) = FormCall::begin(record);
            Turn::send(
                and_then(before, Action::Observe(first)),
                request,
                ReelUpload { plan, stage: ReelStage::Thumbnail { form, video_id } },
            )
        } else {
            Self::enter_finish(plan, before, video_id)
        }
    }

    fn enter_processing(plan: ReelPlan, before: Vec<Action>, video_id: String, doc: Json) -> (r:
        Turn<ReelUpload, Json>)
        ensures
            r@ == after_finish(plan@, actions_view(before@), video_id@, doc@),
    {
        let published = match doc.flag_of("success") {
            Some(true) => doc.text_of("post_id").is_some(),
            _ => false,
        };
        if published {
            let config = plan.phase(Phase::Processing, video_id.as_str());
            match PollLoop::start(before, config) {
                PollStart::Polling { poll, actions, request } => Turn::send(
                    actions,
                    request,
                    ReelUpload {
                        plan,
                        stage: ReelStage::ProcessingPhase { poll, video_id, finish_res: doc },
                    },
                ),
                PollStart::TimedOut { actions } => Turn::fail(actions, FbapiError::VideoTimeout),
            }
        } else {
            Turn::fail(before, FbapiError::UnExpected(doc))
        }
    }

    fn enter_publishing(
        plan: ReelPlan,
        before: Vec<Action>,
        video_id: String,
        finish_res: Json,
    ) -> (r: Turn<ReelUpload, Json>)
        ensures
            r@ == after_processing(
                plan@,
                actions_view(before@),
                video_id@,
                finish_res@,
            ),
    {
        let config = plan.phase(Phase::Publishing, video_id.as_str());
        match PollLoop::start(before, config) {
            PollStart::Polling { poll, actions, request } => Turn::send(
                actions,
                request,
                ReelUpload { plan, stage: ReelStage::PublishingPhase { poll, finish_res } },
            ),
            PollStart::TimedOut { actions } => Turn::fail(actions, FbapiError::VideoTimeout),
        }
    }

    /// Takes the reply to the request in flight.
    pub fn advance(self, reply: Result<Json, FbapiError>) -> (r: Turn<ReelUpload, Json>)
        ensures
            r@ == reel_advanced(self@, reply_view(reply)),
    {
        let ReelUpload { plan, stage } = self;
        match stage {
            ReelStage::Start { call } => match call.settle(reply) {
                Settled::Again { executor, record, request } => Turn::send(
                    observe(Some(record)),
                    request,
                    ReelUpload { plan, stage: ReelStage::Start { call: executor } },
                ),
                Settled::Finished(Ended { notice, result: Err(e) }) => Turn::fail(
                    observe(notice),
                    e,
                ),
                Settled::Finished(Ended { notice, result: Ok(doc) }) => Self::enter_upload(
                    plan,
                    observe(notice),
                    doc,
                ),
            },
            ReelStage::Upload { call, video_id } => match call.settle(reply) {
                Settled::Again { executor, record, request } => Turn::send(
                    observe(Some(record)),
                    request,
                    ReelUpload { plan, stage: ReelStage::Upload { call: executor, video_id } },
                ),
                Settled::Finished(Ended { notice, result: Err(e) }) => Turn::fail(
                    observe(notice),
                    e,
                ),
                Settled::Finished(Ended { notice, result: Ok(doc) }) => Self::enter_uploading(
                    plan,
                    observe(notice),
                    video_id,
                    doc,
                ),
            },
            ReelStage::UploadingPhase { poll, video_id } => match poll.absorb(reply) {
                PollStep::Continue { poll, actions, request } => Turn::send(
                    actions,
                    request,
                    ReelUpload { plan, stage: ReelStage::UploadingPhase { poll, video_id } },
                ),
                PollStep::Failed { actions, error } => Turn::fail(actions, error),
                PollStep::Succeeded { actions } => Self::enter_copyright(plan, actions, video_id),
            },
            ReelStage::CopyrightPhase { poll, video_id } => match poll.absorb(reply) {
                PollStep::Continue { poll, actions, request } => Turn::send(
                    actions,
                    request,
                    ReelUpload { plan, stage: ReelStage::CopyrightPhase { poll, video_id } },
                ),
                PollStep::Failed { actions, error } => Turn::fail(actions, error),
                PollStep::Succeeded { actions } => Self::enter_thumbnail(plan, actions, video_id),
            },
            ReelStage::Thumbnail { form, video_id } => match form.settle(reply) {
                Ended { notice, result: Err(e) } => Turn::fail(observe(notice), e),
                Ended { notice, result: Ok(_) } => Self::enter_finish(
                    plan,
                    observe(notice),
                    video_id,
                ),
            },
            ReelStage::Finish { call, video_id } => match call.settle(reply) {
                Settled::Again { executor, record, request } => Turn::send(
                    observe(Some(record)),
                    request,
                    ReelUpload { plan, stage: ReelStage::Finish { call: executor, video_id } },
                ),
                Settled::Finished(Ended { notice, result: Err(e) }) => Turn::fail(
                    observe(notice),
                    e,
                ),
                Settled::Finished(Ended { notice, result: Ok(doc) }) => Self::enter_processing(
                    plan,
                    observe(notice),
                    video_id,
                    doc,
                ),
            },
            ReelStage::ProcessingPhase { poll, video_id, finish_res } => match poll.absorb(reply) {
                PollStep::Continue { poll, actions, request } => Turn::send(
                    actions,
                    request,
                    ReelUpload {
                        plan,
                        stage: ReelStage::ProcessingPhase { poll, video_id, finish_res },
                    },
                ),
                PollStep::Failed { actions, error } => Turn::fail(actions, error),
                PollStep::Succeeded { actions } => Self::enter_publishing(
                    plan,
                    actions,
                    video_id,
                    finish_res,
                ),
            },
            ReelStage::PublishingPhase { poll, finish_res } => match poll.absorb(reply) {
                PollStep::Continue { poll, actions, request } => Turn::send(
                    actions,
                    request,
                    ReelUpload { plan, stage: ReelStage::PublishingPhase { poll, finish_res } },
                ),
                PollStep::Failed { actions, error } => Turn::fail(actions, error),
                PollStep::Succeeded { actions } => Turn::finish(actions, finish_res),
            },
        }
    }
}

impl Fbapi {
    /// Publishes the video at `file_url` as a reel of a page, with a
    /// description, and with a thumbnail where `thumb` says that the caller
    /// holds one. Each phase of the platform's work has `check_retry_count`
    /// polls.
    pub fn post_video_reel(
        &self,
        access_token: &str,
        page_fbid: &str,
        file_url: &str,
        description: &str,
        thumb: bool,
        check_retry_count: usize,
    ) -> (r: Turn<ReelUpload, Json>)
        ensures
            r@ == reel_started(
                ReelPlanView {
                    version: self@.version,
                    access_token: access_token@,
                    page_fbid: page_fbid@,
                    file_url: file_url@,
                    description: description@,
                    thumb,
                    max_checks: check_retry_count,
                },
            ),
    {
        ReelUpload::begin(
            ReelPlan {
                version: self.version().to_owned(),
                access_token: access_token.to_owned(),
                page_fbid: page_fbid.to_owned(),
                file_url: file_url.to_owned(),
                description: description.to_owned(),
                thumb,
                max_checks: check_retry_count,
            },
        )
    }
}

/// A copyright check that is complete and has found a match fails the
/// chain with the copyright violation, though its status alone is one of
/// success: nothing is sent after it, and the violation is the result.
pub proof fn lemma_copyright_match_fails(
    plan: ReelPlanView,
    poll: PollLoopView,
    video_id: Seq<char>,
    doc: JsonValue,
)
    requires
        poll.config == reel_phase(plan, Phase::Copyright, video_id),
        !doc.reports_error(),
        text_at(doc, phase_path(Phase::Copyright, "status"@)) == Some("complete"@),
        bool_at(doc, phase_path(Phase::Copyright, "matches_found"@)) == Some(true),
    ensures
        classify(poll.config.classes, "complete"@) == StatusClass::Success,
        reel_advanced(
            ReelUploadView { plan, stage: ReelStageView::CopyrightPhase { poll, video_id } },
            Ok(doc),
        ).next == NextView::<ReelUploadView, JsonValue>::Done(Err(ErrorView::CopyRight)),
{
    assert(phase_classes(Phase::Copyright)[0].0 == "complete"@);
}

/// The stage in which a phase is watched.
pub open spec fn phase_stage(
    phase: Phase,
    poll: PollLoopView,
    video_id: Seq<char>,
    finish_res: JsonValue,
) -> ReelStageView {
    match phase {
        Phase::Uploading => ReelStageView::UploadingPhase { poll, video_id },
        Phase::Copyright => ReelStageView::CopyrightPhase { poll, video_id },
        Phase::Processing => ReelStageView::ProcessingPhase { poll, video_id, finish_res },
        Phase::Publishing => ReelStageView::PublishingPhase { poll, finish_res },
    }
}

/// In every phase the statuses `error` and `failed` mean failure.
pub proof fn lemma_error_and_failed_mean_failure(phase: Phase)
    ensures
        classify(phase_classes(phase), "error"@) == StatusClass::Failure,
        classify(phase_classes(phase), "failed"@) == StatusClass::Failure,
{
    reveal_strlit("complete");
    reveal_strlit("in_progress");
    reveal_strlit("not_started");
    reveal_strlit("error");
    reveal_strlit("failed");
    reveal_with_fuel(classify, 6);
    let classes = phase_classes(phase);
    assert("error"@ != "complete"@ && "error"@ != "in_progress"@ && "error"@ != "not_started"@) by {
        assert("error"@[0] == 'e');
        assert("complete"@[0] == 'c');
        assert("in_progress"@[0] == 'i');
        assert("not_started"@[0] == 'n');
    }
    assert("failed"@ != "complete"@ && "failed"@ != "in_progress"@ && "failed"@ != "not_started"@
        && "failed"@ != "error"@) by {
        assert("failed"@[0] == 'f');
        assert("complete"@[0] == 'c');
        assert("in_progress"@[0] == 'i');
        assert("not_started"@[0] == 'n');
        assert("error"@[0] == 'e');
    }
}

/// A phase whose status means failure ends the chain at once: the status
/// document is observed, no request follows, and the result is the phase's
/// failure, a terminal failure of the poll that carries the phase's name
/// and the status document.
pub proof fn lemma_failed_phase_ends_chain(
    plan: ReelPlanView,
    phase: Phase,
    poll: PollLoopView,
    video_id: Seq<char>,
    finish_res: JsonValue,
    doc: JsonValue,
    token: Seq<char>,
)
    requires
        poll.config == reel_phase(plan, phase, video_id),
        !doc.reports_error(),
        text_at(doc, phase_path(phase, "status"@)) == Some(token),
        classify(phase_classes(phase), token) == StatusClass::Failure,
    ensures
        reel_advanced(
            ReelUploadView { plan, stage: phase_stage(phase, poll, video_id, finish_res) },
            Ok(doc),
        ) == done_turn::<ReelUploadView, JsonValue>(
            seq![
                ActionView::Observe(poll.executor.base.attempt(poll.executor.count).answered(doc)),
            ],
            Err(ErrorView::PhaseError(phase_report(phase_name(phase), doc))),
        ),
        ErrorView::PhaseError(phase_report(phase_name(phase), doc)).kind()
            == ErrorKind::PollTerminalFailure,
{
    lemma_failure_status_ends_loop(poll, doc, token);
}

} // verus!
