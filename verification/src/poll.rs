//! The poll loop: a status is fetched again and again until it is terminal
//! or the budget of polls is used up.

use crate::error::{reply_view, ErrorKind, ErrorView, FbapiError};
use crate::exchange::{
    actions_view, and_then, fresh_record, observe, observed, optional_record, plain_request, Action,
    ActionView, LogParams, LogParamsView, Request, RequestView, Verb,
};
use crate::json::{member_views, push_member, Json, JsonValue};
use crate::retry::{
    settled, started, Ended, EndedView, Executor, ExecutorView, Reply, Settled, SettledView,
};
use crate::text::{owned_texts, same_text};
use vstd::prelude::*;

verus! {

/// The three classes of a status token.
#[derive(Clone, Copy, Debug, PartialEq, Eq, Structural)]
pub enum StatusClass {
    /// Terminal: the work is done.
    Success,
    /// Not terminal: ask again later.
    Transient,
    /// Terminal: the work has failed.
    Failure,
}

/// How a poll loop reports a status that is missing or that means failure.
#[derive(Debug)]
pub enum FailureRule {
    /// A missing status is an unexpected document; a failure is
    /// [`FbapiError::VideoError`].
    Video,
    /// A missing status is an unexpected document; a failure is
    /// [`FbapiError::IgVideoError`] with the status document.
    Container,
    /// Both carry a document made of the phase's name and the status
    /// document: a missing status as an unexpected document, a failure as
    /// [`FbapiError::PhaseError`].
    Phase(String),
}

/// The mathematical value of a [`FailureRule`].
pub enum FailureRuleView {
    Video,
    Container,
    Phase(Seq<char>),
}

impl View for FailureRule {
    type V = FailureRuleView;

    open spec fn view(&self) -> FailureRuleView {
        match self {
            FailureRule::Video => FailureRuleView::Video,
            FailureRule::Container => FailureRuleView::Container,
            FailureRule::Phase(name) => FailureRuleView::Phase(name@),
        }
    }
}

/// What a poll loop looks at besides the status token.
#[derive(Debug)]
pub enum Guard {
    /// Nothing.
    Nothing,
    /// With a status of success: the truth value at the path. Where it is
    /// `true`, the loop fails with [`FbapiError::CopyRight`].
    Matches(Vec<String>),
    /// With a transient status: the value at the path. Where it is an
    /// object, the loop fails as for a status of failure.
    ErrorObject(Vec<String>),
}

/// The mathematical value of a [`Guard`].
pub enum GuardView {
    Nothing,
    Matches(Seq<Seq<char>>),
    ErrorObject(Seq<Seq<char>>),
}

impl View for Guard {
    type V = GuardView;

    open spec fn view(&self) -> GuardView {
        match self {
            Guard::Nothing => GuardView::Nothing,
            Guard::Matches(path) => GuardView::Matches(owned_texts(path@)),
            Guard::ErrorObject(path) => GuardView::ErrorObject(owned_texts(path@)),
        }
    }
}

/// One poll loop: what to fetch, where the status token is, what each token
/// means, how long to sleep between two polls, how many polls there are, and
/// how many attempts each poll has.
#[derive(Debug)]
pub struct PollConfig {
    pub path: String,
    pub field_path: Vec<String>,
    pub classes: Vec<(String, StatusClass)>,
    pub interval: usize,
    pub max_iterations: usize,
    pub retry_per_poll: usize,
    pub failure: FailureRule,
    pub guard: Guard,
}

/// The mathematical value of a [`PollConfig`].
pub struct PollConfigView {
    pub path: Seq<char>,
    pub field_path: Seq<Seq<char>>,
    pub classes: Seq<(Seq<char>, StatusClass)>,
    pub interval: usize,
    pub max_iterations: usize,
    pub retry_per_poll: usize,
    pub failure: FailureRuleView,
    pub guard: GuardView,
}

/// The view of a classification.
pub open spec fn classes_view(classes: Seq<(String, StatusClass)>) -> Seq<
    (Seq<char>, StatusClass),
> {
    Seq::new(classes.len(), |i: int| (classes[i].0@, classes[i].1))
}

impl View for PollConfig {
    type V = PollConfigView;

    open spec fn view(&self) -> PollConfigView {
        PollConfigView {
            path: self.path@,
            field_path: owned_texts(self.field_path@),
            classes: classes_view(self.classes@),
            interval: self.interval,
            max_iterations: self.max_iterations,
            retry_per_poll: self.retry_per_poll,
            failure: self.failure@,
            guard: self.guard@,
        }
    }
}

/// The class of a token: that of the first entry for it, and failure for a
/// token without an entry. An unknown token is never taken for a transient
/// one, so that a loop cannot go on for want of knowing a word.
pub open spec fn classify(classes: Seq<(Seq<char>, StatusClass)>, token: Seq<char>) -> StatusClass
    decreases classes.len(),
{
    if classes.len() == 0 {
        StatusClass::Failure
    } else if classes[0].0 == token {
        classes[0].1
    } else {
        classify(classes.drop_first(), token)
    }
}

/// Whether a token has an entry in a classification.
pub open spec fn is_known(classes: Seq<(Seq<char>, StatusClass)>, token: Seq<char>) -> bool {
    exists|i: int| 0 <= i < classes.len() && #[trigger] classes[i].0 == token
}

/// The document that a phase's failure carries: the phase's name as
/// `error`, the status document as `status`.
pub open spec fn phase_report(name: Seq<char>, doc: JsonValue) -> JsonValue {
    JsonValue::Object(seq![("error"@, JsonValue::String(name)), ("status"@, doc)])
}

/// The failure for a status document without a status token.
pub open spec fn absent_error(rule: FailureRuleView, doc: JsonValue) -> ErrorView {
    match rule {
        FailureRuleView::Video => ErrorView::UnExpected(doc),
        FailureRuleView::Container => ErrorView::UnExpected(doc),
        FailureRuleView::Phase(name) => ErrorView::UnExpected(phase_report(name, doc)),
    }
}

/// The failure for a status document whose status means failure.
pub open spec fn failure_error(rule: FailureRuleView, doc: JsonValue) -> ErrorView {
    match rule {
        FailureRuleView::Video => ErrorView::VideoError,
        FailureRuleView::Container => ErrorView::IgVideoError(doc),
        FailureRuleView::Phase(name) => ErrorView::PhaseError(phase_report(name, doc)),
    }
}

/// The text at a path of a document, where there is one.
pub open spec fn text_at(doc: JsonValue, path: Seq<Seq<char>>) -> Option<Seq<char>> {
    match doc.at(path) {
        Some(value) => value.as_str(),
        None => None,
    }
}

/// The truth value at a path of a document, where there is one.
pub open spec fn bool_at(doc: JsonValue, path: Seq<Seq<char>>) -> Option<bool> {
    match doc.at(path) {
        Some(value) => value.as_bool(),
        None => None,
    }
}

/// Whether the value at a path of a document is an object.
pub open spec fn object_at(doc: JsonValue, path: Seq<Seq<char>>) -> bool {
    doc.at(path) matches Some(value) && value is Object
}

/// What a status document means to a poll loop.
pub enum Verdict {
    Success,
    Transient,
    Fail(FbapiError),
}

/// The mathematical value of a [`Verdict`].
pub enum VerdictView {
    Success,
    Transient,
    Fail(ErrorView),
}

impl View for Verdict {
    type V = VerdictView;

    open spec fn view(&self) -> VerdictView {
        match self {
            Verdict::Success => VerdictView::Success,
            Verdict::Transient => VerdictView::Transient,
            Verdict::Fail(e) => VerdictView::Fail(e@),
        }
    }
}

/// What a status document means.
///
/// Without a text at the field path the document is of an unexpected shape.
/// Else the class of the token decides: success, unless the guard finds a
/// match; transient, unless the guard finds an error object; failure.
pub open spec fn verdict(config: PollConfigView, doc: JsonValue) -> VerdictView {
    match text_at(doc, config.field_path) {
        None => VerdictView::Fail(absent_error(config.failure, doc)),
        Some(token) => match classify(config.classes, token) {
            StatusClass::Success => if config.guard matches GuardView::Matches(path) && bool_at(
                doc,
                path,
            ) == Some(true) {
                VerdictView::Fail(ErrorView::CopyRight)
            } else {
                VerdictView::Success
            },
            StatusClass::Transient => if config.guard matches GuardView::ErrorObject(path)
                && object_at(doc, path) {
                VerdictView::Fail(failure_error(config.failure, doc))
            } else {
                VerdictView::Transient
            },
            StatusClass::Failure => VerdictView::Fail(failure_error(config.failure, doc)),
        },
    }
}

/// The class of a token.
pub fn class_of(classes: &Vec<(String, StatusClass)>, token: &str) -> (r: StatusClass)
    ensures
        r == classify(classes_view(classes@), token@),
{
    let ghost all = classes_view(classes@);
    let mut i: usize = 0;
    assert(all.skip(0) =~= all);
    while i < classes.len()
        invariant
            i <= classes.len(),
            all == classes_view(classes@),
            classify(all, token@) == classify(all.skip(i as int), token@),
        decreases classes.len() - i,
    {
        proof {
            let rest = all.skip(i as int);
            assert(rest[0] == all[i as int]);
            assert(rest.drop_first() =~= all.skip(i + 1));
        }
        if same_text(classes[i].0.as_str(), token) {
            return classes[i].1;
        }
        i += 1;
    }
    StatusClass::Failure
}

fn report(name: &String, doc: Json) -> (r: Json)
    ensures
        r@ == phase_report(name@, doc@),
{
    let mut members: Vec<(String, Json)> = Vec::new();
    assert(member_views(members@) =~= Seq::empty());
    push_member(&mut members, "error", Json::String(name.clone()));
    push_member(&mut members, "status", doc);
    assert(member_views(members@) =~= phase_report(name@, doc@)->Object_0);
    Json::object(members)
}

fn absent(rule: &FailureRule, doc: Json) -> (r: FbapiError)
    ensures
        r@ == absent_error(rule@, doc@),
{
    match rule {
        FailureRule::Video => FbapiError::UnExpected(doc),
        FailureRule::Container => FbapiError::UnExpected(doc),
        FailureRule::Phase(name) => FbapiError::UnExpected(report(name, doc)),
    }
}

fn failure(rule: &FailureRule, doc: Json) -> (r: FbapiError)
    ensures
        r@ == failure_error(rule@, doc@),
{
    match rule {
        FailureRule::Video => FbapiError::VideoError,
        FailureRule::Container => FbapiError::IgVideoError(doc),
        FailureRule::Phase(name) => FbapiError::PhaseError(report(name, doc)),
    }
}

/// The class of the status token of a document, where it has one.
fn status_class(config: &PollConfig, doc: &Json) -> (r: Option<StatusClass>)
    ensures
        r == match text_at(doc@, config@.field_path) {
            Some(token) => Some(classify(config@.classes, token)),
            None => None,
        },
{
    match doc.at(config.field_path.as_slice()) {
        Some(value) => match value.as_str() {
            Some(token) => Some(class_of(&config.classes, token)),
            None => None,
        },
        None => None,
    }
}

fn finds_match(guard: &Guard, doc: &Json) -> (r: bool)
    ensures
        r == (guard@ matches GuardView::Matches(path) && bool_at(doc@, path) == Some(true)),
{
    match guard {
        Guard::Matches(path) => match doc.at(path.as_slice()) {
            Some(value) => match value.as_bool() {
                Some(b) => b,
                None => false,
            },
            None => false,
        },
        _ => false,
    }
}

fn finds_error_object(guard: &Guard, doc: &Json) -> (r: bool)
    ensures
        r == (guard@ matches GuardView::ErrorObject(path) && object_at(doc@, path)),
{
    match guard {
        Guard::ErrorObject(path) => match doc.at(path.as_slice()) {
            Some(value) => value.is_object(),
            None => false,
        },
        _ => false,
    }
}

/// Judges a status document.
pub fn judge(config: &PollConfig, doc: Json) -> (r: Verdict)
    ensures
        r@ == verdict(config@, doc@),
{
    match status_class(config, &doc) {
        None => Verdict::Fail(absent(&config.failure, doc)),
        Some(StatusClass::Success) => {
            if finds_match(&config.guard, &doc) {
                Verdict::Fail(FbapiError::CopyRight)
            } else {
                Verdict::Success
            }
        },
        Some(StatusClass::Transient) => {
            if finds_error_object(&config.guard, &doc) {
                Verdict::Fail(failure(&config.failure, doc))
            } else {
                Verdict::Transient
            }
        },
        Some(StatusClass::Failure) => Verdict::Fail(failure(&config.failure, doc)),
    }
}

/// A poll loop with one poll in flight.
pub struct PollLoop {
    config: PollConfig,
    polls: usize,
    executor: Executor,
}

/// The mathematical value of a [`PollLoop`].
pub struct PollLoopView {
    pub config: PollConfigView,
    /// How many polls were begun, the one in flight among them.
    pub polls: usize,
    /// The call of the poll in flight.
    pub executor: ExecutorView,
}

impl View for PollLoop {
    type V = PollLoopView;

    closed spec fn view(&self) -> PollLoopView {
        PollLoopView { config: self.config@, polls: self.polls, executor: self.executor@ }
    }
}

/// What a poll loop comes to with a reply.
pub enum PollStep {
    /// The loop goes on: carry out the actions, send the request.
    Continue { poll: PollLoop, actions: Vec<Action>, request: Request },
    /// The status is one of success.
    Succeeded { actions: Vec<Action> },
    /// The loop has failed.
    Failed { actions: Vec<Action>, error: FbapiError },
}

/// The mathematical value of a [`PollStep`].
pub enum PollStepView {
    Continue { poll: PollLoopView, actions: Seq<ActionView>, request: RequestView },
    Succeeded { actions: Seq<ActionView> },
    Failed { actions: Seq<ActionView>, error: ErrorView },
}

impl View for PollStep {
    type V = PollStepView;

    open spec fn view(&self) -> PollStepView {
        match self {
            PollStep::Continue { poll, actions, request } => PollStepView::Continue {
                poll: poll@,
                actions: actions_view(actions@),
                request: request@,
            },
            PollStep::Succeeded { actions } => PollStepView::Succeeded {
                actions: actions_view(actions@),
            },
            PollStep::Failed { actions, error } => PollStepView::Failed {
                actions: actions_view(actions@),
                error: error@,
            },
        }
    }
}

/// How a poll loop begins.
pub enum PollStart {
    /// The first poll is to be sent.
    Polling { poll: PollLoop, actions: Vec<Action>, request: Request },
    /// There is no poll to make: the loop has timed out.
    TimedOut { actions: Vec<Action> },
}

/// The mathematical value of a [`PollStart`].
pub enum PollStartView {
    Polling { poll: PollLoopView, actions: Seq<ActionView>, request: RequestView },
    TimedOut { actions: Seq<ActionView> },
}

impl View for PollStart {
    type V = PollStartView;

    open spec fn view(&self) -> PollStartView {
        match self {
            PollStart::Polling { poll, actions, request } => PollStartView::Polling {
                poll: poll@,
                actions: actions_view(actions@),
                request: request@,
            },
            PollStart::TimedOut { actions } => PollStartView::TimedOut {
                actions: actions_view(actions@),
            },
        }
    }
}

/// The request of a poll.
pub open spec fn poll_request(config: PollConfigView) -> RequestView {
    plain_request(Verb::Get, config.path)
}

/// The loop with its poll number `polls` in flight.
pub open spec fn polling(config: PollConfigView, polls: usize) -> PollLoopView {
    PollLoopView {
        config,
        polls,
        executor: started(
            config.retry_per_poll,
            poll_request(config),
            fresh_record(config.path, Seq::empty()),
        ),
    }
}

/// How a poll loop begins after the actions `before`: without a poll to
/// make it has timed out; else the first poll is observed and sent.
pub open spec fn poll_started(before: Seq<ActionView>, config: PollConfigView) -> PollStartView {
    if config.max_iterations == 0 {
        PollStartView::TimedOut { actions: before }
    } else {
        PollStartView::Polling {
            poll: polling(config, 1),
            actions: before + seq![
                ActionView::Observe(fresh_record(config.path, Seq::empty())),
            ],
            request: poll_request(config),
        }
    }
}

/// What a poll loop comes to with the reply to the request in flight.
///
/// The executor takes the reply first: it may ask for another attempt of the
/// same poll, or end the poll with a failure, which ends the loop. A poll
/// that ends with a status document is observed, and the document is judged:
/// success and failure end the loop at once; with a transient status the
/// loop sleeps for its interval and then polls again, or has timed out where
/// its polls are used up.
pub open spec fn poll_absorbed(poll: PollLoopView, reply: Reply) -> PollStepView {
    match settled(poll.executor, reply) {
        SettledView::Again { executor, record, request } => PollStepView::Continue {
            poll: PollLoopView { executor, ..poll },
            actions: seq![ActionView::Observe(record)],
            request,
        },
        SettledView::Finished(EndedView { notice, result: Err(e) }) => PollStepView::Failed {
            actions: observed(notice),
            error: e,
        },
        SettledView::Finished(EndedView { notice, result: Ok(doc) }) => match verdict(
            poll.config,
            doc,
        ) {
            VerdictView::Success => PollStepView::Succeeded { actions: observed(notice) },
            VerdictView::Fail(e) => PollStepView::Failed { actions: observed(notice), error: e },
            VerdictView::Transient => if poll.polls < poll.config.max_iterations {
                PollStepView::Continue {
                    poll: polling(poll.config, (poll.polls + 1) as usize),
                    actions: observed(notice) + seq![
                        ActionView::Sleep(poll.config.interval),
                        ActionView::Observe(fresh_record(poll.config.path, Seq::empty())),
                    ],
                    request: poll_request(poll.config),
                }
            } else {
                PollStepView::Failed {
                    actions: observed(notice) + seq![ActionView::Sleep(poll.config.interval)],
                    error: ErrorView::VideoTimeout,
                }
            },
        },
    }
}

impl PollLoop {
    /// The loop with its poll number `polls` in flight, the actions up to
    /// the observation of that poll, and the poll's request.
    fn poll(config: PollConfig, polls: usize, before: Vec<Action>) -> (r: (
        PollLoop,
        Vec<Action>,
        Request,
    ))
        ensures
            r.0@ == polling(config@, polls),
            actions_view(r.1@) == actions_view(before@) + seq![
                ActionView::Observe(fresh_record(config@.path, Seq::empty())),
            ],
            r.2@ == poll_request(config@),
    {
        let request = Request::get(config.path.as_str());
        let base = LogParams::bare(config.path.as_str());
        let first = Executor::begin(config.retry_per_poll, request, base);
        let actions = and_then(before, Action::Observe(first.record));
        (PollLoop { config, polls, executor: first.executor }, actions, first.request)
    }

    /// Begins a poll loop after the actions `before`.
    pub fn start(before: Vec<Action>, config: PollConfig) -> (r: PollStart)
        ensures
            r@ == poll_started(actions_view(before@), config@),
    {
        if config.max_iterations == 0 {
            PollStart::TimedOut { actions: before }
        } else {
            let (poll, actions, request) = Self::poll(config, 1, before);
            PollStart::Polling { poll, actions, request }
        }
    }

    /// Takes the reply to the request in flight.
    pub fn absorb(self, reply: Result<Json, FbapiError>) -> (r: PollStep)
        ensures
            r@ == poll_absorbed(self@, reply_view(reply)),
    {
        let PollLoop { config, polls, executor } = self;
        match executor.settle(reply) {
            Settled::Again { executor, record, request } => {
                let actions = observe(Some(record));
                PollStep::Continue { poll: PollLoop { config, polls, executor }, actions, request }
            },
            Settled::Finished(Ended { notice, result: Err(e) }) => PollStep::Failed {
                actions: observe(notice),
                error: e,
            },
            Settled::Finished(Ended { notice, result: Ok(doc) }) => {
                let actions = observe(notice);
                match judge(&config, doc) {
                    Verdict::Success => PollStep::Succeeded { actions },
                    Verdict::Fail(e) => PollStep::Failed { actions, error: e },
                    Verdict::Transient => {
                        let actions = and_then(actions, Action::Sleep(config.interval));
                        if polls < config.max_iterations {
                            let (poll, actions, request) = Self::poll(config, polls + 1, actions);
                            proof {
                                let a = observed(optional_record(notice));
                                let s = ActionView::Sleep(config@.interval);
                                let o = ActionView::Observe(
                                    fresh_record(config@.path, Seq::empty()),
                                );
                                assert((a + seq![s]) + seq![o] =~= a + seq![s, o]);
                            }
                            PollStep::Continue { poll, actions, request }
                        } else {
                            PollStep::Failed { actions, error: FbapiError::VideoTimeout }
                        }
                    },
                }
            },
        }
    }
}

/// Appends an entry to a classification.
pub fn class_entry(out: &mut Vec<(String, StatusClass)>, token: &str, class: StatusClass)
    ensures
        classes_view(final(out)@) == classes_view(old(out)@) + seq![(token@, class)],
{
    out.push((token.to_owned(), class));
    assert(classes_view(out@) =~= classes_view(old(out)@) + seq![(token@, class)]);
}

/// A loop never begins more polls than its budget has: where it goes on,
/// it goes on with the same configuration, and either with another attempt
/// of the same poll or, within the budget, with the next poll.
pub proof fn lemma_polls_within_budget(poll: PollLoopView, reply: Reply)
    requires
        poll.polls <= poll.config.max_iterations,
    ensures
        poll_absorbed(poll, reply) matches PollStepView::Continue { poll: next, .. } ==> {
            &&& next.config == poll.config
            &&& next.polls <= poll.config.max_iterations
            &&& next.polls == poll.polls || next.polls == poll.polls + 1
        },
{
}

/// A token without an entry in the classification is one of failure.
pub proof fn lemma_unknown_token_is_failure(
    classes: Seq<(Seq<char>, StatusClass)>,
    token: Seq<char>,
)
    requires
        !is_known(classes, token),
    ensures
        classify(classes, token) == StatusClass::Failure,
    decreases classes.len(),
{
    if classes.len() > 0 {
        assert(classes[0].0 != token);
        assert forall|i: int| 0 <= i < classes.drop_first().len() implies classes.drop_first()[i].0
            != token by {
            assert(classes.drop_first()[i] == classes[i + 1]);
        }
        lemma_unknown_token_is_failure(classes.drop_first(), token);
    }
}

/// Under every rule, a status of failure is reported as a terminal failure
/// of the poll, and a missing status as a document of an unexpected shape.
pub proof fn lemma_kinds_of_poll_failures(rule: FailureRuleView, doc: JsonValue)
    ensures
        failure_error(rule, doc).kind() == ErrorKind::PollTerminalFailure,
        absent_error(rule, doc).kind() == ErrorKind::UnexpectedShape,
{
}

/// A poll whose status token means failure ends the loop at once: the
/// status document is observed, nothing sleeps, no request follows, and the
/// failure is the terminal failure that the loop's rule gives for the
/// status document.
pub proof fn lemma_failure_status_ends_loop(poll: PollLoopView, doc: JsonValue, token: Seq<char>)
    requires
        !doc.reports_error(),
        text_at(doc, poll.config.field_path) == Some(token),
        classify(poll.config.classes, token) == StatusClass::Failure,
    ensures
        poll_absorbed(poll, Ok(doc)) == (PollStepView::Failed {
            actions: seq![
                ActionView::Observe(poll.executor.base.attempt(poll.executor.count).answered(doc)),
            ],
            error: failure_error(poll.config.failure, doc),
        }),
        failure_error(poll.config.failure, doc).kind() == ErrorKind::PollTerminalFailure,
{
}

/// A poll whose status token the classification does not know ends the loop
/// at once, as one whose token means failure does: with the terminal
/// failure that the loop's rule gives, and without another poll.
pub proof fn lemma_unknown_token_ends_loop(poll: PollLoopView, doc: JsonValue, token: Seq<char>)
    requires
        !doc.reports_error(),
        text_at(doc, poll.config.field_path) == Some(token),
        !is_known(poll.config.classes, token),
    ensures
        poll_absorbed(poll, Ok(doc)) == (PollStepView::Failed {
            actions: seq![
                ActionView::Observe(poll.executor.base.attempt(poll.executor.count).answered(doc)),
            ],
            error: failure_error(poll.config.failure, doc),
        }),
        failure_error(poll.config.failure, doc).kind() == ErrorKind::PollTerminalFailure,
{
    lemma_unknown_token_is_failure(poll.config.classes, token);
    lemma_failure_status_ends_loop(poll, doc, token);
}

/// What a loop has come to after some replies: how many requests were
/// sent, how often it slept, and the result if the loop has ended.
pub struct PollRun {
    pub sends: nat,
    pub sleeps: nat,
    pub result: Option<Result<(), ErrorView>>,
}

/// How many of the actions are sleeps.
pub open spec fn sleeps_in(actions: Seq<ActionView>) -> nat
    decreases actions.len(),
{
    if actions.len() == 0 {
        0
    } else if actions.last() is Sleep {
        sleeps_in(actions.drop_last()) + 1
    } else {
        sleeps_in(actions.drop_last())
    }
}

/// The course of a loop whose request in flight, and those after it, are
/// answered by `replies` in their order.
pub open spec fn poll_run(poll: PollLoopView, replies: Seq<Reply>) -> PollRun
    decreases replies.len(),
{
    if replies.len() == 0 {
        PollRun { sends: 1, sleeps: 0, result: None }
    } else {
        match poll_absorbed(poll, replies[0]) {
            PollStepView::Continue { poll: next, actions, .. } => {
                let rest = poll_run(next, replies.drop_first());
                PollRun {
                    sends: rest.sends + 1,
                    sleeps: rest.sleeps + sleeps_in(actions),
                    result: rest.result,
                }
            },
            PollStepView::Succeeded { actions } => PollRun {
                sends: 1,
                sleeps: sleeps_in(actions),
                result: Some(Ok(())),
            },
            PollStepView::Failed { actions, error } => PollRun {
                sends: 1,
                sleeps: sleeps_in(actions),
                result: Some(Err(error)),
            },
        }
    }
}

/// Whether a reply is a status document of the given meaning.
pub open spec fn means(config: PollConfigView, reply: Reply, meaning: VerdictView) -> bool {
    reply matches Ok(doc) && !doc.reports_error() && verdict(config, doc) == meaning
}

/// The observation of a record is no sleep.
proof fn lemma_observed_has_no_sleep(notice: Option<LogParamsView>)
    ensures
        sleeps_in(observed(notice)) == 0,
{
    match notice {
        Some(r) => {
            let seen = observed(notice);
            assert(seen.last() == ActionView::Observe(r));
            assert(seen.drop_last() =~= Seq::<ActionView>::empty());
            assert(sleeps_in(seen) == sleeps_in(seen.drop_last()));
        },
        None => {},
    }
}

/// What a loop makes of a transient status: one sleep, and then the next
/// poll where the budget has one, else the timeout.
proof fn lemma_transient_step(poll: PollLoopView, reply: Reply)
    requires
        means(poll.config, reply, VerdictView::Transient),
    ensures
        poll.polls < poll.config.max_iterations ==> (poll_absorbed(poll, reply)
            matches PollStepView::Continue { poll: next, actions, .. } && next == polling(
            poll.config,
            (poll.polls + 1) as usize,
        ) && sleeps_in(actions) == 1),
        poll.polls >= poll.config.max_iterations ==> (poll_absorbed(poll, reply)
            matches PollStepView::Failed { actions, error } && error == ErrorView::VideoTimeout
            && sleeps_in(actions) == 1),
{
    let doc = reply->Ok_0;
    let notice = Some(poll.executor.base.attempt(poll.executor.count).answered(doc));
    let seen = observed(notice);
    let nap = ActionView::Sleep(poll.config.interval);
    let next = ActionView::Observe(fresh_record(poll.config.path, Seq::empty()));
    lemma_observed_has_no_sleep(notice);
    let slept = seen + seq![nap];
    assert(slept.last() == nap);
    assert(slept.drop_last() =~= seen);
    assert(sleeps_in(slept) == sleeps_in(seen) + 1);
    let polled = seen + seq![nap, next];
    assert(polled.last() == next);
    assert(polled.drop_last() =~= slept);
    assert(sleeps_in(polled) == sleeps_in(slept));
}

/// A loop that sees `waits` transient statuses and then one of success
/// succeeds with that poll: it has sent one request for each of these
/// statuses and slept once for each transient one. The budget has to cover
/// the polls.
pub proof fn lemma_success_after_waiting(poll: PollLoopView, replies: Seq<Reply>, waits: nat)
    requires
        poll.executor == polling(poll.config, poll.polls).executor,
        poll.polls + waits <= poll.config.max_iterations,
        waits < replies.len(),
        forall|i: int|
            0 <= i < waits ==> means(poll.config, #[trigger] replies[i], VerdictView::Transient),
        means(poll.config, replies[waits as int], VerdictView::Success),
    ensures
        poll_run(poll, replies) == (PollRun {
            sends: waits + 1,
            sleeps: waits,
            result: Some(Ok(())),
        }),
    decreases waits,
{
    if waits == 0 {
        let doc = replies[0]->Ok_0;
        lemma_observed_has_no_sleep(
            Some(poll.executor.base.attempt(poll.executor.count).answered(doc)),
        );
    } else {
        lemma_transient_step(poll, replies[0]);
        let next = polling(poll.config, (poll.polls + 1) as usize);
        let rest = replies.drop_first();
        assert forall|i: int| 0 <= i < waits - 1 implies means(
            next.config,
            #[trigger] rest[i],
            VerdictView::Transient,
        ) by {
            assert(rest[i] == replies[i + 1]);
        }
        assert(rest[waits - 1] == replies[waits as int]);
        lemma_success_after_waiting(next, rest, (waits - 1) as nat);
    }
}

/// A loop that sees nothing but transient statuses times out with its last
/// poll: it has sent one request and slept once for each poll that its
/// budget had left.
pub proof fn lemma_timeout_after_budget(poll: PollLoopView, replies: Seq<Reply>)
    requires
        poll.executor == polling(poll.config, poll.polls).executor,
        1 <= poll.polls <= poll.config.max_iterations,
        replies.len() > poll.config.max_iterations - poll.polls,
        forall|i: int|
            0 <= i <= poll.config.max_iterations - poll.polls ==> means(
                poll.config,
                #[trigger] replies[i],
                VerdictView::Transient,
            ),
    ensures
        poll_run(poll, replies) == (PollRun {
            sends: (poll.config.max_iterations - poll.polls + 1) as nat,
            sleeps: (poll.config.max_iterations - poll.polls + 1) as nat,
            result: Some(Err(ErrorView::VideoTimeout)),
        }),
    decreases poll.config.max_iterations - poll.polls,
{
    lemma_transient_step(poll, replies[0]);
    if poll.polls < poll.config.max_iterations {
        let next = polling(poll.config, (poll.polls + 1) as usize);
        let rest = replies.drop_first();
        assert forall|i: int|
            0 <= i <= next.config.max_iterations - next.polls implies means(
            next.config,
            #[trigger] rest[i],
            VerdictView::Transient,
        ) by {
            assert(rest[i] == replies[i + 1]);
        }
        lemma_timeout_after_budget(next, rest);
    }
}

} // verus!
