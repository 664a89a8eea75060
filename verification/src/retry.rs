//! The request executor: one logical call, attempted until it succeeds, is
//! rejected by the platform, or its budget of attempts is used up.

use crate::error::{reply_view, ErrorView, FbapiError};
use crate::exchange::{optional_record, LogParams, LogParamsView, Request, RequestView};
use crate::json::{Json, JsonValue};
use vstd::prelude::*;

verus! {

/// A reply as the executor sees it: a document, or the failure to get one.
pub type Reply = Result<JsonValue, ErrorView>;

/// How many attempts a budget allows: the budget itself, but one where the
/// budget is zero. Zero stands for "no further attempt", not for "none".
pub open spec fn attempt_budget(retry_count: usize) -> int {
    if retry_count == 0 {
        1
    } else {
        retry_count as int
    }
}

/// A call with one attempt in flight.
pub struct Executor {
    retry_count: usize,
    count: usize,
    request: Request,
    base: LogParams,
}

/// The mathematical value of an [`Executor`].
pub struct ExecutorView {
    /// The budget of attempts.
    pub retry_count: usize,
    /// The index of the attempt in flight.
    pub count: usize,
    /// What every attempt sends.
    pub request: RequestView,
    /// The record that every attempt is observed with, but for its index.
    pub base: LogParamsView,
}

impl View for Executor {
    type V = ExecutorView;

    closed spec fn view(&self) -> ExecutorView {
        ExecutorView {
            retry_count: self.retry_count,
            count: self.count,
            request: self.request@,
            base: self.base@,
        }
    }
}

/// The first attempt of a call: the state, the record to observe and the
/// request to send.
pub struct Started {
    pub executor: Executor,
    pub record: LogParams,
    pub request: Request,
}

/// The end of a call: the record to observe, if any, and the result.
pub struct Ended {
    pub notice: Option<LogParams>,
    pub result: Result<Json, FbapiError>,
}

/// The mathematical value of an [`Ended`].
pub struct EndedView {
    pub notice: Option<LogParamsView>,
    pub result: Reply,
}

/// What the executor makes of a reply.
pub enum Settled {
    /// Another attempt: observe the record, send the request.
    Again { executor: Executor, record: LogParams, request: Request },
    /// The end of the call.
    Finished(Ended),
}

/// The mathematical value of a [`Settled`].
pub enum SettledView {
    Again { executor: ExecutorView, record: LogParamsView, request: RequestView },
    Finished(EndedView),
}

impl View for Ended {
    type V = EndedView;

    open spec fn view(&self) -> EndedView {
        EndedView { notice: optional_record(self.notice), result: reply_view(self.result) }
    }
}

impl View for Settled {
    type V = SettledView;

    open spec fn view(&self) -> SettledView {
        match self {
            Settled::Again { executor, record, request } => SettledView::Again {
                executor: executor@,
                record: record@,
                request: request@,
            },
            Settled::Finished(ended) => SettledView::Finished(ended@),
        }
    }
}

/// The state of a call whose first attempt is in flight.
pub open spec fn started(
    retry_count: usize,
    request: RequestView,
    base: LogParamsView,
) -> ExecutorView {
    ExecutorView { retry_count, count: 0, request, base }
}

/// What the executor makes of the reply to the attempt in flight.
///
/// A document with an `error` object ends the call as a failure that the
/// platform reports, and nothing is tried again. Any other document ends it
/// as a success, observed with the attempt's index and the document. A
/// failure of the transport or of decoding is tried again while the budget
/// allows, with the next index, and ends the call where it does not. Any
/// other failure ends the call at once.
pub open spec fn settled(ex: ExecutorView, reply: Reply) -> SettledView {
    match reply {
        Ok(doc) => if doc.reports_error() {
            SettledView::Finished(
                EndedView { notice: None, result: Err(ErrorView::Facebook(doc)) },
            )
        } else {
            SettledView::Finished(
                EndedView {
                    notice: Some(ex.base.attempt(ex.count).answered(doc)),
                    result: Ok(doc),
                },
            )
        },
        Err(e) => if !e.retryable() || ex.count + 1 >= ex.retry_count {
            SettledView::Finished(EndedView { notice: None, result: Err(e) })
        } else {
            SettledView::Again {
                executor: ExecutorView { count: (ex.count + 1) as usize, ..ex },
                record: ex.base.attempt((ex.count + 1) as usize),
                request: ex.request,
            }
        },
    }
}

impl Executor {
    /// Begins a call: attempt 0 is to be observed and sent.
    pub fn begin(retry_count: usize, request: Request, base: LogParams) -> (r: Started)
        ensures
            r.executor@ == started(retry_count, request@, base@),
            r.record@ == base@.attempt(0),
            r.request@ == request@,
    {
        let record = base.attempt(0);
        let first = request.duplicate();
        Started {
            executor: Executor { retry_count, count: 0, request, base },
            record,
            request: first,
        }
    }

    /// Takes the reply to the attempt in flight.
    pub fn settle(self, reply: Result<Json, FbapiError>) -> (r: Settled)
        ensures
            r@ == settled(self@, reply_view(reply)),
    {
        match reply {
            Ok(doc) => {
                if doc.reports_error() {
                    Settled::Finished(
                        Ended { notice: None, result: Err(FbapiError::Facebook(doc)) },
                    )
                } else {
                    let record = self.base.attempt(self.count).answered(&doc);
                    Settled::Finished(Ended { notice: Some(record), result: Ok(doc) })
                }
            },
            Err(e) => {
                if !e.retryable() || self.retry_count <= 1 || self.count >= self.retry_count - 1 {
                    Settled::Finished(Ended { notice: None, result: Err(e) })
                } else {
                    let count = self.count + 1;
                    let record = self.base.attempt(count);
                    let request = self.request.duplicate();
                    Settled::Again {
                        executor: Executor {
                            retry_count: self.retry_count,
                            count,
                            request: self.request,
                            base: self.base,
                        },
                        record,
                        request,
                    }
                }
            },
        }
    }
}

/// What a call has come to after some replies: how many requests were sent,
/// and the result if the call has ended.
pub struct Run {
    pub sends: nat,
    pub result: Option<Reply>,
}

/// The course of a call whose attempt in flight, and those after it, are
/// answered by `replies` in their order. Replies that come after the end of
/// the call are never looked at.
pub open spec fn run(ex: ExecutorView, replies: Seq<Reply>) -> Run
    decreases replies.len(),
{
    if replies.len() == 0 {
        Run { sends: 1, result: None }
    } else {
        match settled(ex, replies[0]) {
            SettledView::Again { executor, .. } => {
                let rest = run(executor, replies.drop_first());
                Run { sends: rest.sends + 1, result: rest.result }
            },
            SettledView::Finished(ended) => Run { sends: 1, result: Some(ended.result) },
        }
    }
}

/// From any attempt on, a call sends no more requests than its budget has
/// left, and it has ended once that many replies are in.
pub proof fn lemma_run_within_budget(ex: ExecutorView, replies: Seq<Reply>)
    requires
        ex.count < attempt_budget(ex.retry_count),
    ensures
        run(ex, replies).sends <= attempt_budget(ex.retry_count) - ex.count,
        replies.len() >= attempt_budget(ex.retry_count) - ex.count ==> run(ex, replies).result
            is Some,
    decreases replies.len(),
{
    if replies.len() > 0 {
        match settled(ex, replies[0]) {
            SettledView::Again { executor, .. } => {
                lemma_run_within_budget(executor, replies.drop_first());
            },
            SettledView::Finished(_) => {},
        }
    }
}

/// With a budget of at least one attempt, a call never sends more requests
/// than its budget, whatever the replies are.
pub proof fn lemma_attempts_bounded(
    retry_count: usize,
    request: RequestView,
    base: LogParamsView,
    replies: Seq<Reply>,
)
    requires
        retry_count >= 1,
    ensures
        run(started(retry_count, request, base), replies).sends <= retry_count,
{
    lemma_run_within_budget(started(retry_count, request, base), replies);
}

/// With a budget of zero, exactly one request is sent, and the first reply
/// ends the call.
pub proof fn lemma_zero_budget_is_one_attempt(
    request: RequestView,
    base: LogParamsView,
    replies: Seq<Reply>,
)
    ensures
        run(started(0, request, base), replies).sends == 1,
        replies.len() >= 1 ==> run(started(0, request, base), replies).result is Some,
{
    lemma_run_within_budget(started(0, request, base), replies);
}

/// A document in which the platform reports an error ends the call at once
/// with that report: no request is sent after the reply at `position` where
/// that reply is such a document, and the call's result is the report where
/// the call got that far.
pub proof fn lemma_no_retry_after_api_error(
    ex: ExecutorView,
    replies: Seq<Reply>,
    position: int,
)
    requires
        0 <= position < replies.len(),
        replies[position] matches Ok(doc) && doc.reports_error(),
    ensures
        run(ex, replies).sends <= position + 1,
        run(ex, replies).result is Some,
        run(ex, replies).sends == position + 1 ==> run(ex, replies).result == Some(
            Err::<JsonValue, ErrorView>(ErrorView::Facebook(replies[position]->Ok_0)),
        ),
    decreases position,
{
    if position > 0 {
        match settled(ex, replies[0]) {
            SettledView::Again { executor, .. } => {
                lemma_no_retry_after_api_error(executor, replies.drop_first(), position - 1);
            },
            SettledView::Finished(_) => {},
        }
    }
}

/// A failure that is neither one of the transport nor one of decoding ends
/// the call at once, whatever the budget is, and is its result.
pub proof fn lemma_other_failures_are_not_retried(ex: ExecutorView, e: ErrorView)
    requires
        !e.retryable(),
    ensures
        settled(ex, Err(e)) == SettledView::Finished(EndedView { notice: None, result: Err(e) }),
{
}

/// The form call: one attempt of a multipart request, without another try.
pub struct FormCall {
    base: LogParams,
}

impl View for FormCall {
    type V = LogParamsView;

    closed spec fn view(&self) -> LogParamsView {
        self.base@
    }
}

/// What the form call makes of its reply: a failure to get a document ends
/// it unobserved; a document is observed with the record of the call, and
/// is the result unless the platform reports an error in it.
pub open spec fn form_settled(base: LogParamsView, reply: Reply) -> EndedView {
    match reply {
        Ok(doc) => EndedView {
            notice: Some(base.attempt(0).answered(doc)),
            result: if doc.reports_error() {
                Err(ErrorView::Facebook(doc))
            } else {
                Ok(doc)
            },
        },
        Err(e) => EndedView { notice: None, result: Err(e) },
    }
}

impl FormCall {
    /// Begins a form call: its one attempt is to be observed, and the
    /// request sent.
    pub fn begin(base: LogParams) -> (r: (FormCall, LogParams))
        ensures
            r.0@ == base@,
            r.1@ == base@.attempt(0),
    {
        let record = base.attempt(0);
        (FormCall { base }, record)
    }

    /// Takes the reply to the form call.
    pub fn settle(self, reply: Result<Json, FbapiError>) -> (r: Ended)
        ensures
            r@ == form_settled(self@, reply_view(reply)),
    {
        match reply {
            Ok(doc) => {
                let record = self.base.attempt(0).answered(&doc);
                if doc.reports_error() {
                    Ended { notice: Some(record), result: Err(FbapiError::Facebook(doc)) }
                } else {
                    Ended { notice: Some(record), result: Ok(doc) }
                }
            },
            Err(e) => Ended { notice: None, result: Err(e) },
        }
    }
}

} // verus!
