//! The chains of a single call: a call with its attempts, and a form call.

use crate::error::{reply_view, ErrorView, FbapiError};
use crate::exchange::{
    done_turn, observe, observed, send_turn, ActionView, LogParams, LogParamsView, Request,
    RequestView, Turn, TurnView,
};
use crate::json::{Json, JsonValue};
use crate::retry::{
    form_settled, settled, started, Ended, Executor, ExecutorView, FormCall, Reply, Settled,
    SettledView,
};
use vstd::prelude::*;

verus! {

/// One call with an attempt in flight, as a chain of its own.
pub struct CallFlow {
    call: Executor,
}

impl View for CallFlow {
    type V = ExecutorView;

    closed spec fn view(&self) -> ExecutorView {
        self.call@
    }
}

/// A turn of a single call.
pub type CallTurn = TurnView<ExecutorView, JsonValue>;

/// The turn that begins a call: its first attempt is observed and sent.
pub open spec fn call_begun(
    retry_count: usize,
    request: RequestView,
    record: LogParamsView,
) -> CallTurn {
    send_turn(
        seq![ActionView::Observe(record.attempt(0))],
        request,
        started(retry_count, request, record),
    )
}

/// The turn that a call takes with a reply: another attempt, or the end
/// with the call's result.
pub open spec fn call_continued(call: ExecutorView, reply: Reply) -> CallTurn {
    match settled(call, reply) {
        SettledView::Again { executor, record, request } => send_turn(
            seq![ActionView::Observe(record)],
            request,
            executor,
        ),
        SettledView::Finished(ended) => done_turn(observed(ended.notice), ended.result),
    }
}

/// The turn of a client that only pretends to call: the record is observed
/// and the call ends with the given failure.
pub open spec fn call_refused(record: LogParamsView, error: ErrorView) -> CallTurn {
    done_turn(seq![ActionView::Observe(record)], Err(error))
}

impl CallFlow {
    /// Begins a call.
    pub fn begin(retry_count: usize, request: Request, record: LogParams) -> (r: Turn<
        CallFlow,
        Json,
    >)
        ensures
            r@ == call_begun(retry_count, request@, record@),
    {
        let first = Executor::begin(retry_count, request, record);
        Turn::send(observe(Some(first.record)), first.request, CallFlow { call: first.executor })
    }

    /// Ends a call before it is sent.
    pub fn refuse(record: LogParams, error: FbapiError) -> (r: Turn<CallFlow, Json>)
        ensures
            r@ == call_refused(record@, error@),
    {
        Turn::fail(observe(Some(record)), error)
    }

    /// Takes the reply to the attempt in flight.
    pub fn advance(self, reply: Result<Json, FbapiError>) -> (r: Turn<CallFlow, Json>)
        ensures
            r@ == call_continued(self@, reply_view(reply)),
    {
        match self.call.settle(reply) {
            Settled::Again { executor, record, request } => Turn::send(
                observe(Some(record)),
                request,
                CallFlow { call: executor },
            ),
            Settled::Finished(Ended { notice, result: Ok(doc) }) => Turn::finish(
                observe(notice),
                doc,
            ),
            Settled::Finished(Ended { notice, result: Err(e) }) => Turn::fail(observe(notice), e),
        }
    }
}

/// A call that makes something, with an attempt in flight: its product is
/// the id of what it has made.
pub struct IdCall {
    call: Executor,
}

impl View for IdCall {
    type V = ExecutorView;

    closed spec fn view(&self) -> ExecutorView {
        self.call@
    }
}

/// A turn of a call that makes something.
pub type IdTurn = TurnView<ExecutorView, Seq<char>>;

/// The id that a reply names: the text of its member `id`. A reply without
/// such a text is of an unexpected shape.
pub open spec fn id_of(doc: JsonValue) -> Result<Seq<char>, ErrorView> {
    match doc.text_of("id"@) {
        Some(id) => Ok(id),
        None => Err(ErrorView::UnExpected(doc)),
    }
}

/// The turn that begins a call that makes something.
pub open spec fn id_call_begun(
    retry_count: usize,
    request: RequestView,
    record: LogParamsView,
) -> IdTurn {
    send_turn(
        seq![ActionView::Observe(record.attempt(0))],
        request,
        started(retry_count, request, record),
    )
}

/// The turn that such a call takes with a reply: another attempt, or the
/// end with the id that the reply names.
pub open spec fn id_call_continued(call: ExecutorView, reply: Reply) -> IdTurn {
    match settled(call, reply) {
        SettledView::Again { executor, record, request } => send_turn(
            seq![ActionView::Observe(record)],
            request,
            executor,
        ),
        SettledView::Finished(ended) => done_turn(
            observed(ended.notice),
            match ended.result {
                Ok(doc) => id_of(doc),
                Err(e) => Err(e),
            },
        ),
    }
}

/// The id that a reply names.
pub fn read_id(doc: Json) -> (r: Result<String, FbapiError>)
    ensures
        match r {
            Ok(id) => id_of(doc@) == Ok::<Seq<char>, ErrorView>(id@),
            Err(e) => id_of(doc@) == Err::<Seq<char>, ErrorView>(e@),
        },
{
    let id = match doc.text_of("id") {
        Some(id) => Some(id.to_owned()),
        None => None,
    };
    match id {
        Some(id) => Ok(id),
        None => Err(FbapiError::UnExpected(doc)),
    }
}

impl IdCall {
    /// The call with the given attempt in flight.
    pub fn of(call: Executor) -> (r: IdCall)
        ensures
            r@ == call@,
    {
        IdCall { call }
    }

    /// Begins the call.
    pub fn begin(retry_count: usize, request: Request, record: LogParams) -> (r: Turn<
        IdCall,
        String,
    >)
        ensures
            r@ == id_call_begun(retry_count, request@, record@),
    {
        let first = Executor::begin(retry_count, request, record);
        Turn::send(observe(Some(first.record)), first.request, IdCall { call: first.executor })
    }

    /// Takes the reply to the attempt in flight.
    pub fn advance(self, reply: Result<Json, FbapiError>) -> (r: Turn<IdCall, String>)
        ensures
            r@ == id_call_continued(self@, reply_view(reply)),
    {
        match self.call.settle(reply) {
            Settled::Again { executor, record, request } => Turn::send(
                observe(Some(record)),
                request,
                IdCall { call: executor },
            ),
            Settled::Finished(Ended { notice, result: Ok(doc) }) => match read_id(doc) {
                Ok(id) => Turn::finish(observe(notice), id),
                Err(e) => Turn::fail(observe(notice), e),
            },
            Settled::Finished(Ended { notice, result: Err(e) }) => Turn::fail(observe(notice), e),
        }
    }
}

/// A form call in flight, as a chain of its own.
pub struct FormFlow {
    form: FormCall,
}

impl View for FormFlow {
    type V = LogParamsView;

    closed spec fn view(&self) -> LogParamsView {
        self.form@
    }
}

/// A turn of a form call.
pub type FormTurn = TurnView<LogParamsView, JsonValue>;

/// The turn that begins a form call: its one attempt is observed, and the
/// request sent.
pub open spec fn form_begun(request: RequestView, record: LogParamsView) -> FormTurn {
    send_turn(seq![ActionView::Observe(record.attempt(0))], request, record)
}

/// The turn that ends a form call.
pub open spec fn form_ended(base: LogParamsView, reply: Reply) -> FormTurn {
    done_turn(observed(form_settled(base, reply).notice), form_settled(base, reply).result)
}

impl FormFlow {
    /// Begins a form call.
    pub fn begin(request: Request, record: LogParams) -> (r: Turn<FormFlow, Json>)
        ensures
            r@ == form_begun(request@, record@),
    {
        let (form, first) = FormCall::begin(record);
        Turn::send(observe(Some(first)), request, FormFlow { form })
    }

    /// Takes the reply to the form call, which ends it.
    pub fn advance(self, reply: Result<Json, FbapiError>) -> (r: Turn<FormFlow, Json>)
        ensures
            r@ == form_ended(self@, reply_view(reply)),
    {
        match self.form.settle(reply) {
            Ended { notice, result: Ok(doc) } => Turn::finish(observe(notice), doc),
            Ended { notice, result: Err(e) } => Turn::fail(observe(notice), e),
        }
    }
}

} // verus!
