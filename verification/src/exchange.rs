//! What passes between the library and the code that talks to the network.
//!
//! The library never sends anything. A chain of calls is a state machine: it
//! hands out a [`Turn`], which lists what to observe and how long to sleep
//! and then either names the request to send or ends the chain. The caller
//! sends the request, decodes what came back, and hands the reply to the
//! machine for the next turn.

use crate::codec::{parsed_bytes, read_bytes};
use crate::error::{reply_view, ErrorView, FbapiError};
use crate::json::{Json, JsonValue};
use crate::text::{borrowed_pairs, copy_pairs, owned_pairs, to_owned_pairs, Pair};
use vstd::prelude::*;

verus! {

/// The method of a request.
#[derive(Clone, Copy, Debug, PartialEq, Eq, Structural)]
pub enum Verb {
    Get,
    Post,
    Delete,
}

/// Which of the caller's transports carries a request: the one for ordinary
/// calls, or the patient one for calls that move media.
#[derive(Clone, Copy, Debug, PartialEq, Eq, Structural)]
pub enum Channel {
    Standard,
    Long,
}

/// What a request carries besides its URL.
#[derive(Debug)]
pub enum Payload {
    /// Nothing.
    Empty,
    /// Form fields.
    Form(Vec<(String, String)>),
    /// A multipart form: text fields, and the part `source` with the media
    /// that the caller holds, under the given file name.
    Multipart { fields: Vec<(String, String)>, file_name: String },
}

/// The mathematical value of a [`Payload`].
pub enum PayloadView {
    Empty,
    Form(Seq<Pair>),
    Multipart { fields: Seq<Pair>, file_name: Seq<char> },
}

impl View for Payload {
    type V = PayloadView;

    open spec fn view(&self) -> PayloadView {
        match self {
            Payload::Empty => PayloadView::Empty,
            Payload::Form(fields) => PayloadView::Form(owned_pairs(fields@)),
            Payload::Multipart { fields, file_name } => PayloadView::Multipart {
                fields: owned_pairs(fields@),
                file_name: file_name@,
            },
        }
    }
}

/// A request to send.
#[derive(Debug)]
pub struct Request {
    pub verb: Verb,
    pub url: String,
    pub headers: Vec<(String, String)>,
    pub payload: Payload,
    pub channel: Channel,
}

/// The mathematical value of a [`Request`].
pub struct RequestView {
    pub verb: Verb,
    pub url: Seq<char>,
    pub headers: Seq<Pair>,
    pub payload: PayloadView,
    pub channel: Channel,
}

impl View for Request {
    type V = RequestView;

    open spec fn view(&self) -> RequestView {
        RequestView {
            verb: self.verb,
            url: self.url@,
            headers: owned_pairs(self.headers@),
            payload: self.payload@,
            channel: self.channel,
        }
    }
}

impl Payload {
    /// A copy of the payload.
    pub fn duplicate(&self) -> (r: Payload)
        ensures
            r@ == self@,
    {
        match self {
            Payload::Empty => Payload::Empty,
            Payload::Form(fields) => Payload::Form(copy_pairs(fields)),
            Payload::Multipart { fields, file_name } => Payload::Multipart {
                fields: copy_pairs(fields),
                file_name: file_name.clone(),
            },
        }
    }
}

impl Request {
    /// A copy of the request.
    pub fn duplicate(&self) -> (r: Request)
        ensures
            r@ == self@,
    {
        Request {
            verb: self.verb,
            url: self.url.clone(),
            headers: copy_pairs(&self.headers),
            payload: self.payload.duplicate(),
            channel: self.channel,
        }
    }

    /// A GET of `url`.
    pub fn get(url: &str) -> (r: Request)
        ensures
            r@ == plain_request(Verb::Get, url@),
    {
        let r = Request {
            verb: Verb::Get,
            url: url.to_owned(),
            headers: Vec::new(),
            payload: Payload::Empty,
            channel: Channel::Standard,
        };
        assert(r@.headers =~= Seq::empty());
        r
    }

    /// A DELETE of `url`.
    pub fn delete(url: &str) -> (r: Request)
        ensures
            r@ == plain_request(Verb::Delete, url@),
    {
        let r = Request {
            verb: Verb::Delete,
            url: url.to_owned(),
            headers: Vec::new(),
            payload: Payload::Empty,
            channel: Channel::Standard,
        };
        assert(r@.headers =~= Seq::empty());
        r
    }

    /// A POST of form fields to `url`.
    pub fn post_form(url: &str, fields: &[(&str, &str)], channel: Channel) -> (r: Request)
        ensures
            r@ == form_request(url@, borrowed_pairs(fields@), channel),
    {
        let r = Request {
            verb: Verb::Post,
            url: url.to_owned(),
            headers: Vec::new(),
            payload: Payload::Form(to_owned_pairs(fields)),
            channel,
        };
        assert(r@.headers =~= Seq::empty());
        r
    }

    /// A POST of a multipart form to `url`, with the caller's media as the
    /// part `source`.
    pub fn post_multipart(url: &str, fields: &[(&str, &str)], file_name: &str) -> (r: Request)
        ensures
            r@ == multipart_request(url@, borrowed_pairs(fields@), file_name@),
    {
        let r = Request {
            verb: Verb::Post,
            url: url.to_owned(),
            headers: Vec::new(),
            payload: Payload::Multipart {
                fields: to_owned_pairs(fields),
                file_name: file_name.to_owned(),
            },
            channel: Channel::Standard,
        };
        assert(r@.headers =~= Seq::empty());
        r
    }
}

/// A request without headers and payload, on the standard channel.
pub open spec fn plain_request(verb: Verb, url: Seq<char>) -> RequestView {
    RequestView {
        verb,
        url,
        headers: Seq::empty(),
        payload: PayloadView::Empty,
        channel: Channel::Standard,
    }
}

/// A POST of form fields.
pub open spec fn form_request(url: Seq<char>, fields: Seq<Pair>, channel: Channel) -> RequestView {
    RequestView {
        verb: Verb::Post,
        url,
        headers: Seq::empty(),
        payload: PayloadView::Form(fields),
        channel,
    }
}

/// A POST of a multipart form.
pub open spec fn multipart_request(
    url: Seq<char>,
    fields: Seq<Pair>,
    file_name: Seq<char>,
) -> RequestView {
    RequestView {
        verb: Verb::Post,
        url,
        headers: Seq::empty(),
        payload: PayloadView::Multipart { fields, file_name },
        channel: Channel::Standard,
    }
}

/// The record of one attempt: where the request goes, with which
/// parameters, which attempt it is, and the reply once there is one.
#[derive(Debug)]
pub struct LogParams {
    pub path: String,
    pub params: Vec<(String, String)>,
    pub count: usize,
    pub result: Option<Json>,
}

/// The mathematical value of a [`LogParams`].
pub struct LogParamsView {
    pub path: Seq<char>,
    pub params: Seq<Pair>,
    pub count: usize,
    pub result: Option<JsonValue>,
}

impl View for LogParams {
    type V = LogParamsView;

    open spec fn view(&self) -> LogParamsView {
        LogParamsView {
            path: self.path@,
            params: owned_pairs(self.params@),
            count: self.count,
            result: match self.result {
                Some(doc) => Some(doc@),
                None => None,
            },
        }
    }
}

/// The record of a call that has not been attempted yet.
pub open spec fn fresh_record(path: Seq<char>, params: Seq<Pair>) -> LogParamsView {
    LogParamsView { path, params, count: 0, result: None }
}

impl LogParamsView {
    /// The record of the attempt with the given index: it has no reply yet.
    pub open spec fn attempt(self, count: usize) -> LogParamsView {
        LogParamsView { count, result: None, ..self }
    }

    /// The record with a reply attached.
    pub open spec fn answered(self, doc: JsonValue) -> LogParamsView {
        LogParamsView { result: Some(doc), ..self }
    }
}

impl LogParams {
    /// The record of a call to `path` with `params`: attempt 0, no reply.
    pub fn new(path: &str, params: &[(&str, &str)]) -> (r: Self)
        ensures
            r@ == fresh_record(path@, borrowed_pairs(params@)),
    {
        Self { path: path.to_owned(), params: to_owned_pairs(params), count: 0, result: None }
    }

    /// The record of a call to `path` without parameters.
    pub fn bare(path: &str) -> (r: Self)
        ensures
            r@ == fresh_record(path@, Seq::empty()),
    {
        let r = Self { path: path.to_owned(), params: Vec::new(), count: 0, result: None };
        assert(r@.params =~= Seq::empty());
        r
    }

    /// A copy of the record.
    pub fn duplicate(&self) -> (r: Self)
        ensures
            r@ == self@,
    {
        Self {
            path: self.path.clone(),
            params: copy_pairs(&self.params),
            count: self.count,
            result: match &self.result {
                Some(doc) => Some(doc.duplicate()),
                None => None,
            },
        }
    }

    /// The record of the attempt with the given index, without a reply.
    pub fn attempt(&self, count: usize) -> (r: Self)
        ensures
            r@ == self@.attempt(count),
    {
        Self {
            path: self.path.clone(),
            params: copy_pairs(&self.params),
            count,
            result: None,
        }
    }

    /// A copy of the record with a copy of the reply attached.
    pub fn answered(&self, doc: &Json) -> (r: Self)
        ensures
            r@ == self@.answered(doc@),
    {
        Self {
            path: self.path.clone(),
            params: copy_pairs(&self.params),
            count: self.count,
            result: Some(doc.duplicate()),
        }
    }
}

/// What the caller does between two requests.
#[derive(Debug)]
pub enum Action {
    /// Hand the record to the observer.
    Observe(LogParams),
    /// Sleep for so many seconds.
    Sleep(usize),
}

/// The mathematical value of an [`Action`].
pub enum ActionView {
    Observe(LogParamsView),
    Sleep(usize),
}

impl View for Action {
    type V = ActionView;

    open spec fn view(&self) -> ActionView {
        match self {
            Action::Observe(record) => ActionView::Observe(record@),
            Action::Sleep(seconds) => ActionView::Sleep(*seconds),
        }
    }
}

/// The views of a list of actions.
pub open spec fn actions_view(actions: Seq<Action>) -> Seq<ActionView> {
    Seq::new(actions.len(), |i: int| actions[i]@)
}

/// How a turn ends: with a request to send, the answer to which goes to
/// `state`, or with the result of the whole chain.
pub enum Next<S, T> {
    Send { request: Request, state: S },
    Done(Result<T, FbapiError>),
}

/// One turn of a chain of calls: the actions to carry out in their order,
/// then the request to send or the end.
pub struct Turn<S, T> {
    pub actions: Vec<Action>,
    pub next: Next<S, T>,
}

/// What a chain of calls can end with.
pub trait Product {
    /// The mathematical value of the product.
    type Value;

    spec fn value(&self) -> Self::Value;
}

impl Product for Json {
    type Value = JsonValue;

    open spec fn value(&self) -> JsonValue {
        self@
    }
}

impl Product for String {
    type Value = Seq<char>;

    open spec fn value(&self) -> Seq<char> {
        self@
    }
}

/// The mathematical value of a [`Next`].
pub enum NextView<S, T> {
    Send { request: RequestView, state: S },
    Done(Result<T, ErrorView>),
}

/// The mathematical value of a [`Turn`].
pub struct TurnView<S, T> {
    pub actions: Seq<ActionView>,
    pub next: NextView<S, T>,
}

impl<S: View, T: Product> View for Next<S, T> {
    type V = NextView<S::V, T::Value>;

    open spec fn view(&self) -> NextView<S::V, T::Value> {
        match self {
            Next::Send { request, state } => NextView::Send { request: request@, state: state@ },
            Next::Done(Ok(product)) => NextView::Done(Ok(product.value())),
            Next::Done(Err(e)) => NextView::Done(Err(e@)),
        }
    }
}

impl<S: View, T: Product> View for Turn<S, T> {
    type V = TurnView<S::V, T::Value>;

    open spec fn view(&self) -> TurnView<S::V, T::Value> {
        TurnView { actions: actions_view(self.actions@), next: self.next@ }
    }
}

/// The turn that sends a request.
pub open spec fn send_turn<S, T>(
    actions: Seq<ActionView>,
    request: RequestView,
    state: S,
) -> TurnView<S, T> {
    TurnView { actions, next: NextView::Send { request, state } }
}

/// The turn that ends a chain.
pub open spec fn done_turn<S, T>(
    actions: Seq<ActionView>,
    result: Result<T, ErrorView>,
) -> TurnView<S, T> {
    TurnView { actions, next: NextView::Done(result) }
}

impl<S: View, T: Product> Turn<S, T> {
    /// The turn that sends a request.
    pub fn send(actions: Vec<Action>, request: Request, state: S) -> (r: Self)
        ensures
            r@ == send_turn::<S::V, T::Value>(actions_view(actions@), request@, state@),
    {
        Turn { actions, next: Next::Send { request, state } }
    }

    /// The turn that ends a chain with its product.
    pub fn finish(actions: Vec<Action>, product: T) -> (r: Self)
        ensures
            r@ == done_turn::<S::V, T::Value>(actions_view(actions@), Ok(product.value())),
    {
        Turn { actions, next: Next::Done(Ok(product)) }
    }

    /// The turn that ends a chain with a failure.
    pub fn fail(actions: Vec<Action>, error: FbapiError) -> (r: Self)
        ensures
            r@ == done_turn::<S::V, T::Value>(actions_view(actions@), Err(error@)),
    {
        Turn { actions, next: Next::Done(Err(error)) }
    }
}

/// The view of an optional record.
pub open spec fn optional_record(record: Option<LogParams>) -> Option<LogParamsView> {
    match record {
        Some(r) => Some(r@),
        None => None,
    }
}

/// The actions of an optional record: to observe it, or none.
pub open spec fn observed(record: Option<LogParamsView>) -> Seq<ActionView> {
    match record {
        Some(r) => seq![ActionView::Observe(r)],
        None => Seq::empty(),
    }
}

/// The actions of an optional record.
pub fn observe(record: Option<LogParams>) -> (r: Vec<Action>)
    ensures
        actions_view(r@) == observed(optional_record(record)),
{
    let mut actions: Vec<Action> = Vec::new();
    match record {
        Some(rec) => {
            actions.push(Action::Observe(rec));
        },
        None => {},
    }
    assert(actions_view(actions@) =~= observed(optional_record(record)));
    actions
}

/// The actions of a list, and one more.
pub fn and_then(before: Vec<Action>, action: Action) -> (r: Vec<Action>)
    ensures
        actions_view(r@) == actions_view(before@) + seq![action@],
{
    let mut all = before;
    all.push(action);
    assert(actions_view(all@) =~= actions_view(before@) + seq![action@]);
    all
}

/// What the transport handed back for a request: the bytes of the body, or
/// the description of its failure.
pub enum Outcome {
    Body(Vec<u8>),
    Lost(String),
}

/// The reply that an outcome is once decoded: a lost request is a failure of
/// the transport, a body that `serde_json` reads is its document, any other
/// body is a failure to decode.
pub open spec fn decoded(outcome: Outcome) -> Result<JsonValue, ErrorView> {
    match outcome {
        Outcome::Lost(message) => Err(ErrorView::Reqwest(message@)),
        Outcome::Body(bytes) => match parsed_bytes(bytes@) {
            Some(doc) => Ok(doc),
            None => Err(ErrorView::Json),
        },
    }
}

/// What a body is once `serde_json` has read it or refused it.
pub open spec fn body_read(body: Result<Json, serde_json::Error>) -> Result<JsonValue, ErrorView> {
    match body {
        Ok(doc) => Ok(doc@),
        Err(_) => Err(ErrorView::Json),
    }
}

/// The reply for a body that was read or refused.
pub fn reply_of_body(body: Result<Json, serde_json::Error>) -> (r: Result<Json, FbapiError>)
    ensures
        reply_view(r) == body_read(body),
{
    match body {
        Ok(doc) => Ok(doc),
        Err(e) => Err(FbapiError::Json(e)),
    }
}

/// Decodes what the transport handed back.
pub fn decode(outcome: Outcome) -> (r: Result<Json, FbapiError>)
    ensures
        reply_view(r) == decoded(outcome),
{
    match outcome {
        Outcome::Lost(message) => Err(FbapiError::Reqwest(message)),
        Outcome::Body(bytes) => reply_of_body(read_bytes(bytes.as_slice())),
    }
}

} // verus!
