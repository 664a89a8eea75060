//! Sending a batch: many operations in one call, and one result for each.

use crate::api::{graph_url, rate_limit_error, rate_limit_report, Fbapi, FbapiView};
use crate::apis::get_object::optional_str;
use crate::batch_request::{response_shaper, shaped_reply, BatchRequest};
use crate::codec::{render, rendered};
use crate::error::{reply_view, ErrorView, FbapiError};
use crate::exchange::{
    actions_view, done_turn, form_request, fresh_record, observe, observed, send_turn, Action,
    ActionView, Channel, LogParams, Request, Turn, TurnView,
};
use crate::json::{item_views, member_views, push_member, Json, JsonNumber, JsonValue, NumberValue};
use crate::retry::{settled, started, Ended, Executor, ExecutorView, Reply, Settled, SettledView};
use crate::sign::{sign, signature};
use crate::text::{borrowed_pairs, Pair};
use vstd::prelude::*;

verus! {

/// The fields of a batch call: the access token, the refusal of headers,
/// the text of the batch, and the proof of the application secret where
/// there is a secret.
pub open spec fn batch_fields(
    access_token: Seq<char>,
    app_secret: Option<Seq<char>>,
    batch: Seq<char>,
) -> Seq<Pair> {
    seq![("access_token"@, access_token), ("include_headers"@, "false"@), ("batch"@, batch)]
        + match app_secret {
        Some(secret) => seq![("appsecret_proof"@, signature(access_token, secret))],
        None => Seq::empty(),
    }
}

/// The element with which the emulation answers an operation of a batch:
/// a reply with code 400, no headers, and the report of a used-up rate limit
/// as its body.
pub open spec fn rate_limit_entry() -> JsonValue {
    JsonValue::Object(
        seq![
            ("body"@, JsonValue::String(rendered(rate_limit_report()))),
            ("code"@, JsonValue::Number(NumberValue::PosInt(400))),
            ("headers"@, JsonValue::Array(Seq::empty())),
        ],
    )
}

/// The array with which the emulation answers a batch of `count`
/// operations.
pub open spec fn rate_limit_array(count: usize) -> JsonValue {
    JsonValue::Array(Seq::new(count as nat, |i: int| rate_limit_entry()))
}

fn rate_limit_item() -> (r: Json)
    ensures
        r@ == rate_limit_entry(),
{
    let body = render(&rate_limit_error());
    let mut members: Vec<(String, Json)> = Vec::new();
    assert(member_views(members@) =~= Seq::empty());
    push_member(&mut members, "body", Json::String(body));
    push_member(&mut members, "code", Json::Number(JsonNumber::PosInt(400)));
    let nothing: Vec<Json> = Vec::new();
    assert(item_views(nothing@) =~= Seq::empty());
    push_member(&mut members, "headers", Json::array(nothing));
    assert(member_views(members@) =~= rate_limit_entry()->Object_0);
    Json::object(members)
}

/// The reply with which the emulation answers a batch of `count`
/// operations.
pub fn generate_rate_limit_array_for_batch(count: usize) -> (r: Json)
    ensures
        r@ == rate_limit_array(count),
{
    let mut items: Vec<Json> = Vec::new();
    let mut i: usize = 0;
    while i < count
        invariant
            i <= count,
            items.len() == i,
            forall|k: int| 0 <= k < i ==> items[k]@ == rate_limit_entry(),
        decreases count - i,
    {
        items.push(rate_limit_item());
        i += 1;
    }
    assert(item_views(items@) =~= rate_limit_array(count)->Array_0);
    Json::array(items)
}

/// A batch call with an attempt in flight.
pub struct BatchFlow {
    call: Executor,
}

impl View for BatchFlow {
    type V = ExecutorView;

    closed spec fn view(&self) -> ExecutorView {
        self.call@
    }
}

/// A turn of a batch call.
pub type BatchTurn = TurnView<ExecutorView, Seq<Result<JsonValue, ErrorView>>>;

/// The turn that begins a batch call. A client that only pretends to call
/// observes the call and ends it with what the array of the emulation
/// unfolds into.
pub open spec fn batch_begun(
    api: FbapiView,
    fields: Seq<Pair>,
    count: usize,
    retry_count: usize,
) -> BatchTurn {
    let url = graph_url(api.version, Seq::empty());
    if api.rate_limit_emulation {
        done_turn(
            seq![ActionView::Observe(fresh_record(url, fields))],
            shaped_reply(rate_limit_array(count)),
        )
    } else {
        send_turn(
            seq![ActionView::Observe(fresh_record(url, fields))],
            form_request(url, fields, Channel::Standard),
            started(
                retry_count,
                form_request(url, fields, Channel::Standard),
                fresh_record(url, fields),
            ),
        )
    }
}

/// The turn that a batch call takes with a reply: another attempt, or the
/// end with what the reply unfolds into.
pub open spec fn batch_continued(call: ExecutorView, reply: Reply) -> BatchTurn {
    match settled(call, reply) {
        SettledView::Again { executor, record, request } => send_turn(
            seq![ActionView::Observe(record)],
            request,
            executor,
        ),
        SettledView::Finished(ended) => done_turn(
            observed(ended.notice),
            match ended.result {
                Ok(doc) => shaped_reply(doc),
                Err(e) => Err(e),
            },
        ),
    }
}

fn unfolded(
    actions: Vec<Action>,
    doc: Json,
) -> (r: Turn<BatchFlow, Vec<Result<Json, FbapiError>>>)
    ensures
        r@ == done_turn::<ExecutorView, Seq<Result<JsonValue, ErrorView>>>(
            actions_view(actions@),
            shaped_reply(doc@),
        ),
{
    match response_shaper(doc) {
        Ok(replies) => Turn::finish(actions, replies),
        Err(e) => Turn::fail(actions, e),
    }
}

impl BatchFlow {
    /// Takes the reply to the attempt in flight.
    pub fn advance(self, reply: Result<Json, FbapiError>) -> (r: Turn<
        BatchFlow,
        Vec<Result<Json, FbapiError>>,
    >)
        ensures
            r@ == batch_continued(self@, reply_view(reply)),
    {
        match self.call.settle(reply) {
            Settled::Again { executor, record, request } => Turn::send(
                observe(Some(record)),
                request,
                BatchFlow { call: executor },
            ),
            Settled::Finished(Ended { notice, result: Ok(doc) }) => unfolded(
                observe(notice),
                doc,
            ),
            Settled::Finished(Ended { notice, result: Err(e) }) => Turn::fail(observe(notice), e),
        }
    }
}

impl Fbapi {
    /// Sends a batch, and unfolds the reply into one result for each
    /// operation.
    pub fn post_batch(
        &self,
        access_token: &str,
        app_secret: Option<&str>,
        batch: BatchRequest,
        retry_count: usize,
    ) -> (r: Turn<BatchFlow, Vec<Result<Json, FbapiError>>>)
        ensures
            r@ == batch_begun(
                self@,
                batch_fields(access_token@, optional_str(app_secret), rendered(batch@)),
                batch.count(),
                retry_count,
            ),
    {
        let batch_string = batch.to_string();
        let appsecret_proof = match app_secret {
            Some(secret) => sign(access_token, secret),
            None => String::new(),
        };
        let mut query = vec![
            ("access_token", access_token),
            ("include_headers", "false"),
            ("batch", batch_string.as_str()),
        ];
        if app_secret.is_some() {
            query.push(("appsecret_proof", appsecret_proof.as_str()));
        }
        proof {
            assert(borrowed_pairs(query@) =~= batch_fields(
                access_token@,
                optional_str(app_secret),
                rendered(batch@),
            ));
        }
        let path = self.make_path("");
        proof {
            reveal_strlit("");
            assert(""@ =~= Seq::<char>::empty());
        }
        let record = LogParams::new(path.as_str(), query.as_slice());
        if self.rate_limit_emulation() {
            unfolded(
                observe(Some(record)),
                generate_rate_limit_array_for_batch(batch.batch_count()),
            )
        } else {
            let first = Executor::begin(
                retry_count,
                Request::post_form(path.as_str(), query.as_slice(), Channel::Standard),
                record,
            );
            Turn::send(
                observe(Some(first.record)),
                first.request,
                BatchFlow { call: first.executor },
            )
        }
    }
}

} // verus!
