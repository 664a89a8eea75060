//! Batched requests: many operations folded into one call, and the array of
//! replies unfolded into one result for each.

use crate::codec::{parsed, read_text, render, rendered};
use crate::error::{reply_view, ErrorView, FbapiError};
use crate::exchange::Product;
use crate::json::{item_views, member_views, push_member, Json, JsonValue};
use crate::text::{borrowed_pairs, join_query, query_string, Pair};
use vstd::prelude::*;

verus! {

/// Whether the reply to a named operation is left out where it succeeds.
pub enum ResponseOnSuccess {
    /// `omit_response_on_success` is `true`.
    Omit,
    /// `omit_response_on_success` is `false`.
    Preserve,
}

/// What all operations of a batch have.
#[derive(Debug)]
pub struct ItemCommon {
    pub relative_url: String,
    pub name: Option<String>,
    pub omit_response_on_success: Option<bool>,
}

/// One operation of a batch.
#[derive(Debug)]
pub enum Item {
    Get(ItemCommon),
    Delete(ItemCommon),
    Post { body: Option<String>, common: ItemCommon },
    Put { body: Option<String>, common: ItemCommon },
}

/// The method of an operation.
pub enum Method {
    Get,
    Delete,
    Post,
    Put,
}

/// The mathematical value of an [`ItemCommon`].
pub struct ItemCommonView {
    pub relative_url: Seq<char>,
    pub name: Option<Seq<char>>,
    pub omit_response_on_success: Option<bool>,
}

/// The mathematical value of an [`Item`].
pub struct ItemView {
    pub method: Method,
    pub body: Option<Seq<char>>,
    pub common: ItemCommonView,
}

/// The text of an optional text.
pub open spec fn optional_text(t: Option<String>) -> Option<Seq<char>> {
    match t {
        Some(s) => Some(s@),
        None => None,
    }
}

impl View for ItemCommon {
    type V = ItemCommonView;

    open spec fn view(&self) -> ItemCommonView {
        ItemCommonView {
            relative_url: self.relative_url@,
            name: optional_text(self.name),
            omit_response_on_success: self.omit_response_on_success,
        }
    }
}

impl View for Item {
    type V = ItemView;

    open spec fn view(&self) -> ItemView {
        match self {
            Item::Get(common) => ItemView { method: Method::Get, body: None, common: common@ },
            Item::Delete(common) => ItemView {
                method: Method::Delete,
                body: None,
                common: common@,
            },
            Item::Post { body, common } => ItemView {
                method: Method::Post,
                body: optional_text(*body),
                common: common@,
            },
            Item::Put { body, common } => ItemView {
                method: Method::Put,
                body: optional_text(*body),
                common: common@,
            },
        }
    }
}

/// The relative URL with its parameters: the URL alone where there are
/// none, else the URL, `?` and the parameters as a query string.
pub open spec fn url_with_params(relative_url: Seq<char>, params: Seq<Pair>) -> Seq<char> {
    if params.len() == 0 {
        relative_url
    } else {
        relative_url + seq!['?'] + query_string(params)
    }
}

/// What [`ItemCommon::new`] makes of a name, a URL and parameters.
pub open spec fn common_of(
    name: Option<(Seq<char>, ResponseOnSuccess)>,
    relative_url: Seq<char>,
    params: Seq<Pair>,
) -> ItemCommonView {
    ItemCommonView {
        relative_url: url_with_params(relative_url, params),
        name: match name {
            Some((n, _)) => Some(n),
            None => None,
        },
        omit_response_on_success: match name {
            Some((_, on_success)) => Some(on_success is Omit),
            None => None,
        },
    }
}

/// What a GET of the given name, URL and parameters is as an operation.
pub open spec fn get_item(
    name: Option<(Seq<char>, ResponseOnSuccess)>,
    relative_url: Seq<char>,
    params: Seq<Pair>,
) -> ItemView {
    ItemView { method: Method::Get, body: None, common: common_of(name, relative_url, params) }
}

impl ItemCommonView {
    /// The name and the choice for the reply are both there or both missing.
    pub open spec fn well_formed(self) -> bool {
        self.name is Some <==> self.omit_response_on_success is Some
    }
}

/// The name of a method on the wire.
pub open spec fn method_name(method: Method) -> Seq<char> {
    match method {
        Method::Get => "GET"@,
        Method::Delete => "DELETE"@,
        Method::Post => "POST"@,
        Method::Put => "PUT"@,
    }
}

/// The member `key` with a text, or no member where there is no text.
pub open spec fn text_member(key: Seq<char>, value: Option<Seq<char>>) -> Seq<
    (Seq<char>, JsonValue),
> {
    match value {
        Some(t) => seq![(key, JsonValue::String(t))],
        None => Seq::empty(),
    }
}

/// The member `key` with a truth value, or no member where there is none.
pub open spec fn bool_member(key: Seq<char>, value: Option<bool>) -> Seq<(Seq<char>, JsonValue)> {
    match value {
        Some(b) => seq![(key, JsonValue::Bool(b))],
        None => Seq::empty(),
    }
}

/// The element of the batch array that stands for an operation: an object
/// with `method` and `relative_url`, and with `body`, `name` and
/// `omit_response_on_success` where the operation has them; the members are
/// in the order of their names.
pub open spec fn encoded_item(item: ItemView) -> JsonValue {
    JsonValue::Object(
        text_member("body"@, item.body) + seq![
            ("method"@, JsonValue::String(method_name(item.method))),
        ] + text_member("name"@, item.common.name) + bool_member(
            "omit_response_on_success"@,
            item.common.omit_response_on_success,
        ) + seq![("relative_url"@, JsonValue::String(item.common.relative_url))],
    )
}

/// The views of a list of operations.
pub open spec fn items_view(items: Seq<Item>) -> Seq<ItemView> {
    Seq::new(items.len(), |i: int| items[i]@)
}

/// The batch array of a list of operations.
pub open spec fn encoded_batch(items: Seq<ItemView>) -> JsonValue {
    JsonValue::Array(Seq::new(items.len(), |i: int| encoded_item(items[i])))
}

impl ItemCommon {
    /// The common part of an operation: the URL with its parameters, and
    /// the name with the choice for the reply where the operation is named.
    pub fn new(
        name: Option<(&str, ResponseOnSuccess)>,
        relative_url: &str,
        params: &[(&str, &str)],
    ) -> (r: Self)
        ensures
            r@ == common_of(
                match name {
                    Some((n, on_success)) => Some((n@, on_success)),
                    None => None,
                },
                relative_url@,
                borrowed_pairs(params@),
            ),
            r@.well_formed(),
    {
        let (name, omit_response_on_success) = match name {
            Some((name, response_on_success)) => (
                Some(name.to_owned()),
                Some(
                    match response_on_success {
                        ResponseOnSuccess::Omit => true,
                        ResponseOnSuccess::Preserve => false,
                    },
                ),
            ),
            None => (None, None),
        };
        Self {
            relative_url: Self::relative_url_with_params(relative_url, params),
            name,
            omit_response_on_success,
        }
    }

    /// The relative URL with the parameters as its query.
    pub fn relative_url_with_params(relative_url: &str, params: &[(&str, &str)]) -> (r: String)
        ensures
            r@ == url_with_params(relative_url@, borrowed_pairs(params@)),
    {
        if params.len() == 0 {
            relative_url.to_owned()
        } else {
            proof {
                reveal_strlit("?");
            }
            let mut out = relative_url.to_owned();
            out.append("?");
            let query = join_query(params);
            out.append(query.as_str());
            assert(out@ =~= relative_url@ + seq!['?'] + query_string(borrowed_pairs(params@)));
            out
        }
    }
}

fn push_text_member(out: &mut Vec<(String, Json)>, key: &str, value: &Option<String>)
    ensures
        member_views(final(out)@) == member_views(old(out)@) + text_member(
            key@,
            optional_text(*value),
        ),
{
    match value {
        Some(t) => {
            push_member(out, key, Json::String(t.clone()));
        },
        None => {
            assert(member_views(out@) =~= member_views(old(out)@) + Seq::empty());
        },
    }
}

fn push_bool_member(out: &mut Vec<(String, Json)>, key: &str, value: Option<bool>)
    ensures
        member_views(final(out)@) == member_views(old(out)@) + bool_member(key@, value),
{
    match value {
        Some(b) => {
            push_member(out, key, Json::Bool(b));
        },
        None => {
            assert(member_views(out@) =~= member_views(old(out)@) + Seq::empty());
        },
    }
}

impl Item {
    fn parts(&self) -> (r: (&'static str, &Option<String>, &ItemCommon))
        ensures
            r.0@ == method_name(self@.method),
            optional_text(*r.1) == self@.body,
            r.2@ == self@.common,
    {
        match self {
            Item::Get(common) => ("GET", &None, common),
            Item::Delete(common) => ("DELETE", &None, common),
            Item::Post { body, common } => ("POST", body, common),
            Item::Put { body, common } => ("PUT", body, common),
        }
    }

    /// The element of the batch array that stands for the operation.
    pub fn to_json(&self) -> (r: Json)
        ensures
            r@ == encoded_item(self@),
    {
        let (method, body, common) = self.parts();
        let mut members: Vec<(String, Json)> = Vec::new();
        assert(member_views(members@) =~= Seq::empty());
        push_text_member(&mut members, "body", body);
        push_member(&mut members, "method", Json::text(method));
        push_text_member(&mut members, "name", &common.name);
        push_bool_member(
            &mut members,
            "omit_response_on_success",
            common.omit_response_on_success,
        );
        push_member(&mut members, "relative_url", Json::String(common.relative_url.clone()));
        proof {
            assert(member_views(members@) =~= encoded_item(self@)->Object_0);
        }
        Json::object(members)
    }
}

/// A batch that is ready to be sent.
pub struct BatchRequest {
    inner: Json,
    batch_count: usize,
}

impl View for BatchRequest {
    type V = JsonValue;

    closed spec fn view(&self) -> JsonValue {
        self.inner@
    }
}

impl BatchRequest {
    /// The number of operations in the batch.
    pub closed spec fn count(&self) -> usize {
        self.batch_count
    }

    /// The number of operations in the batch.
    pub fn batch_count(&self) -> (r: usize)
        ensures
            r == self.count(),
    {
        self.batch_count
    }

    /// The text of the batch array: the value of the form field `batch`.
    pub fn to_string(&self) -> (r: String)
        ensures
            r@ == rendered(self@),
    {
        render(&self.inner)
    }

    /// The batch array.
    pub fn into_json(self) -> (r: Json)
        ensures
            r@ == self@,
    {
        self.inner
    }
}

impl From<BatchRequest> for Json {
    /// The batch array.
    fn from(batch: BatchRequest) -> (r: Json) {
        batch.inner
    }
}

impl vstd::std_specs::convert::FromSpecImpl<BatchRequest> for Json {
    open spec fn obeys_from_spec() -> bool {
        true
    }

    closed spec fn from_spec(batch: BatchRequest) -> Json {
        batch.inner
    }
}

/// What `Json::from` makes of a batch is its batch array.
pub proof fn lemma_from_is_the_batch_array(batch: BatchRequest)
    ensures
        <Json as vstd::std_specs::convert::FromSpec<BatchRequest>>::from_spec(batch)@ == batch@,
{
}

/// Collects the operations of a batch, in their order.
pub struct Builder {
    items: Vec<Item>,
}

impl View for Builder {
    type V = Seq<ItemView>;

    closed spec fn view(&self) -> Seq<ItemView> {
        items_view(self.items@)
    }
}

/// Every operation has its name and its choice for the reply together, or
/// neither.
pub open spec fn all_well_formed(items: Seq<ItemView>) -> bool {
    forall|i: int| 0 <= i < items.len() ==> (#[trigger] items[i]).common.well_formed()
}

impl Builder {
    #[verifier::type_invariant]
    closed spec fn holds_well_formed_items(&self) -> bool {
        all_well_formed(items_view(self.items@))
    }

    /// A batch without operations.
    pub fn new() -> (r: Self)
        ensures
            r@ == Seq::<ItemView>::empty(),
    {
        let r = Self { items: Vec::new() };
        assert(r@ =~= Seq::<ItemView>::empty());
        r
    }

    /// A batch without operations, with room for `capacity` of them.
    pub fn with_capacity(capacity: usize) -> (r: Self)
        ensures
            r@ == Seq::<ItemView>::empty(),
    {
        let r = Self { items: Vec::with_capacity(capacity) };
        assert(r@ =~= Seq::<ItemView>::empty());
        r
    }

    /// Adds a GET; for chaining up to `build`.
    pub fn get(self, relative_url: &str, params: &[(&str, &str)]) -> (r: Self)
        ensures
            r@ == self@.push(get_item(None, relative_url@, borrowed_pairs(params@))),
    {
        let mut batch = self;
        batch.add_get(relative_url, params);
        batch
    }

    /// Adds a GET; for use in a loop.
    pub fn add_get(&mut self, relative_url: &str, params: &[(&str, &str)])
        ensures
            final(self)@ == old(self)@.push(
                get_item(None, relative_url@, borrowed_pairs(params@)),
            ),
    {
        self.add_get_internal(None, relative_url, params);
    }

    /// Adds a named GET; for chaining up to `build`.
    pub fn get_with_name(
        self,
        name: &str,
        relative_url: &str,
        params: &[(&str, &str)],
        response_on_success: ResponseOnSuccess,
    ) -> (r: Self)
        ensures
            r@ == self@.push(
                get_item(
                    Some((name@, response_on_success)),
                    relative_url@,
                    borrowed_pairs(params@),
                ),
            ),
    {
        let mut batch = self;
        batch.add_get_with_name(name, relative_url, params, response_on_success);
        batch
    }

    /// Adds a named GET; for use in a loop.
    pub fn add_get_with_name(
        &mut self,
        name: &str,
        relative_url: &str,
        params: &[(&str, &str)],
        response_on_success: ResponseOnSuccess,
    )
        ensures
            final(self)@ == old(self)@.push(
                get_item(
                    Some((name@, response_on_success)),
                    relative_url@,
                    borrowed_pairs(params@),
                ),
            ),
    {
        self.add_get_internal(Some((name, response_on_success)), relative_url, params);
    }

    /// Adds a GET with or without a name.
    pub fn add_get_internal(
        &mut self,
        name: Option<(&str, ResponseOnSuccess)>,
        relative_url: &str,
        params: &[(&str, &str)],
    )
        ensures
            final(self)@ == old(self)@.push(
                get_item(
                    match name {
                        Some((n, on_success)) => Some((n@, on_success)),
                        None => None,
                    },
                    relative_url@,
                    borrowed_pairs(params@),
                ),
            ),
    {
        proof {
            use_type_invariant(&*self);
        }
        let item = Item::Get(ItemCommon::new(name, relative_url, params));
        let mut items: Vec<Item> = Vec::new();
        assert(all_well_formed(items_view(items@)));
        core::mem::swap(&mut self.items, &mut items);
        items.push(item);
        assert(items_view(items@) =~= old(self)@.push(item@));
        self.items = items;
    }

    /// The batch: the array of the operations in their order, and their
    /// number. It never fails.
    pub fn build(self) -> (r: Result<BatchRequest, FbapiError>)
        ensures
            r is Ok,
            r->Ok_0@ == encoded_batch(self@),
            r->Ok_0.count() == self@.len(),
            all_well_formed(self@),
    {
        proof {
            use_type_invariant(&self);
        }
        let batch_count = self.items.len();
        let mut elements: Vec<Json> = Vec::new();
        let mut i: usize = 0;
        while i < self.items.len()
            invariant
                i <= self.items.len(),
                elements.len() == i,
                forall|k: int| 0 <= k < i ==> elements[k]@ == encoded_item(self.items[k]@),
            decreases self.items.len() - i,
        {
            elements.push(self.items[i].to_json());
            i += 1;
        }
        let inner = Json::Array(elements);
        proof {
            assert(inner@->Array_0 =~= encoded_batch(self@)->Array_0);
        }
        Ok(BatchRequest { inner, batch_count })
    }
}

/// What becomes of the body of one reply once it is read: the failure to
/// read it, the report of the platform where the body has an `error` object,
/// else the body itself.
pub open spec fn judged(body: Option<JsonValue>) -> Result<JsonValue, ErrorView> {
    match body {
        Some(doc) => if doc.reports_error() {
            Err(ErrorView::Facebook(doc))
        } else {
            Ok(doc)
        },
        None => Err(ErrorView::Json),
    }
}

/// What becomes of one element of the array of replies. Its `body`, where
/// that is a text, is read as a document of its own and judged; a `null`
/// element, which stands for a reply that was left out or timed out, is a
/// `null` success; any other element is of an unexpected shape.
pub open spec fn shaped(entry: JsonValue) -> Result<JsonValue, ErrorView> {
    match entry.member("body"@) {
        Some(JsonValue::String(text)) => judged(parsed(text)),
        _ => if entry is Null {
            Ok(JsonValue::Null)
        } else {
            Err(ErrorView::UnExpected(entry))
        },
    }
}

/// The views of a list of replies.
pub open spec fn replies_view(replies: Seq<Result<Json, FbapiError>>) -> Seq<
    Result<JsonValue, ErrorView>,
> {
    Seq::new(replies.len(), |i: int| reply_view(replies[i]))
}

/// What the reply to a batch unfolds into: one result for each element of
/// the array, in their order, or the failure for a reply that is no array.
pub open spec fn shaped_reply(res: JsonValue) -> Result<
    Seq<Result<JsonValue, ErrorView>>,
    ErrorView,
> {
    match res {
        JsonValue::Array(entries) => Ok(entries.map_values(|e: JsonValue| shaped(e))),
        _ => Err(ErrorView::UnExpected(res)),
    }
}

/// The view of the results of a batch, or of its failure.
pub open spec fn batch_view(r: Result<Vec<Result<Json, FbapiError>>, FbapiError>) -> Result<
    Seq<Result<JsonValue, ErrorView>>,
    ErrorView,
> {
    match r {
        Ok(replies) => Ok(replies_view(replies@)),
        Err(e) => Err(e@),
    }
}

impl Product for Vec<Result<Json, FbapiError>> {
    type Value = Seq<Result<JsonValue, ErrorView>>;

    open spec fn value(&self) -> Seq<Result<JsonValue, ErrorView>> {
        replies_view(self@)
    }
}

/// Judges the body of one reply, read or not.
pub fn judge_body(body: Result<Json, serde_json::Error>) -> (r: Result<Json, FbapiError>)
    ensures
        reply_view(r) == judged(
            match body {
                Ok(doc) => Some(doc@),
                Err(_) => None,
            },
        ),
{
    match body {
        Ok(doc) => {
            if doc.reports_error() {
                Err(FbapiError::Facebook(doc))
            } else {
                Ok(doc)
            }
        },
        Err(e) => Err(FbapiError::Json(e)),
    }
}

/// Turns one element of the array of replies into the result of its
/// operation.
pub fn shape_entry(entry: Json) -> (r: Result<Json, FbapiError>)
    ensures
        reply_view(r) == shaped(entry@),
{
    match entry.member("body") {
        Some(body) => {
            match body.as_str() {
                Some(text) => {
                    return judge_body(read_text(text));
                },
                None => {},
            }
        },
        None => {},
    }
    if entry.is_null() {
        Ok(Json::Null)
    } else {
        Err(FbapiError::UnExpected(entry))
    }
}

/// Unfolds the reply to a batch into one result for each operation, in
/// their order. A reply that is no array is of an unexpected shape as a
/// whole; an element of an unexpected shape fails its own position only.
pub fn response_shaper(res: Json) -> (r: Result<Vec<Result<Json, FbapiError>>, FbapiError>)
    ensures
        batch_view(r) == shaped_reply(res@),
{
    let mut list = match res {
        Json::Array(items) => items,
        other => {
            return Err(FbapiError::UnExpected(other));
        },
    };
    let ghost entries = item_views(list@);
    assert(res@->Array_0 =~= entries);
    let mut replies: Vec<Result<Json, FbapiError>> = Vec::new();
    let mut i: usize = 0;
    while i < list.len()
        invariant
            i <= list.len(),
            replies.len() == i,
            entries.len() == list.len(),
            forall|k: int| i <= k < list.len() ==> list[k]@ == entries[k],
            forall|k: int| 0 <= k < i ==> reply_view(#[trigger] replies[k]) == shaped(entries[k]),
        decreases list.len() - i,
    {
        let mut entry = Json::Null;
        list.set_and_swap(i, &mut entry);
        replies.push(shape_entry(entry));
        i += 1;
    }
    proof {
        assert(replies_view(replies@) =~= entries.map_values(|e: JsonValue| shaped(e)));
    }
    Ok(replies)
}

/// Every array of replies unfolds, whatever its elements are: there is one
/// result for each element, at the element's position, and it is what the
/// element alone is shaped into. An element of an unexpected shape fails its
/// own position and no other.
pub proof fn lemma_every_position_has_its_result(entries: Seq<JsonValue>)
    ensures
        shaped_reply(JsonValue::Array(entries)) matches Ok(results) && results.len()
            == entries.len() && forall|i: int|
            0 <= i < entries.len() ==> results[i] == shaped(#[trigger] entries[i]),
{
}

} // verus!
