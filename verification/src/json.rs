//! The document model: a JSON tree held as plain values.

use crate::text::{owned_texts, same_text};
use vstd::prelude::*;

verus! {

/// A JSON number: a non-negative integer, a negative integer, or the
/// decimal text of a number that is neither.
#[derive(Debug, PartialEq)]
pub enum JsonNumber {
    PosInt(u64),
    NegInt(i64),
    Real(String),
}

/// A JSON document.
///
/// An object keeps its members in a list; where a key occurs more than once,
/// the last occurrence is the member of that name.
#[derive(Debug, PartialEq)]
pub enum Json {
    Null,
    Bool(bool),
    Number(JsonNumber),
    String(String),
    Array(Vec<Json>),
    Object(Vec<(String, Json)>),
}

/// The mathematical value of a [`JsonNumber`].
pub enum NumberValue {
    PosInt(u64),
    NegInt(i64),
    Real(Seq<char>),
}

/// The mathematical value of a [`Json`] document.
pub enum JsonValue {
    Null,
    Bool(bool),
    Number(NumberValue),
    String(Seq<char>),
    Array(Seq<JsonValue>),
    Object(Seq<(Seq<char>, JsonValue)>),
}

impl View for JsonNumber {
    type V = NumberValue;

    open spec fn view(&self) -> NumberValue {
        match self {
            JsonNumber::PosInt(u) => NumberValue::PosInt(*u),
            JsonNumber::NegInt(i) => NumberValue::NegInt(*i),
            JsonNumber::Real(t) => NumberValue::Real(t@),
        }
    }
}

/// The last member named `key` among `members`, if there is one.
pub open spec fn lookup(members: Seq<(Seq<char>, JsonValue)>, key: Seq<char>) -> Option<JsonValue>
    decreases members.len(),
{
    if members.len() == 0 {
        None
    } else if members.last().0 == key {
        Some(members.last().1)
    } else {
        lookup(members.drop_last(), key)
    }
}

impl JsonValue {
    /// The member named `key` of an object; `None` for a missing member and
    /// for a value that is no object.
    pub open spec fn member(self, key: Seq<char>) -> Option<JsonValue> {
        match self {
            JsonValue::Object(members) => lookup(members, key),
            _ => None,
        }
    }

    /// The value reached by following `path` member by member.
    pub open spec fn at(self, path: Seq<Seq<char>>) -> Option<JsonValue>
        decreases path.len(),
    {
        if path.len() == 0 {
            Some(self)
        } else {
            match self.member(path[0]) {
                Some(inner) => inner.at(path.drop_first()),
                None => None,
            }
        }
    }

    /// The text of a string value.
    pub open spec fn as_str(self) -> Option<Seq<char>> {
        match self {
            JsonValue::String(s) => Some(s),
            _ => None,
        }
    }

    /// The truth value of a boolean.
    pub open spec fn as_bool(self) -> Option<bool> {
        match self {
            JsonValue::Bool(b) => Some(b),
            _ => None,
        }
    }

    /// The value of a non-negative integer.
    pub open spec fn as_u64(self) -> Option<u64> {
        match self {
            JsonValue::Number(NumberValue::PosInt(u)) => Some(u),
            _ => None,
        }
    }

    /// The text of the member named `key`, where that member is a text.
    pub open spec fn text_of(self, key: Seq<char>) -> Option<Seq<char>> {
        match self.member(key) {
            Some(value) => value.as_str(),
            None => None,
        }
    }

    /// The truth value of the member named `key`, where that member is one.
    pub open spec fn flag_of(self, key: Seq<char>) -> Option<bool> {
        match self.member(key) {
            Some(value) => value.as_bool(),
            None => None,
        }
    }

    /// Whether the member named `error` is an object: the mark of a reply
    /// in which the platform reports a failure.
    pub open spec fn reports_error(self) -> bool {
        self.member("error"@) matches Some(e) && e is Object
    }
}

/// The mathematical value of a document.
pub open spec fn json_value(doc: Json) -> JsonValue
    decreases doc,
{
    match doc {
        Json::Null => JsonValue::Null,
        Json::Bool(b) => JsonValue::Bool(b),
        Json::Number(n) => JsonValue::Number(n@),
        Json::String(s) => JsonValue::String(s@),
        Json::Array(items) => JsonValue::Array(
            Seq::new(
                items@.len(),
                |i: int|
                    if 0 <= i < items@.len() {
                        json_value(items[i])
                    } else {
                        JsonValue::Null
                    },
            ),
        ),
        Json::Object(members) => JsonValue::Object(
            Seq::new(
                members@.len(),
                |i: int|
                    if 0 <= i < members@.len() {
                        (members[i].0@, json_value(members[i].1))
                    } else {
                        (Seq::empty(), JsonValue::Null)
                    },
            ),
        ),
    }
}

impl View for Json {
    type V = JsonValue;

    open spec fn view(&self) -> JsonValue {
        json_value(*self)
    }
}

impl JsonNumber {
    /// A copy of the number.
    pub fn duplicate(&self) -> (r: JsonNumber)
        ensures
            r@ == self@,
    {
        match self {
            JsonNumber::PosInt(u) => JsonNumber::PosInt(*u),
            JsonNumber::NegInt(i) => JsonNumber::NegInt(*i),
            JsonNumber::Real(t) => JsonNumber::Real(t.clone()),
        }
    }
}

/// The views of the members of an object.
pub open spec fn member_views(members: Seq<(String, Json)>) -> Seq<(Seq<char>, JsonValue)> {
    Seq::new(members.len(), |i: int| (members[i].0@, members[i].1@))
}

/// The views of the items of an array.
pub open spec fn item_views(items: Seq<Json>) -> Seq<JsonValue> {
    Seq::new(items.len(), |i: int| items[i]@)
}

/// The view of an optional document.
pub open spec fn optional_view(doc: Option<&Json>) -> Option<JsonValue> {
    match doc {
        Some(d) => Some(d@),
        None => None,
    }
}

/// What the view of an array and of an object is, over the views of their parts.
pub proof fn lemma_view_of_parts(doc: Json)
    ensures
        doc matches Json::Array(items) ==> doc@ == JsonValue::Array(item_views(items@)),
        doc matches Json::Object(members) ==> doc@ == JsonValue::Object(member_views(members@)),
{
    match doc {
        Json::Array(items) => {
            assert(doc@->Array_0 =~= item_views(items@));
        },
        Json::Object(members) => {
            assert(doc@->Object_0 =~= member_views(members@));
        },
        _ => {},
    }
}

/// Appends the member `key` with `value` to the members of an object.
pub fn push_member(out: &mut Vec<(String, Json)>, key: &str, value: Json)
    ensures
        member_views(final(out)@) == member_views(old(out)@) + seq![(key@, value@)],
{
    out.push((key.to_owned(), value));
    assert(member_views(out@) =~= member_views(old(out)@) + seq![(key@, value@)]);
}

impl Json {
    /// The object with the given members.
    pub fn object(members: Vec<(String, Json)>) -> (r: Json)
        ensures
            r@ == JsonValue::Object(member_views(members@)),
    {
        let doc = Json::Object(members);
        assert(doc@->Object_0 =~= member_views(members@));
        doc
    }

    /// The array with the given items.
    pub fn array(items: Vec<Json>) -> (r: Json)
        ensures
            r@ == JsonValue::Array(item_views(items@)),
    {
        let doc = Json::Array(items);
        assert(doc@->Array_0 =~= item_views(items@));
        doc
    }

    /// A document that holds the text `s`.
    pub fn text(s: &str) -> (r: Json)
        ensures
            r@ == JsonValue::String(s@),
    {
        Json::String(s.to_owned())
    }

    /// The member named `key`.
    pub fn member(&self, key: &str) -> (r: Option<&Json>)
        ensures
            optional_view(r) == self@.member(key@),
    {
        match self {
            Json::Object(members) => {
                proof {
                    lemma_view_of_parts(*self);
                }
                let ghost all = member_views(members@);
                let mut i: usize = members.len();
                assert(all.take(i as int) =~= all);
                while i > 0
                    invariant
                        i <= members.len(),
                        all == member_views(members@),
                        self@ == JsonValue::Object(all),
                        lookup(all, key@) == lookup(all.take(i as int), key@),
                    decreases i,
                {
                    proof {
                        let head = all.take(i as int);
                        assert(head.drop_last() =~= all.take(i - 1));
                        assert(head.last() == all[i - 1]);
                    }
                    if same_text(members[i - 1].0.as_str(), key) {
                        return Some(&members[i - 1].1);
                    }
                    i -= 1;
                }
                None
            },
            _ => None,
        }
    }

    /// The value reached by following `path` member by member.
    pub fn at(&self, path: &[String]) -> (r: Option<&Json>)
        ensures
            optional_view(r) == self@.at(owned_texts(path@)),
    {
        let ghost names = owned_texts(path@);
        let mut current: &Json = self;
        let mut i: usize = 0;
        assert(names.skip(0) =~= names);
        while i < path.len()
            invariant
                i <= path.len(),
                names == owned_texts(path@),
                self@.at(names) == current@.at(names.skip(i as int)),
            decreases path.len() - i,
        {
            proof {
                let rest = names.skip(i as int);
                assert(rest[0] == path@[i as int]@);
                assert(rest.drop_first() =~= names.skip(i + 1));
            }
            match current.member(path[i].as_str()) {
                Some(inner) => {
                    current = inner;
                },
                None => {
                    return None;
                },
            }
            i += 1;
        }
        Some(current)
    }

    /// The text of a string value.
    pub fn as_str(&self) -> (r: Option<&str>)
        ensures
            match r {
                Some(s) => self@.as_str() == Some(s@),
                None => self@.as_str() is None,
            },
    {
        match self {
            Json::String(s) => Some(s.as_str()),
            _ => None,
        }
    }

    /// The truth value of a boolean.
    pub fn as_bool(&self) -> (r: Option<bool>)
        ensures
            r == self@.as_bool(),
    {
        match self {
            Json::Bool(b) => Some(*b),
            _ => None,
        }
    }

    /// The value of a non-negative integer.
    pub fn as_u64(&self) -> (r: Option<u64>)
        ensures
            r == self@.as_u64(),
    {
        match self {
            Json::Number(JsonNumber::PosInt(u)) => Some(*u),
            _ => None,
        }
    }

    /// Whether the document is an object.
    pub fn is_object(&self) -> (r: bool)
        ensures
            r == (self@ is Object),
    {
        match self {
            Json::Object(_) => true,
            _ => false,
        }
    }

    /// Whether the document is `null`.
    pub fn is_null(&self) -> (r: bool)
        ensures
            r == (self@ is Null),
    {
        match self {
            Json::Null => true,
            _ => false,
        }
    }

    /// The text of the member named `key`.
    pub fn text_of(&self, key: &str) -> (r: Option<&str>)
        ensures
            match r {
                Some(s) => self@.text_of(key@) == Some(s@),
                None => self@.text_of(key@) is None,
            },
    {
        match self.member(key) {
            Some(value) => value.as_str(),
            None => None,
        }
    }

    /// The truth value of the member named `key`.
    pub fn flag_of(&self, key: &str) -> (r: Option<bool>)
        ensures
            r == self@.flag_of(key@),
    {
        match self.member(key) {
            Some(value) => value.as_bool(),
            None => None,
        }
    }

    /// Whether the document reports a failure of the platform.
    pub fn reports_error(&self) -> (r: bool)
        ensures
            r == self@.reports_error(),
    {
        match self.member("error") {
            Some(e) => e.is_object(),
            None => false,
        }
    }

    /// A copy of the document.
    pub fn duplicate(&self) -> (r: Json)
        ensures
            r@ == self@,
        decreases self,
    {
        match self {
            Json::Null => Json::Null,
            Json::Bool(b) => Json::Bool(*b),
            Json::Number(n) => Json::Number(n.duplicate()),
            Json::String(s) => Json::String(s.clone()),
            Json::Array(items) => {
                let mut out: Vec<Json> = Vec::new();
                let mut i: usize = 0;
                while i < items.len()
                    invariant
                        i <= items.len(),
                        out.len() == i,
                        self is Array,
                        self->Array_0 == *items,
                        forall|k: int| 0 <= k < i ==> out[k]@ == items[k]@,
                    decreases items.len() - i,
                {
                    out.push(items[i].duplicate());
                    i += 1;
                }
                proof {
                    lemma_view_of_parts(*self);
                    assert(item_views(out@) =~= item_views(items@));
                }
                Json::array(out)
            },
            Json::Object(members) => {
                let mut out: Vec<(String, Json)> = Vec::new();
                let mut i: usize = 0;
                while i < members.len()
                    invariant
                        i <= members.len(),
                        out.len() == i,
                        self is Object,
                        self->Object_0 == *members,
                        forall|k: int|
                            0 <= k < i ==> out[k].0@ == members[k].0@ && out[k].1@
                                == members[k].1@,
                    decreases members.len() - i,
                {
                    out.push((members[i].0.clone(), members[i].1.duplicate()));
                    i += 1;
                }
                proof {
                    lemma_view_of_parts(*self);
                    assert(member_views(out@) =~= member_views(members@));
                }
                Json::object(out)
            },
        }
    }
}

} // verus!
