//! JSON values as plain data, and the parse of one line of text into one.
//! Parsing is serde_json's; what is read out of a value is verified.
use vstd::prelude::*;
use crate::text::str_eq;

verus! {

/// A JSON value. Numbers keep their text; an object keeps its members in
/// the order serde_json hands them out, each key once.
pub enum Json {
    Null,
    Bool(bool),
    Number(String),
    Str(String),
    Array(Vec<Json>),
    Object(Vec<(String, Json)>),
}

/// The plain meaning of a [`Json`].
pub enum JsonView {
    Null,
    Bool(bool),
    Number(Seq<char>),
    Str(Seq<char>),
    Array(Seq<JsonView>),
    Object(Seq<(Seq<char>, JsonView)>),
}

pub open spec fn json_view(j: Json) -> JsonView
    decreases j,
{
    match j {
        Json::Null => JsonView::Null,
        Json::Bool(b) => JsonView::Bool(b),
        Json::Number(n) => JsonView::Number(n@),
        Json::Str(s) => JsonView::Str(s@),
        Json::Array(a) => JsonView::Array(json_seq_view(a@)),
        Json::Object(o) => JsonView::Object(json_members_view(o@)),
    }
}

pub open spec fn json_seq_view(s: Seq<Json>) -> Seq<JsonView>
    decreases s,
{
    if s.len() == 0 {
        seq![]
    } else {
        json_seq_view(s.subrange(0, s.len() - 1)).push(json_view(s[s.len() - 1]))
    }
}

pub open spec fn json_members_view(s: Seq<(String, Json)>) -> Seq<(Seq<char>, JsonView)>
    decreases s,
{
    if s.len() == 0 {
        seq![]
    } else {
        json_members_view(s.subrange(0, s.len() - 1)).push(
            (s[s.len() - 1].0@, json_view(s[s.len() - 1].1)),
        )
    }
}

pub proof fn lemma_seq_view(s: Seq<Json>)
    ensures
        json_seq_view(s).len() == s.len(),
        forall|i: int| 0 <= i < s.len() ==> #[trigger] json_seq_view(s)[i] == json_view(s[i]),
    decreases s.len(),
{
    if s.len() > 0 {
        let d = s.subrange(0, s.len() - 1);
        lemma_seq_view(d);
        assert forall|i: int| 0 <= i < s.len() implies #[trigger] json_seq_view(s)[i] == json_view(
            s[i],
        ) by {
            if i < s.len() - 1 {
                assert(d[i] == s[i]);
            }
        }
    }
}

pub proof fn lemma_members_view(s: Seq<(String, Json)>)
    ensures
        json_members_view(s).len() == s.len(),
        forall|i: int|
            0 <= i < s.len() ==> #[trigger] json_members_view(s)[i] == (s[i].0@, json_view(s[i].1)),
    decreases s.len(),
{
    if s.len() > 0 {
        let d = s.subrange(0, s.len() - 1);
        lemma_members_view(d);
        assert forall|i: int| 0 <= i < s.len() implies #[trigger] json_members_view(s)[i] == (
            s[i].0@,
            json_view(s[i].1),
        ) by {
            if i < s.len() - 1 {
                assert(d[i] == s[i]);
            }
        }
    }
}

/// The value of the first member named `key`.
pub open spec fn member_in(ms: Seq<(Seq<char>, JsonView)>, key: Seq<char>) -> Option<JsonView>
    decreases ms.len(),
{
    if ms.len() == 0 {
        None
    } else if ms[0].0 == key {
        Some(ms[0].1)
    } else {
        member_in(ms.drop_first(), key)
    }
}

/// `value.get(key)` of serde_json: the member `key` of an object, `None`
/// for a missing key or a value that is not an object.
pub open spec fn member(j: JsonView, key: Seq<char>) -> Option<JsonView> {
    match j {
        JsonView::Object(ms) => member_in(ms, key),
        _ => None,
    }
}

/// The string, when `j` is one (`as_str`).
pub open spec fn as_str(j: Option<JsonView>) -> Option<Seq<char>> {
    match j {
        Some(JsonView::Str(s)) => Some(s),
        _ => None,
    }
}

pub fn get_member<'a>(v: &'a Json, key: &str) -> (r: Option<&'a Json>)
    ensures
        match r {
            Some(x) => member(json_view(*v), key@) == Some(json_view(*x)),
            None => member(json_view(*v), key@) is None,
        },
{
    match v {
        Json::Object(o) => {
            let ghost ms = json_members_view(o@);
            proof {
                lemma_members_view(o@);
                assert(ms.skip(0) =~= ms);
            }
            let mut i: usize = 0;
            while i < o.len()
                invariant
                    i <= o@.len(),
                    ms == json_members_view(o@),
                    json_view(*v) == JsonView::Object(ms),
                    ms.len() == o@.len(),
                    forall|k: int| 0 <= k < o@.len() ==> #[trigger] ms[k] == (o@[k].0@, json_view(o@[k].1)),
                    member_in(ms, key@) == member_in(ms.skip(i as int), key@),
                decreases o@.len() - i,
            {
                proof {
                    assert(ms.skip(i as int).drop_first() =~= ms.skip(i + 1));
                    assert(ms.skip(i as int)[0] == ms[i as int]);
                }
                if str_eq(o[i].0.as_str(), key) {
                    proof {
                        assert(ms[i as int] == (o@[i as int].0@, json_view(o@[i as int].1)));
                        assert(member_in(ms.skip(i as int), key@) == Some(ms[i as int].1));
                        assert(json_view(*v) == JsonView::Object(ms));
                    }
                    return Some(&o[i].1);
                }
                i += 1;
            }
            assert(ms.skip(i as int).len() == 0);
            assert(json_view(*v) == JsonView::Object(ms));
            None
        },
        _ => None,
    }
}

pub fn get_str<'a>(v: &'a Json, key: &str) -> (r: Option<&'a String>)
    ensures
        match r {
            Some(x) => as_str(member(json_view(*v), key@)) == Some(x@),
            None => as_str(member(json_view(*v), key@)) is None,
        },
{
    match get_member(v, key) {
        Some(Json::Str(s)) => Some(s),
        _ => None,
    }
}

/// Declares `serde_json::Value` so the conversion below can name it.
#[verifier::external_type_specification]
#[verifier::external_body]
pub struct ExJsonValue(serde_json::Value);

/// `serde_json::Value` taken apart into [`Json`], one arm per variant; a
/// number keeps its `Display` text.
#[verifier::external_body]
fn json_from_value(v: serde_json::Value) -> (j: Json) {
    match v {
        serde_json::Value::Null => Json::Null,
        serde_json::Value::Bool(b) => Json::Bool(b),
        serde_json::Value::Number(n) => Json::Number(n.to_string()),
        serde_json::Value::String(s) => Json::Str(s),
        serde_json::Value::Array(a) => Json::Array(a.into_iter().map(json_from_value).collect()),
        serde_json::Value::Object(o) => Json::Object(
            o.into_iter().map(|(k, x)| (k, json_from_value(x))).collect(),
        ),
    }
}

/// What `serde_json::from_str::<serde_json::Value>` makes of a text, as
/// plain data; `None` when the text is not one JSON value.
pub uninterp spec fn json_of_line(line: Seq<char>) -> Option<JsonView>;

pub open spec fn opt_json_view(o: Option<Json>) -> Option<JsonView> {
    match o {
        Some(j) => Some(json_view(j)),
        None => None,
    }
}

/// `serde_json::from_str::<serde_json::Value>(line)`, converted. The
/// result is a function of the text alone.
#[verifier::external_body]
pub(crate) fn parse_json_line(line: &str) -> (r: Option<Json>)
    ensures
        opt_json_view(r) == json_of_line(line@),
{
    serde_json::from_str::<serde_json::Value>(line).ok().map(json_from_value)
}

} // verus!
