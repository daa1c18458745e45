//! JSON values as plain data, and how they are read from text.
use crate::model;
use vstd::prelude::*;

verus! {

/// A JSON number.
///
/// A floating point number is held as its IEEE 754 binary64 bit pattern.
#[derive(Clone, Copy, Debug, PartialEq, Eq, Structural)]
pub enum Number {
    /// A non-negative integer.
    PosInt(u64),
    /// A negative integer.
    NegInt(i64),
    /// The bit pattern of a finite number.
    Float(u64),
}

/// A JSON value.
#[derive(Debug, PartialEq)]
pub enum Json {
    Null,
    Bool(bool),
    Number(Number),
    String(String),
    Array(Vec<Json>),
    /// The members in order. No two have the same key.
    Object(Vec<(String, Json)>),
}

/// What a JSON value stands for.
pub enum JsonView {
    Null,
    Bool(bool),
    Number(Number),
    String(Seq<char>),
    Array(Seq<JsonView>),
    Object(Seq<(Seq<char>, JsonView)>),
}

/// Whether a binary64 bit pattern is a finite number: its exponent bits are not all ones.
pub open spec fn is_finite_bits(bits: u64) -> bool {
    bits & 0x7ff0_0000_0000_0000 != 0x7ff0_0000_0000_0000
}

/// Whether `n` is a number that JSON can hold, in its one form.
pub open spec fn valid_number(n: Number) -> bool {
    match n {
        Number::PosInt(_) => true,
        Number::NegInt(i) => i < 0,
        Number::Float(bits) => is_finite_bits(bits),
    }
}

/// Whether no key occurs twice.
pub open spec fn distinct_keys<V>(entries: Seq<(Seq<char>, V)>) -> bool {
    forall|i: int, j: int| 0 <= i < j < entries.len() ==> entries[i].0 != entries[j].0
}

/// Whether `v` is a proper JSON value: its numbers are valid and no object has a key twice.
pub open spec fn valid_json(v: JsonView) -> bool
    decreases v,
{
    match v {
        JsonView::Number(n) => valid_number(n),
        JsonView::Array(items) => forall|i: int|
            0 <= i < items.len() ==> valid_json(#[trigger] items[i]),
        JsonView::Object(members) => {
            &&& distinct_keys(members)
            &&& forall|i: int| 0 <= i < members.len() ==> valid_json((#[trigger] members[i]).1)
        },
        _ => true,
    }
}

/// What `j` stands for.
pub open spec fn json_view(j: Json) -> JsonView
    decreases j,
{
    match j {
        Json::Null => JsonView::Null,
        Json::Bool(b) => JsonView::Bool(b),
        Json::Number(n) => JsonView::Number(n),
        Json::String(s) => JsonView::String(s@),
        Json::Array(items) => JsonView::Array(
            Seq::new(
                items@.len(),
                |i: int|
                    if 0 <= i < items@.len() {
                        json_view(items@[i])
                    } else {
                        JsonView::Null
                    },
            ),
        ),
        Json::Object(members) => JsonView::Object(
            Seq::new(
                members@.len(),
                |i: int|
                    if 0 <= i < members@.len() {
                        (members@[i].0@, json_view(members@[i].1))
                    } else {
                        (Seq::empty(), JsonView::Null)
                    },
            ),
        ),
    }
}

impl View for Json {
    type V = JsonView;

    open spec fn view(&self) -> JsonView {
        json_view(*self)
    }
}

/// What the members of an object stand for.
pub open spec fn member_views(members: Seq<(String, Json)>) -> Seq<(Seq<char>, JsonView)> {
    members.map_values(|m: (String, Json)| (m.0@, m.1@))
}

/// An array stands for what its items stand for, an object for what its members stand for.
pub proof fn lemma_json_view(j: Json)
    ensures
        j matches Json::Array(items) ==> j@ == JsonView::Array(model::views(items@)),
        j matches Json::Object(members) ==> j@ == JsonView::Object(member_views(members@)),
{
    match j {
        Json::Array(items) => {
            assert(j@->Array_0 =~= model::views(items@));
        },
        Json::Object(members) => {
            assert(j@->Object_0 =~= member_views(members@));
        },
        _ => {},
    }
}

#[verifier::external_type_specification]
#[verifier::external_body]
pub struct ExValue(serde_json::Value);

/// What a `serde_json::Value` holds.
pub uninterp spec fn value_contents(value: serde_json::Value) -> JsonView;

/// The outermost layer of a `serde_json::Value`.
pub(crate) enum Layer {
    Null,
    Bool(bool),
    Number(Number),
    String(String),
    Array(Vec<serde_json::Value>),
    Object(Vec<(String, serde_json::Value)>),
}

pub(crate) open spec fn element_contents(items: Seq<serde_json::Value>) -> Seq<JsonView> {
    items.map_values(|v: serde_json::Value| value_contents(v))
}

pub(crate) open spec fn member_contents(members: Seq<(String, serde_json::Value)>) -> Seq<
    (Seq<char>, JsonView),
> {
    members.map_values(|m: (String, serde_json::Value)| (m.0@, value_contents(m.1)))
}

pub(crate) open spec fn layer_contents(layer: Layer) -> JsonView {
    match layer {
        Layer::Null => JsonView::Null,
        Layer::Bool(b) => JsonView::Bool(b),
        Layer::Number(n) => JsonView::Number(n),
        Layer::String(s) => JsonView::String(s@),
        Layer::Array(items) => JsonView::Array(element_contents(items@)),
        Layer::Object(members) => JsonView::Object(member_contents(members@)),
    }
}

/// The variants of `serde_json::Value`, told apart. An object's members come in the order in
/// which `serde_json::Map` hands them out, no key twice. A `serde_json::Number` is a
/// non-negative integer, a negative integer or a finite float, as its `as_u64`, `as_i64` and
/// `as_f64` tell.
#[verifier::external_body]
fn peel(value: serde_json::Value) -> (r: Layer)
    ensures
        value_contents(value) == layer_contents(r),
        r matches Layer::Number(n) ==> valid_number(n),
        r matches Layer::Object(members) ==> distinct_keys(member_contents(members@)),
{
    match value {
        serde_json::Value::Null => Layer::Null,
        serde_json::Value::Bool(b) => Layer::Bool(b),
        serde_json::Value::Number(n) => Layer::Number(match (n.as_u64(), n.as_i64(), n.as_f64()) {
            (Some(u), _, _) => Number::PosInt(u),
            (None, Some(i), _) => Number::NegInt(i),
            (None, None, x) => Number::Float(x.unwrap_or_default().to_bits()),
        }),
        serde_json::Value::String(s) => Layer::String(s),
        serde_json::Value::Array(items) => Layer::Array(items),
        serde_json::Value::Object(members) => Layer::Object(members.into_iter().collect()),
    }
}

impl Json {
    /// The plain form of a `serde_json::Value`.
    pub fn from_value(value: serde_json::Value) -> (r: Json)
        ensures
            r@ == value_contents(value),
            valid_json(r@),
        decreases value_contents(value),
    {
        let ghost whole = value_contents(value);
        match peel(value) {
            Layer::Null => Json::Null,
            Layer::Bool(b) => Json::Bool(b),
            Layer::Number(n) => Json::Number(n),
            Layer::String(s) => Json::String(s),
            Layer::Array(items) => {
                let ghost parts = element_contents(items@);
                let mut out: Vec<Json> = Vec::new();
                for item in it: items
                    invariant
                        it.seq() == items@,
                        whole == value_contents(value),
                        whole == JsonView::Array(parts),
                        parts == element_contents(items@),
                        out@.len() == it.index(),
                        forall|k: int|
                            0 <= k < out@.len() ==> (#[trigger] out@[k])@ == parts[k]
                                && valid_json(out@[k]@),
                {
                    let ghost k = it.index() as int;
                    assert(parts[k] == value_contents(item));
                    assert(decreases_to!(whole => whole->Array_0));
                    assert(decreases_to!(whole->Array_0 => whole->Array_0[k]));
                    let converted = Json::from_value(item);
                    out.push(converted);
                }
                let r = Json::Array(out);
                proof {
                    lemma_json_view(r);
                    assert(model::views(out@) =~= parts);
                    assert forall|k: int| 0 <= k < parts.len() implies valid_json(
                        #[trigger] parts[k],
                    ) by {
                        assert(out@[k]@ == parts[k]);
                    }
                }
                r
            },
            Layer::Object(members) => {
                let ghost parts = member_contents(members@);
                let mut out: Vec<(String, Json)> = Vec::new();
                for member in it: members
                    invariant
                        it.seq() == members@,
                        whole == value_contents(value),
                        whole == JsonView::Object(parts),
                        parts == member_contents(members@),
                        out@.len() == it.index(),
                        forall|k: int|
                            0 <= k < out@.len() ==> (#[trigger] out@[k]).0@ == parts[k].0
                                && out@[k].1@ == parts[k].1 && valid_json(out@[k].1@),
                {
                    let ghost k = it.index() as int;
                    assert(parts[k] == (member.0@, value_contents(member.1)));
                    assert(decreases_to!(whole => whole->Object_0));
                    assert(decreases_to!(whole->Object_0 => whole->Object_0[k]));
                    assert(decreases_to!(whole->Object_0[k] => whole->Object_0[k].1));
                    let converted = Json::from_value(member.1);
                    out.push((member.0, converted));
                }
                let r = Json::Object(out);
                proof {
                    lemma_json_view(r);
                    assert(member_views(out@) =~= parts);
                    assert forall|k: int| 0 <= k < parts.len() implies valid_json(
                        (#[trigger] parts[k]).1,
                    ) by {
                        assert(out@[k].1@ == parts[k].1);
                    }
                }
                r
            },
        }
    }
}

/// What `serde_json::from_str` reads from a text: nothing where the text is no JSON.
pub uninterp spec fn parsed_contents(text: Seq<char>) -> Option<JsonView>;

/// `serde_json::from_str` into a `serde_json::Value`: what comes out is a function of the text
/// alone. The grammar itself is left unsaid.
#[verifier::external_body]
fn parse_value(text: &str) -> (r: Option<serde_json::Value>)
    ensures
        r is Some == parsed_contents(text@) is Some,
        r matches Some(value) ==> parsed_contents(text@) == Some(value_contents(value)),
{
    serde_json::from_str(text).ok()
}

impl Json {
    /// Reads a JSON text. `None` where the text is no JSON.
    pub fn parse(text: &str) -> (r: Option<Json>)
        ensures
            model::opt_view(r) == parsed_contents(text@),
            r matches Some(j) ==> valid_json(j@),
    {
        match parse_value(text) {
            Some(value) => Some(Json::from_value(value)),
            None => None,
        }
    }
}

} // verus!
