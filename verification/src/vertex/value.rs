//! JSON values as `google.protobuf.Value` and back.
use crate::error::{CompletionError, CompletionErrorView};
use crate::json;
use crate::json::{Json, JsonView, Number};
use crate::model;
use crate::proto;
use crate::proto::{Kind, ListValue, ProtoValue, Struct, StructView, ValueView};
use vstd::prelude::*;

verus! {

/// The bit pattern of the binary64 number nearest to an integer.
pub uninterp spec fn integer_bits(n: int) -> u64;

/// `serde_json::Number::as_f64` of an integer, as a bit pattern: a function of the integer
/// alone, and a finite number. How it rounds is left unsaid.
#[verifier::external_body]
fn integer_as_f64(n: i128) -> (r: u64)
    requires
        i64::MIN <= n <= u64::MAX,
    ensures
        r == integer_bits(n as int),
        json::is_finite_bits(r),
{
    serde_json::Number::from_i128(n).and_then(|n| n.as_f64()).unwrap_or_default().to_bits()
}

/// The bit pattern of a JSON number as a binary64 number.
pub open spec fn number_bits(n: Number) -> u64 {
    match n {
        Number::PosInt(u) => integer_bits(u as int),
        Number::NegInt(i) => integer_bits(i as int),
        Number::Float(bits) => bits,
    }
}

/// The bit pattern of a JSON number as a binary64 number.
pub fn number_as_f64(n: Number) -> (r: u64)
    ensures
        r == number_bits(n),
        json::valid_number(n) ==> json::is_finite_bits(r),
{
    match n {
        Number::PosInt(u) => integer_as_f64(u as i128),
        Number::NegInt(i) => integer_as_f64(i as i128),
        Number::Float(bits) => bits,
    }
}

/// The protobuf value of a JSON value: the same shape, every number as binary64.
pub open spec fn json_to_value(j: JsonView) -> ValueView
    decreases j,
{
    match j {
        JsonView::Null => ValueView::Null(0),
        JsonView::Bool(b) => ValueView::Bool(b),
        JsonView::Number(n) => ValueView::Number(number_bits(n)),
        JsonView::String(s) => ValueView::String(s),
        JsonView::Array(items) => ValueView::List(
            Seq::new(
                items.len(),
                |i: int|
                    if 0 <= i < items.len() {
                        json_to_value(items[i])
                    } else {
                        ValueView::Unset
                    },
            ),
        ),
        JsonView::Object(members) => ValueView::Struct(
            Seq::new(
                members.len(),
                |i: int|
                    if 0 <= i < members.len() {
                        (members[i].0, json_to_value(members[i].1))
                    } else {
                        (Seq::empty(), ValueView::Unset)
                    },
            ),
        ),
    }
}

/// The protobuf struct of the members of a JSON object.
pub open spec fn members_to_struct(members: Seq<(Seq<char>, JsonView)>) -> StructView {
    members.map_values(|m: (Seq<char>, JsonView)| (m.0, json_to_value(m.1)))
}

/// A protobuf struct, or the error that is reported in its place.
pub type StructResult = Result<StructView, CompletionErrorView>;

/// What a JSON value comes to as a protobuf struct: only an object is one.
pub open spec fn json_to_struct(j: JsonView) -> StructResult {
    match j {
        JsonView::Object(members) => Ok(members_to_struct(members)),
        _ => Err(
            CompletionErrorView::RequestError("Expected a JSON object for google.protobuf.Struct"@),
        ),
    }
}

/// The JSON value of a protobuf value. An unset value and a number that is not finite are null.
pub open spec fn value_to_json(v: ValueView) -> JsonView
    decreases v,
{
    match v {
        ValueView::Unset => JsonView::Null,
        ValueView::Null(_) => JsonView::Null,
        ValueView::Bool(b) => JsonView::Bool(b),
        ValueView::Number(bits) => if json::is_finite_bits(bits) {
            JsonView::Number(Number::Float(bits))
        } else {
            JsonView::Null
        },
        ValueView::String(s) => JsonView::String(s),
        ValueView::Struct(fields) => JsonView::Object(
            Seq::new(
                fields.len(),
                |i: int|
                    if 0 <= i < fields.len() {
                        (fields[i].0, value_to_json(fields[i].1))
                    } else {
                        (Seq::empty(), JsonView::Null)
                    },
            ),
        ),
        ValueView::List(values) => JsonView::Array(
            Seq::new(
                values.len(),
                |i: int|
                    if 0 <= i < values.len() {
                        value_to_json(values[i])
                    } else {
                        JsonView::Null
                    },
            ),
        ),
    }
}

/// The JSON object of a protobuf struct.
pub open spec fn struct_to_json(fields: StructView) -> JsonView {
    value_to_json(ValueView::Struct(fields))
}

/// `j` with every number in its binary64 form.
pub open spec fn with_float_numbers(j: JsonView) -> JsonView
    decreases j,
{
    match j {
        JsonView::Number(n) => JsonView::Number(Number::Float(number_bits(n))),
        JsonView::Array(items) => JsonView::Array(
            Seq::new(
                items.len(),
                |i: int|
                    if 0 <= i < items.len() {
                        with_float_numbers(items[i])
                    } else {
                        JsonView::Null
                    },
            ),
        ),
        JsonView::Object(members) => JsonView::Object(
            Seq::new(
                members.len(),
                |i: int|
                    if 0 <= i < members.len() {
                        (members[i].0, with_float_numbers(members[i].1))
                    } else {
                        (Seq::empty(), JsonView::Null)
                    },
            ),
        ),
        _ => j,
    }
}

/// Whether a protobuf value is one that JSON can express in full: every value inside it is set,
/// every null is the one null, every number is finite.
pub open spec fn expressible(v: ValueView) -> bool
    decreases v,
{
    match v {
        ValueView::Unset => false,
        ValueView::Null(n) => n == 0,
        ValueView::Number(bits) => json::is_finite_bits(bits),
        ValueView::Struct(fields) => forall|i: int|
            0 <= i < fields.len() ==> expressible((#[trigger] fields[i]).1),
        ValueView::List(values) => forall|i: int|
            0 <= i < values.len() ==> expressible(#[trigger] values[i]),
        _ => true,
    }
}

/// A protobuf value that JSON can express comes back from JSON as it was.
pub proof fn law_value_survives_json(v: ValueView)
    requires
        expressible(v),
    ensures
        json_to_value(value_to_json(v)) == v,
    decreases v,
{
    match v {
        ValueView::Struct(fields) => {
            let back = json_to_value(value_to_json(v))->Struct_0;
            assert forall|i: int| 0 <= i < fields.len() implies back[i] == fields[i] by {
                law_value_survives_json(fields[i].1);
            }
            assert(back =~= fields);
        },
        ValueView::List(values) => {
            let back = json_to_value(value_to_json(v))->List_0;
            assert forall|i: int| 0 <= i < values.len() implies back[i] == values[i] by {
                law_value_survives_json(values[i]);
            }
            assert(back =~= values);
        },
        _ => {},
    }
}

/// The arguments of a function call that JSON can express come back from JSON as they were.
pub proof fn law_struct_survives_json(fields: StructView)
    requires
        expressible(ValueView::Struct(fields)),
    ensures
        json_to_struct(struct_to_json(fields)) == StructResult::Ok(fields),
{
    let v = ValueView::Struct(fields);
    law_value_survives_json(v);
    let members = value_to_json(v)->Object_0;
    assert(members_to_struct(members) =~= json_to_value(value_to_json(v))->Struct_0);
}

/// No field name occurs twice in the struct of an object where no key occurs twice, however
/// deep.
pub proof fn law_json_to_value_keeps_keys_distinct(j: JsonView)
    requires
        json::valid_json(j),
    ensures
        proto::valid_value(json_to_value(j)),
    decreases j,
{
    match j {
        JsonView::Array(items) => {
            let values = json_to_value(j)->List_0;
            assert forall|i: int| 0 <= i < values.len() implies proto::valid_value(
                #[trigger] values[i],
            ) by {
                law_json_to_value_keeps_keys_distinct(items[i]);
            }
        },
        JsonView::Object(members) => {
            let fields = json_to_value(j)->Struct_0;
            assert forall|i: int| 0 <= i < fields.len() implies proto::valid_value(
                (#[trigger] fields[i]).1,
            ) by {
                law_json_to_value_keeps_keys_distinct(members[i].1);
            }
        },
        _ => {},
    }
}

/// What a protobuf value without a doubled field name becomes is a proper JSON value.
pub proof fn law_value_to_json_is_valid(v: ValueView)
    requires
        proto::valid_value(v),
    ensures
        json::valid_json(value_to_json(v)),
    decreases v,
{
    match v {
        ValueView::List(values) => {
            let items = value_to_json(v)->Array_0;
            assert forall|i: int| 0 <= i < items.len() implies json::valid_json(
                #[trigger] items[i],
            ) by {
                law_value_to_json_is_valid(values[i]);
            }
        },
        ValueView::Struct(fields) => {
            let members = value_to_json(v)->Object_0;
            assert forall|i: int| 0 <= i < members.len() implies json::valid_json(
                (#[trigger] members[i]).1,
            ) by {
                law_value_to_json_is_valid(fields[i].1);
            }
        },
        _ => {},
    }
}

/// The protobuf value of a JSON value. Going back gives the JSON value with its numbers in
/// binary64 form.
pub fn json_to_prost_value(value: Json) -> (r: ProtoValue)
    ensures
        r@ == json_to_value(value@),
        json::valid_json(value@) ==> value_to_json(r@) == with_float_numbers(value@),
    decreases value,
{
    proof {
        json::lemma_json_view(value);
    }
    let kind = match value {
        Json::Null => Kind::NullValue(0),
        Json::Bool(b) => Kind::BoolValue(b),
        Json::Number(n) => Kind::NumberValue(number_as_f64(n)),
        Json::String(s) => Kind::StringValue(s),
        Json::Array(items) => {
            let mut values: Vec<ProtoValue> = Vec::new();
            for item in it: items
                invariant
                    it.seq() == items@,
                    value == Json::Array(items),
                    values@.len() == it.index(),
                    forall|k: int|
                        0 <= k < values@.len() ==> (#[trigger] values@[k])@ == json_to_value(
                            items@[k]@,
                        ) && (json::valid_json(items@[k]@) ==> value_to_json(values@[k]@)
                            == with_float_numbers(items@[k]@)),
            {
                let ghost k = it.index() as int;
                assert(item == items@[k]);
                assert(decreases_to!(value => value->Array_0));
                assert(decreases_to!(value->Array_0 => value->Array_0@));
                assert(decreases_to!(value->Array_0@ => value->Array_0@[k]));
                let converted = json_to_prost_value(item);
                values.push(converted);
            }
            proof {
                let whole = ValueView::List(model::views(values@));
                assert(model::views(values@) =~= json_to_value(value@)->List_0);
                if json::valid_json(value@) {
                    let parts = model::views(items@);
                    assert forall|k: int| 0 <= k < parts.len() implies value_to_json(values@[k]@)
                        == with_float_numbers(#[trigger] parts[k]) by {
                        assert(json::valid_json(parts[k]));
                    }
                    assert(value_to_json(whole)->Array_0 =~= with_float_numbers(value@)->Array_0);
                }
            }
            Kind::ListValue(ListValue { values })
        },
        Json::Object(members) => Kind::StructValue(json_members_to_struct(members)),
    };
    let r = ProtoValue { kind: Some(kind) };
    proof {
        proto::lemma_value_view(r);
        if value is Object {
            let parts = json::member_views(value->Object_0@);
            assert(members_to_struct(parts) =~= json_to_value(value@)->Struct_0);
        }
    }
    r
}

/// The protobuf struct of the members of a JSON object.
fn json_members_to_struct(members: Vec<(String, Json)>) -> (r: Struct)
    ensures
        r@ == members_to_struct(json::member_views(members@)),
        json::valid_json(JsonView::Object(json::member_views(members@))) ==> struct_to_json(r@)
            == with_float_numbers(JsonView::Object(json::member_views(members@))),
    decreases members,
{
    let ghost parts = json::member_views(members@);
    let mut fields: Vec<(String, ProtoValue)> = Vec::new();
    for member in it: members
        invariant
            it.seq() == members@,
            parts == json::member_views(members@),
            fields@.len() == it.index(),
            forall|k: int|
                0 <= k < fields@.len() ==> (#[trigger] fields@[k]).0@ == parts[k].0
                    && fields@[k].1@ == json_to_value(parts[k].1) && (json::valid_json(parts[k].1)
                    ==> value_to_json(fields@[k].1@) == with_float_numbers(parts[k].1)),
    {
        let ghost k = it.index() as int;
        assert(member == members@[k]);
        assert(parts[k] == (member.0@, member.1@));
        assert(decreases_to!(members => members@));
        assert(decreases_to!(members@ => members@[k]));
        assert(decreases_to!(members@[k] => members@[k].1));
        let converted = json_to_prost_value(member.1);
        fields.push((member.0, converted));
    }
    let r = Struct { fields };
    proof {
        assert(r@ =~= members_to_struct(parts));
        let whole = JsonView::Object(parts);
        if json::valid_json(whole) {
            assert forall|k: int| 0 <= k < parts.len() implies value_to_json(fields@[k].1@)
                == with_float_numbers((#[trigger] parts[k]).1) by {
                assert(json::valid_json(parts[k].1));
            }
            assert(struct_to_json(r@)->Object_0 =~= with_float_numbers(whole)->Object_0);
        }
    }
    r
}

/// The protobuf struct of a JSON object. Anything else is refused.
pub fn json_to_prost_struct(value: Json) -> (r: Result<Struct, CompletionError>)
    ensures
        model::result_view(r) == json_to_struct(value@),
        r matches Ok(st) ==> json::valid_json(value@) ==> struct_to_json(st@)
            == with_float_numbers(value@),
{
    proof {
        json::lemma_json_view(value);
    }
    match value {
        Json::Object(members) => Ok(json_members_to_struct(members)),
        _ => Err(CompletionError::request("Expected a JSON object for google.protobuf.Struct")),
    }
}

/// Whether a binary64 bit pattern is a finite number.
pub fn is_finite(bits: u64) -> (r: bool)
    ensures
        r == json::is_finite_bits(bits),
{
    bits & 0x7ff0_0000_0000_0000 != 0x7ff0_0000_0000_0000
}

/// The JSON value of a protobuf value.
pub fn prost_value_to_json(v: &ProtoValue) -> (r: Json)
    ensures
        r@ == value_to_json(v@),
        proto::valid_value(v@) ==> json::valid_json(r@),
    decreases v,
{
    proof {
        proto::lemma_value_view(*v);
        if proto::valid_value(v@) {
            law_value_to_json_is_valid(v@);
        }
    }
    match &v.kind {
        None => Json::Null,
        Some(Kind::NullValue(_)) => Json::Null,
        Some(Kind::BoolValue(b)) => Json::Bool(*b),
        Some(Kind::NumberValue(bits)) => {
            if is_finite(*bits) {
                Json::Number(Number::Float(*bits))
            } else {
                Json::Null
            }
        },
        Some(Kind::StringValue(s)) => Json::String(s.clone()),
        Some(Kind::StructValue(st)) => prost_struct_to_json(st),
        Some(Kind::ListValue(list)) => {
            let mut items: Vec<Json> = Vec::new();
            let mut i: usize = 0;
            while i < list.values.len()
                invariant
                    i <= list.values@.len(),
                    v.kind == Some(Kind::ListValue(*list)),
                    items@.len() == i,
                    forall|k: int|
                        0 <= k < items@.len() ==> (#[trigger] items@[k])@ == value_to_json(
                            list.values@[k]@,
                        ),
                decreases list.values@.len() - i,
            {
                assert(decreases_to!(*v => v.kind->0));
                assert(decreases_to!(v.kind->0 => v.kind->0->ListValue_0));
                assert(decreases_to!(*list => list.values));
                assert(decreases_to!(list.values => list.values@));
                assert(decreases_to!(list.values@ => list.values@[i as int]));
                let converted = prost_value_to_json(&list.values[i]);
                items.push(converted);
                i += 1;
            }
            let r = Json::Array(items);
            proof {
                json::lemma_json_view(r);
                assert(model::views(items@) =~= value_to_json(v@)->Array_0);
            }
            r
        },
    }
}

/// The JSON object of a protobuf struct.
pub fn prost_struct_to_json(st: &Struct) -> (r: Json)
    ensures
        r@ == struct_to_json(st@),
        proto::valid_struct(st@) ==> json::valid_json(r@),
    decreases st,
{
    let mut members: Vec<(String, Json)> = Vec::new();
    let mut i: usize = 0;
    while i < st.fields.len()
        invariant
            i <= st.fields@.len(),
            members@.len() == i,
            forall|k: int|
                0 <= k < members@.len() ==> (#[trigger] members@[k]).0@ == st@[k].0
                    && members@[k].1@ == value_to_json(st@[k].1),
        decreases st.fields@.len() - i,
    {
        assert(decreases_to!(*st => st.fields));
        assert(decreases_to!(st.fields => st.fields@));
        assert(decreases_to!(st.fields@ => st.fields@[i as int]));
        assert(decreases_to!(st.fields@[i as int] => st.fields@[i as int].1));
        let converted = prost_value_to_json(&st.fields[i].1);
        members.push((st.fields[i].0.clone(), converted));
        i += 1;
    }
    let r = Json::Object(members);
    proof {
        json::lemma_json_view(r);
        assert(json::member_views(members@) =~= struct_to_json(st@)->Object_0);
        if proto::valid_struct(st@) {
            law_value_to_json_is_valid(ValueView::Struct(st@));
        }
    }
    r
}

} // verus!
