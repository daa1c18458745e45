//! Copies of messages. A copy stands for the same as what it is a copy of.
use crate::model;
use crate::proto;
use crate::proto::{
    Blob, Candidate, Content, Data, FileData, FunctionCall, FunctionResponse, Kind, ListValue, Part,
    ProtoValue, Struct,
};
use vstd::prelude::*;

verus! {

fn copy_value(v: &ProtoValue) -> (r: ProtoValue)
    ensures
        r@ == v@,
    decreases v,
{
    proof {
        proto::lemma_value_view(*v);
    }
    let kind = match &v.kind {
        None => None,
        Some(Kind::NullValue(n)) => Some(Kind::NullValue(*n)),
        Some(Kind::BoolValue(b)) => Some(Kind::BoolValue(*b)),
        Some(Kind::NumberValue(bits)) => Some(Kind::NumberValue(*bits)),
        Some(Kind::StringValue(s)) => Some(Kind::StringValue(s.clone())),
        Some(Kind::StructValue(st)) => Some(Kind::StructValue(copy_struct(st))),
        Some(Kind::ListValue(list)) => {
            let mut values: Vec<ProtoValue> = Vec::new();
            let mut i: usize = 0;
            while i < list.values.len()
                invariant
                    i <= list.values@.len(),
                    v.kind == Some(Kind::ListValue(*list)),
                    values@.len() == i,
                    forall|k: int|
                        0 <= k < values@.len() ==> (#[trigger] values@[k])@ == list.values@[k]@,
                decreases list.values@.len() - i,
            {
                assert(decreases_to!(*v => v.kind->0));
                assert(decreases_to!(v.kind->0 => v.kind->0->ListValue_0));
                assert(decreases_to!(*list => list.values));
                assert(decreases_to!(list.values => list.values@));
                assert(decreases_to!(list.values@ => list.values@[i as int]));
                let value = copy_value(&list.values[i]);
                values.push(value);
                i += 1;
            }
            assert(model::views(values@) =~= list@);
            Some(Kind::ListValue(ListValue { values }))
        },
    };
    let r = ProtoValue { kind };
    proof {
        proto::lemma_value_view(r);
    }
    r
}

fn copy_struct(st: &Struct) -> (r: Struct)
    ensures
        r@ == st@,
    decreases st,
{
    let mut fields: Vec<(String, ProtoValue)> = Vec::new();
    let mut i: usize = 0;
    while i < st.fields.len()
        invariant
            i <= st.fields@.len(),
            fields@.len() == i,
            forall|k: int|
                0 <= k < fields@.len() ==> (#[trigger] fields@[k]).0@ == st@[k].0 && fields@[k].1@
                    == st@[k].1,
        decreases st.fields@.len() - i,
    {
        assert(decreases_to!(*st => st.fields));
        assert(decreases_to!(st.fields => st.fields@));
        assert(decreases_to!(st.fields@ => st.fields@[i as int]));
        assert(decreases_to!(st.fields@[i as int] => st.fields@[i as int].1));
        let value = copy_value(&st.fields[i].1);
        fields.push((st.fields[i].0.clone(), value));
        i += 1;
    }
    let r = Struct { fields };
    assert(r@ =~= st@);
    r
}

fn copy_bytes(bytes: &Vec<u8>) -> (r: Vec<u8>)
    ensures
        r@ == bytes@,
{
    let r = bytes.clone();
    assert(r@ =~= bytes@);
    r
}

impl Clone for ProtoValue {
    fn clone(&self) -> (r: ProtoValue)
        ensures
            r@ == self@,
    {
        copy_value(self)
    }
}

impl Clone for Struct {
    fn clone(&self) -> (r: Struct)
        ensures
            r@ == self@,
    {
        copy_struct(self)
    }
}

impl Clone for Data {
    fn clone(&self) -> (r: Data)
        ensures
            r@ == self@,
    {
        match self {
            Data::Text(text) => Data::Text(text.clone()),
            Data::InlineData(blob) => Data::InlineData(
                Blob { mime_type: blob.mime_type.clone(), data: copy_bytes(&blob.data) },
            ),
            Data::FileData(file) => Data::FileData(
                FileData { mime_type: file.mime_type.clone(), file_uri: file.file_uri.clone() },
            ),
            Data::FunctionCall(call) => Data::FunctionCall(
                FunctionCall {
                    name: call.name.clone(),
                    args: match &call.args {
                        Some(args) => Some(copy_struct(args)),
                        None => None,
                    },
                },
            ),
            Data::FunctionResponse(response) => Data::FunctionResponse(
                FunctionResponse {
                    name: response.name.clone(),
                    response: match &response.response {
                        Some(st) => Some(copy_struct(st)),
                        None => None,
                    },
                },
            ),
        }
    }
}

impl Clone for Part {
    fn clone(&self) -> (r: Part)
        ensures
            r@ == self@,
    {
        Part {
            data: match &self.data {
                Some(data) => Some(data.clone()),
                None => None,
            },
            thought: self.thought,
            thought_signature: copy_bytes(&self.thought_signature),
        }
    }
}

impl Clone for Content {
    fn clone(&self) -> (r: Content)
        ensures
            r@ == self@,
    {
        let mut parts: Vec<Part> = Vec::new();
        let mut i: usize = 0;
        while i < self.parts.len()
            invariant
                i <= self.parts@.len(),
                parts@.len() == i,
                forall|k: int|
                    0 <= k < parts@.len() ==> (#[trigger] parts@[k])@ == self.parts@[k]@,
            decreases self.parts@.len() - i,
        {
            parts.push(self.parts[i].clone());
            i += 1;
        }
        assert(model::views(parts@) =~= model::views(self.parts@));
        Content { role: self.role.clone(), parts }
    }
}

impl Clone for Candidate {
    fn clone(&self) -> (r: Candidate)
        ensures
            r@ == self@,
    {
        Candidate {
            content: match &self.content {
                Some(content) => Some(content.clone()),
                None => None,
            },
            finish_reason: self.finish_reason,
        }
    }
}

} // verus!
