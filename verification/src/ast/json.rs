use vstd::prelude::*;

use crate::lex::token::{is_string_text, parse_i32, string_contents};

use super::types::{text, ListValue, ObjectValue, Recoverable, Value};

verus! {

/// A JSON value. A float keeps the text of its literal: reading it as a
/// binary float is left to whoever turns this value into JSON text.
#[derive(Debug, PartialEq)]
pub enum JsonValue {
    Null,
    Bool(bool),
    Number(i32),
    Float(String),
    String(String),
    Array(Vec<JsonValue>),
    Object(Vec<(String, JsonValue)>),
}

/// Whether every string literal in `v` is well formed, so that its value can
/// be read.
pub open spec fn strings_wf(v: Value) -> bool
    decreases v,
{
    match v {
        Value::StringValue(s) => is_string_text(s.0.source@),
        Value::ListValue(items) => forall|i: int|
            0 <= i < items.values.0@.len() ==> match Some(#[trigger] items.values.0@[i]) {
                Some(item) => strings_wf(*item.0),
                None => true,
            },
        Value::ObjectValue(object) => forall|i: int|
            0 <= i < object.object_fields.0@.len() ==> match (#[trigger] object.object_fields.0@[i]).value {
                Recoverable::Present(value) => strings_wf(*value.0),
                Recoverable::Missing(_) => true,
            },
        _ => true,
    }
}

/// Whether `v` has no JSON value: it holds a variable, an int that does not
/// fit in an `i32`, or an object field without a value.
pub open spec fn json_fails(v: Value) -> bool
    decreases v,
{
    match v {
        Value::Variable(_) => true,
        Value::IntValue(literal) => parse_i32(literal.0.source@) is Err,
        Value::ListValue(list) => exists|i: int|
            0 <= i < list.values.0@.len() && match Some(#[trigger] list.values.0@[i]) {
                Some(item) => json_fails(*item.0),
                None => false,
            },
        Value::ObjectValue(object) => exists|i: int|
            0 <= i < object.object_fields.0@.len() && match (#[trigger] object.object_fields.0@[i]).value {
                Recoverable::Present(value) => json_fails(*value.0),
                Recoverable::Missing(_) => true,
            },
        _ => false,
    }
}

/// Whether `j` is the JSON value of `v`: ints as numbers, floats by their
/// text, strings by their value, enum values as strings (but `true` and
/// `false` as booleans), lists as arrays and objects as their fields, in
/// order.
pub open spec fn json_of(v: Value, j: JsonValue) -> bool
    decreases v,
{
    match v {
        Value::Variable(_) => false,
        Value::IntValue(literal) => j matches JsonValue::Number(n) && parse_i32(literal.0.source@) == Ok::<
            int,
            crate::lex::token::IntErrorKind,
        >(n as int),
        Value::FloatValue(float) => j matches JsonValue::Float(t) && t@ == float.0.source@,
        Value::StringValue(s) => j matches JsonValue::String(t) && t@ == string_contents(s.0.source@),
        Value::EnumValue(e) => if text(e.0) == seq!['t', 'r', 'u', 'e'] {
            j == JsonValue::Bool(true)
        } else if text(e.0) == seq!['f', 'a', 'l', 's', 'e'] {
            j == JsonValue::Bool(false)
        } else {
            j matches JsonValue::String(t) && t@ == text(e.0)
        },
        Value::NullValue(_) => j is Null,
        Value::BooleanValue(b) => j == JsonValue::Bool(b is True),
        Value::ListValue(list) => j matches JsonValue::Array(items) && items@.len()
            == list.values.0@.len() && forall|i: int|
            0 <= i < list.values.0@.len() ==> match Some(#[trigger] list.values.0@[i]) {
                Some(item) => json_of(*item.0, items@[i]),
                None => true,
            },
        Value::ObjectValue(object) => j matches JsonValue::Object(fields) && fields@.len()
            == object.object_fields.0@.len() && forall|i: int|
            0 <= i < object.object_fields.0@.len() ==> {
                let field = #[trigger] object.object_fields.0@[i];
                &&& fields@[i].0@ == text(field.name)
                &&& match field.value {
                    Recoverable::Present(value) => json_of(*value.0, fields@[i].1),
                    Recoverable::Missing(_) => false,
                }
            },
    }
}

/// The items of a list value are smaller than the list value.
proof fn lemma_items_smaller(list: ListValue)
    ensures
        forall|i: int|
            0 <= i < list.values.0@.len() ==> decreases_to!(Value::ListValue(list) => *(#[trigger] list.values.0@[i]).0),
{
    assert forall|i: int| 0 <= i < list.values.0@.len() implies decreases_to!(Value::ListValue(list) => *(#[trigger] list.values.0@[i]).0) by {
        let v = Value::ListValue(list);
        assert(decreases_to!(v => v->ListValue_0));
        assert(decreases_to!(list => list.values));
        assert(decreases_to!(list.values => list.values.0));
        assert(decreases_to!(list.values.0 => list.values.0@));
        assert(decreases_to!(list.values.0@ => list.values.0@[i]));
        assert(decreases_to!(list.values.0@[i] => list.values.0@[i].0));
    }
}

/// The values of the fields of an object value are smaller than the object
/// value.
proof fn lemma_fields_smaller(object: ObjectValue)
    ensures
        forall|i: int|
            0 <= i < object.object_fields.0@.len() && (#[trigger] object.object_fields.0@[i]).value is Present
                ==> decreases_to!(Value::ObjectValue(object) => *object.object_fields.0@[i].value->Present_0.0),
{
    assert forall|i: int|
        0 <= i < object.object_fields.0@.len() && (#[trigger] object.object_fields.0@[i]).value is Present
        implies decreases_to!(Value::ObjectValue(object) => *object.object_fields.0@[i].value->Present_0.0) by {
        let v = Value::ObjectValue(object);
        assert(decreases_to!(v => v->ObjectValue_0));
        assert(decreases_to!(object => object.object_fields));
        assert(decreases_to!(object.object_fields => object.object_fields.0));
        assert(decreases_to!(object.object_fields.0 => object.object_fields.0@));
        assert(decreases_to!(object.object_fields.0@ => object.object_fields.0@[i]));
        assert(decreases_to!(object.object_fields.0@[i] => object.object_fields.0@[i].value));
        assert(decreases_to!(object.object_fields.0@[i].value => object.object_fields.0@[i].value->Present_0));
        assert(decreases_to!(object.object_fields.0@[i].value->Present_0 => object.object_fields.0@[i].value->Present_0.0));
    }
}

impl Value {
    /// The JSON value of this value, if it has one.
    pub fn to_json(&self) -> (r: Option<JsonValue>)
        requires
            strings_wf(*self),
        ensures
            r is None <==> json_fails(*self),
            r matches Some(j) ==> json_of(*self, j),
        decreases self,
    {
        match self {
            Value::Variable(_) => None,
            Value::IntValue(value) => match value.to_i32() {
                Ok(n) => Some(JsonValue::Number(n)),
                Err(_) => None,
            },
            Value::FloatValue(value) => Some(JsonValue::Float(value.0.source.clone())),
            Value::StringValue(value) => Some(JsonValue::String(value.to_string())),
            Value::EnumValue(value) => {
                let name = value.0.0.source.as_str();
                proof {
                    reveal_strlit("true");
                    reveal_strlit("false");
                    assert("true"@ =~= seq!['t', 'r', 'u', 'e']);
                    assert("false"@ =~= seq!['f', 'a', 'l', 's', 'e']);
                }
                if crate::lex::chars::same_text(name, "true") {
                    Some(JsonValue::Bool(true))
                } else if crate::lex::chars::same_text(name, "false") {
                    Some(JsonValue::Bool(false))
                } else {
                    Some(JsonValue::String(value.0.0.source.clone()))
                }
            },
            Value::NullValue(_) => Some(JsonValue::Null),
            Value::BooleanValue(value) => Some(JsonValue::Bool(value.to_bool())),
            Value::ListValue(value) => {
                let values = &value.values.0;
                proof {
                    lemma_items_smaller(*value);
                }
                let mut items: Vec<JsonValue> = Vec::new();
                let mut i: usize = 0;
                while i < values.len()
                    invariant
                        i <= values@.len(),
                        *self == Value::ListValue(*value),
                        values@ == value.values.0@,
                        strings_wf(*self),
                        items@.len() == i,
                        forall|k: int| 0 <= k < i ==> !json_fails(*(#[trigger] values@[k]).0),
                        forall|k: int| 0 <= k < i ==> json_of(*(#[trigger] values@[k]).0, items@[k]),
                    decreases values.len() - i,
                {
                    proof {
                        lemma_items_smaller(*value);
                        assert(strings_wf(Value::ListValue(*value)));
                        let item = value.values.0@[i as int];
                        assert(strings_wf(*item.0));
                        assert(decreases_to!(*self => *item.0));
                    }
                    match values[i].0.to_json() {
                        Some(item) => items.push(item),
                        None => {
                            return None;
                        },
                    }
                    i = i + 1;
                }
                Some(JsonValue::Array(items))
            },
            Value::ObjectValue(value) => {
                let object_fields = &value.object_fields.0;
                proof {
                    lemma_fields_smaller(*value);
                }
                let mut fields: Vec<(String, JsonValue)> = Vec::new();
                let mut i: usize = 0;
                while i < object_fields.len()
                    invariant
                        i <= object_fields@.len(),
                        *self == Value::ObjectValue(*value),
                        object_fields@ == value.object_fields.0@,
                        strings_wf(*self),
                        fields@.len() == i,
                        forall|k: int| #![trigger object_fields@[k]]
                            0 <= k < i ==> match object_fields@[k].value {
                                Recoverable::Present(v) => !json_fails(*v.0),
                                Recoverable::Missing(_) => false,
                            },
                        forall|k: int| #![trigger object_fields@[k]]
                            0 <= k < i ==> {
                                &&& fields@[k].0@ == text(object_fields@[k].name)
                                &&& match object_fields@[k].value {
                                    Recoverable::Present(v) => json_of(*v.0, fields@[k].1),
                                    Recoverable::Missing(_) => false,
                                }
                            },
                    decreases object_fields.len() - i,
                {
                    let field = &object_fields[i];
                    match field.value.ok() {
                        Some(v) => {
                            proof {
                                lemma_fields_smaller(*value);
                                assert(strings_wf(*v.0));
                                assert(decreases_to!(*self => *v.0));
                            }
                            match v.0.to_json() {
                                Some(json) => fields.push((field.name.0.source.clone(), json)),
                                None => {
                                    return None;
                                },
                            }
                        },
                        None => {
                            return None;
                        },
                    }
                    i = i + 1;
                }
                Some(JsonValue::Object(fields))
            },
        }
    }
}

} // verus!
