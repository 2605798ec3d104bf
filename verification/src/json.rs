//! The JSON that replies are made of.

use crate::outside::{
    value_of_bool, value_of_list, value_of_number, value_of_object, value_of_text,
};
use vstd::prelude::*;

verus! {

/// A JSON value.
#[derive(Debug, PartialEq)]
pub enum Json {
    Null,
    Bool(bool),
    Int(i64),
    Uint(u64),
    Text(String),
    List(Vec<Json>),
    Object(Vec<Field>),
    /// A value that was made elsewhere and is passed on as it is.
    Value(serde_json::Value),
}

/// A named member of a JSON object.
#[derive(Debug, PartialEq)]
pub struct Field {
    pub name: String,
    pub value: Json,
}

/// What a [`Json`] stands for.
#[verifier::ext_equal]
pub enum JsonView {
    Null,
    Bool(bool),
    Number(int),
    Text(Seq<char>),
    List(Seq<JsonView>),
    Object(Seq<(Seq<char>, JsonView)>),
    Value(serde_json::Value),
}

impl View for Json {
    type V = JsonView;

    open spec fn view(&self) -> JsonView
        decreases self,
    {
        match self {
            Json::Null => JsonView::Null,
            Json::Bool(b) => JsonView::Bool(*b),
            Json::Int(n) => JsonView::Number(*n as int),
            Json::Uint(n) => JsonView::Number(*n as int),
            Json::Text(text) => JsonView::Text(text@),
            Json::List(items) => JsonView::List(
                Seq::new(
                    items@.len(),
                    |i: int|
                        if 0 <= i < items@.len() {
                            items@[i].view()
                        } else {
                            JsonView::Null
                        },
                ),
            ),
            Json::Object(fields) => JsonView::Object(
                Seq::new(
                    fields@.len(),
                    |i: int|
                        if 0 <= i < fields@.len() {
                            (fields@[i].name@, fields@[i].value.view())
                        } else {
                            (Seq::empty(), JsonView::Null)
                        },
                ),
            ),
            Json::Value(value) => JsonView::Value(*value),
        }
    }
}

/// The JSON value that goes out to clients for a view.
pub open spec fn value_of(view: JsonView) -> serde_json::Value
    decreases view,
{
    match view {
        JsonView::Null => crate::outside::bool_value(None),
        JsonView::Bool(flag) => crate::outside::bool_value(Some(flag)),
        JsonView::Number(number) => crate::outside::number_value(number),
        JsonView::Text(text) => crate::outside::text_value(text),
        JsonView::List(items) => crate::outside::list_value(values_of(items)),
        JsonView::Object(fields) => crate::outside::object_value(members_of(fields)),
        JsonView::Value(value) => value,
    }
}

/// The JSON values that go out for the items of a list, each in its place.
pub open spec fn values_of(items: Seq<JsonView>) -> Seq<serde_json::Value>
    decreases items,
{
    Seq::new(
        items.len(),
        |i: int|
            if 0 <= i < items.len() {
                value_of(items[i])
            } else {
                crate::outside::bool_value(None)
            },
    )
}

/// The names and JSON values that go out for the members of an object, each in
/// its place.
pub open spec fn members_of(fields: Seq<(Seq<char>, JsonView)>) -> Seq<
    (Seq<char>, serde_json::Value),
>
    decreases fields,
{
    Seq::new(
        fields.len(),
        |i: int|
            if 0 <= i < fields.len() {
                (fields[i].0, value_of(fields[i].1))
            } else {
                (Seq::empty(), crate::outside::bool_value(None))
            },
    )
}

/// The JSON text that goes out to clients for a view.
pub open spec fn text_of(view: JsonView) -> Seq<char> {
    crate::outside::value_text(value_of(view))
}

impl Json {
    /// The value as it goes out to clients.
    pub fn into_value(self) -> (value: serde_json::Value)
        ensures
            value == value_of(self@),
        decreases self,
    {
        match self {
            Json::Null => value_of_bool(None),
            Json::Bool(flag) => value_of_bool(Some(flag)),
            Json::Int(number) => value_of_number(number as i128),
            Json::Uint(number) => value_of_number(number as i128),
            Json::Text(text) => value_of_text(text),
            Json::List(items) => {
                let mut values: Vec<serde_json::Value> = Vec::new();
                for item in it: items.into_iter()
                    invariant
                        self == Json::List(items),
                        it.seq() == items@,
                        values@.len() == it.index(),
                        forall|i: int|
                            0 <= i < values@.len() ==> #[trigger] values@[i] == value_of(items@[i]@),
                {
                    assert(decreases_to!(self => self->List_0));
                    assert(decreases_to!(items@ => items@[it.index() as int]));
                    values.push(item.into_value());
                }
                assert(values_of(self@->List_0) =~= values@);
                value_of_list(values)
            },
            Json::Object(fields) => {
                let mut members: Vec<(String, serde_json::Value)> = Vec::new();
                for field in it: fields.into_iter()
                    invariant
                        self == Json::Object(fields),
                        it.seq() == fields@,
                        members@.len() == it.index(),
                        forall|i: int|
                            0 <= i < members@.len() ==> (#[trigger] members@[i]).0
                                == fields@[i].name && members@[i].1 == value_of(fields@[i].value@),
                {
                    assert(decreases_to!(self => self->Object_0));
                    assert(decreases_to!(fields@ => fields@[it.index() as int]));
                    members.push((field.name, field.value.into_value()));
                }
                assert(members_of(self@->Object_0) =~= members@.map_values(
                    |member: (String, serde_json::Value)| (member.0@, member.1),
                )) by {
                    reveal_with_fuel(<Json as View>::view, 2);
                }
                value_of_object(members)
            },
            Json::Value(value) => value,
        }
    }
}

impl Field {
    /// A member of the given name and value.
    pub fn new(name: &str, value: Json) -> (field: Field)
        ensures
            field.name@ == name@,
            field.value == value,
    {
        Field { name: name.to_owned(), value }
    }
}

/// Whether no two members of an object have the same name.
pub open spec fn distinct_names(fields: Seq<(Seq<char>, JsonView)>) -> bool {
    forall|i: int, j: int|
        0 <= i < j < fields.len() ==> (#[trigger] fields[i]).0 != (#[trigger] fields[j]).0
}

/// A JSON value stands for itself: a truth value for that truth value, a number
/// for that number, a text for its characters, and a list or an object for what
/// its items or members stand for, one by one and in their order.
pub proof fn law_json_stands_for_itself(
    flag: bool,
    signed: i64,
    unsigned: u64,
    text: String,
    items: Vec<Json>,
    fields: Vec<Field>,
    value: serde_json::Value,
)
    ensures
        Json::Null@ == JsonView::Null,
        Json::Bool(flag)@ == JsonView::Bool(flag),
        Json::Int(signed)@ == JsonView::Number(signed as int),
        Json::Uint(unsigned)@ == JsonView::Number(unsigned as int),
        Json::Text(text)@ == JsonView::Text(text@),
        Json::Value(value)@ == JsonView::Value(value),
        Json::List(items)@ matches JsonView::List(views) && views.len() == items@.len() && forall|
            i: int,
        |
            0 <= i < views.len() ==> #[trigger] views[i] == items@[i]@,
        Json::Object(fields)@ matches JsonView::Object(views) && views.len() == fields@.len()
            && forall|i: int|
            0 <= i < views.len() ==> #[trigger] views[i] == (
                fields@[i].name@,
                fields@[i].value@,
            ),
{
    reveal_with_fuel(<Json as View>::view, 2);
}

/// What goes out for a list or an object is made of what goes out for its items
/// or members, one by one and in their order; everything else goes out as it is.
pub proof fn law_value_goes_out_in_full(
    flag: bool,
    number: int,
    text: Seq<char>,
    items: Seq<JsonView>,
    values: Seq<serde_json::Value>,
    fields: Seq<(Seq<char>, JsonView)>,
    members: Seq<(Seq<char>, serde_json::Value)>,
    value: serde_json::Value,
)
    requires
        values.len() == items.len(),
        forall|i: int| 0 <= i < items.len() ==> #[trigger] values[i] == value_of(items[i]),
        members.len() == fields.len(),
        forall|i: int|
            0 <= i < fields.len() ==> #[trigger] members[i] == (fields[i].0, value_of(fields[i].1)),
    ensures
        value_of(JsonView::Null) == crate::outside::bool_value(None),
        value_of(JsonView::Bool(flag)) == crate::outside::bool_value(Some(flag)),
        value_of(JsonView::Number(number)) == crate::outside::number_value(number),
        value_of(JsonView::Text(text)) == crate::outside::text_value(text),
        value_of(JsonView::List(items)) == crate::outside::list_value(values),
        value_of(JsonView::Object(fields)) == crate::outside::object_value(members),
        value_of(JsonView::Value(value)) == value,
        text_of(JsonView::Value(value)) == crate::outside::value_text(value),
{
    assert(values_of(items) =~= values);
    assert(members_of(fields) =~= members);
}

} // verus!
