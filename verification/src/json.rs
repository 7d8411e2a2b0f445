//! JSON values.
//!
//! [`Json`] is the form in which the library builds requests. Its meaning is a [`JsonView`], in
//! which an object is a map from keys to values. `serde_json` holds the wire form: [`Json::to_value`]
//! hands a value over to it, and [`Json::text`] is the compact text that it writes. A value that
//! `serde_json` read elsewhere is carried through as it is.
use vstd::prelude::*;

verus! {

/// What a JSON value means.
#[verifier::ext_equal]
pub enum JsonView {
    Null,
    Bool(bool),
    /// A natural number.
    Number(nat),
    /// A negative or fractional number, by the text that is written for it.
    OtherNumber(Seq<char>),
    Text(Seq<char>),
    Array(Seq<JsonView>),
    Object(Map<Seq<char>, JsonView>),
}

/// A JSON value. The fields of an object stand in the order in which they were added; of two fields
/// with one key the later one counts. A value that comes from outside is carried as it came.
#[derive(Debug, PartialEq, Eq)]
pub enum Json {
    Null,
    Bool(bool),
    Number(u64),
    Text(String),
    Array(Vec<Json>),
    Object(Vec<(String, Json)>),
    /// A value that was not built here.
    Outside(serde_json::Value),
}

/// The meanings of the elements of an array.
pub open spec fn array_view(items: Seq<Json>) -> Seq<JsonView>
    decreases items,
{
    if items.len() == 0 {
        Seq::empty()
    } else {
        array_view(items.drop_last()).push(items.last().view())
    }
}

/// The map that the fields of an object describe.
pub open spec fn object_view(fields: Seq<(String, Json)>) -> Map<Seq<char>, JsonView>
    decreases fields,
{
    if fields.len() == 0 {
        Map::empty()
    } else {
        object_view(fields.drop_last()).insert(fields.last().0@, fields.last().1.view())
    }
}

impl Json {
    /// What the value means.
    pub open spec fn view(&self) -> JsonView
        decreases self,
    {
        match self {
            Json::Null => JsonView::Null,
            Json::Bool(b) => JsonView::Bool(*b),
            Json::Number(n) => JsonView::Number(*n as nat),
            Json::Text(s) => JsonView::Text(s@),
            Json::Array(items) => JsonView::Array(array_view(items@)),
            Json::Object(fields) => JsonView::Object(object_view(fields@)),
            Json::Outside(value) => value_contents(*value),
        }
    }
}

/// `serde_json::Value`: a JSON value as the outside crate holds it.
#[verifier::external_type_specification]
#[verifier::external_body]
pub struct ExValue(serde_json::Value);

/// What a `serde_json::Value` holds.
pub uninterp spec fn value_contents(value: serde_json::Value) -> JsonView;

/// The compact text that `serde_json` writes for a value that holds `contents`: the keys of an
/// object in ascending order, no blanks between the tokens.
pub uninterp spec fn json_text(contents: JsonView) -> Seq<char>;

/// `serde_json::Map`: the fields of an object as the outside crate holds them.
#[verifier::external_type_specification]
#[verifier::external_body]
#[verifier::reject_recursive_types(K)]
#[verifier::reject_recursive_types(V)]
pub struct ExMap<K, V>(serde_json::Map<K, V>);

/// What a `serde_json::Map` holds under each of its keys.
pub uninterp spec fn map_contents(map: serde_json::Map<String, serde_json::Value>) -> Map<
    Seq<char>,
    JsonView,
>;

/// What each of the values holds, in order.
pub open spec fn values_contents(values: Seq<serde_json::Value>) -> Seq<JsonView> {
    values.map_values(|value: serde_json::Value| value_contents(value))
}

/// `Value::from(())` is the null value.
#[verifier::external_body]
fn null_value() -> (value: serde_json::Value)
    ensures
        value_contents(value) == JsonView::Null,
{
    serde_json::Value::from(())
}

/// `Value::from(bool)` holds the flag.
#[verifier::external_body]
fn bool_value(flag: bool) -> (value: serde_json::Value)
    ensures
        value_contents(value) == JsonView::Bool(flag),
{
    serde_json::Value::from(flag)
}

/// `Value::from(u64)` holds the number.
#[verifier::external_body]
fn number_value(number: u64) -> (value: serde_json::Value)
    ensures
        value_contents(value) == JsonView::Number(number as nat),
{
    serde_json::Value::from(number)
}

/// `Value::from(&str)` holds the text.
#[verifier::external_body]
fn text_value(text: &str) -> (value: serde_json::Value)
    ensures
        value_contents(value) == JsonView::Text(text@),
{
    serde_json::Value::from(text)
}

/// `Value::from(Vec<Value>)` is the array of the given values in the given order.
#[verifier::external_body]
fn array_value(items: Vec<serde_json::Value>) -> (value: serde_json::Value)
    ensures
        value_contents(value) == JsonView::Array(values_contents(items@)),
{
    serde_json::Value::from(items)
}

/// `Map::new` holds nothing.
#[verifier::external_body]
fn empty_map() -> (map: serde_json::Map<String, serde_json::Value>)
    ensures
        map_contents(map).dom() == Set::<Seq<char>>::empty(),
{
    serde_json::Map::new()
}

/// `Map::insert` puts the value under the key, and hands back the value that stood there before,
/// where there was one.
#[verifier::external_body]
fn insert_field(
    map: &mut serde_json::Map<String, serde_json::Value>,
    key: String,
    value: serde_json::Value,
) -> (replaced: Option<serde_json::Value>)
    ensures
        map_contents(*final(map)) == map_contents(*old(map)).insert(key@, value_contents(value)),
        replaced is Some <==> map_contents(*old(map)).contains_key(key@),
        replaced matches Some(before) ==> value_contents(before) == map_contents(*old(map))[key@],
{
    map.insert(key, value)
}

/// `Value::from(Map)` is the object with the fields of the map.
#[verifier::external_body]
fn object_value(map: serde_json::Map<String, serde_json::Value>) -> (value: serde_json::Value)
    ensures
        value_contents(value) == JsonView::Object(map_contents(map)),
{
    serde_json::Value::from(map)
}

/// `Value`'s `clone` holds what the value holds.
#[verifier::external_body]
fn copied_value(value: &serde_json::Value) -> (copy: serde_json::Value)
    ensures
        value_contents(copy) == value_contents(*value),
{
    value.clone()
}

/// `Value::as_str` is the text of a value that holds a text, and nothing of any other value.
#[verifier::external_body]
fn value_str(value: &serde_json::Value) -> (text: Option<String>)
    ensures
        text is Some <==> value_contents(*value) is Text,
        text matches Some(text) ==> value_contents(*value) == JsonView::Text(text@),
{
    value.as_str().map(str::to_string)
}

/// `Value`'s `to_string`: the compact text of what the value holds.
#[verifier::external_body]
fn value_text(value: &serde_json::Value) -> (text: String)
    ensures
        text@ == json_text(value_contents(*value)),
{
    value.to_string()
}

/// The meaning of an array has one element for each element of the array.
pub proof fn lemma_array_view(items: Seq<Json>)
    ensures
        array_view(items).len() == items.len(),
        forall|i: int| 0 <= i < items.len() ==> #[trigger] array_view(items)[i] == items[i].view(),
    decreases items.len(),
{
    if items.len() > 0 {
        lemma_array_view(items.drop_last());
        assert forall|i: int| 0 <= i < items.len() implies #[trigger] array_view(items)[i]
            == items[i].view() by {
            if i < items.len() - 1 {
                assert(items.drop_last()[i] == items[i]);
                assert(array_view(items.drop_last())[i] == items.drop_last()[i].view());
            }
        }
    }
}

/// One more element of an array is one more element of its meaning.
pub proof fn lemma_array_push(items: Seq<Json>, item: Json)
    ensures
        array_view(items.push(item)) == array_view(items).push(item.view()),
{
    assert(items.push(item).drop_last() =~= items);
}

impl Json {
    /// The text `text` as a JSON string.
    pub fn text_of(text: &str) -> (json: Json)
        ensures
            json@ == JsonView::Text(text@),
    {
        Json::Text(text.to_owned())
    }

    /// The object without fields.
    pub fn object() -> (json: Json)
        ensures
            json is Object,
            json@ == JsonView::Object(Map::empty()),
    {
        Json::Object(Vec::new())
    }

    /// The object with one more field; a field that has the key already no longer counts. A value
    /// that is not built here as an object is handed back as it is.
    pub fn with(self, key: &str, value: Json) -> (json: Json)
        ensures
            self is Object ==> json is Object && json@ == JsonView::Object(
                self@->Object_0.insert(key@, value@),
            ),
            !(self is Object) ==> json == self,
    {
        match self {
            Json::Object(mut fields) => {
                let ghost before = fields@;
                fields.push((key.to_owned(), value));
                assert(fields@.drop_last() =~= before);
                Json::Object(fields)
            },
            other => other,
        }
    }

    /// The text, where the value is one.
    pub fn as_text(&self) -> (text: Option<String>)
        ensures
            text is Some <==> self@ is Text,
            text matches Some(text) ==> self@ == JsonView::Text(text@),
    {
        match self {
            Json::Text(text) => Some(text.clone()),
            Json::Outside(value) => value_str(value),
            _ => None,
        }
    }

    /// The value as `serde_json` holds it.
    pub fn to_value(&self) -> (value: serde_json::Value)
        ensures
            value_contents(value) == self@,
        decreases self,
    {
        match self {
            Json::Null => null_value(),
            Json::Bool(flag) => bool_value(*flag),
            Json::Number(number) => number_value(*number),
            Json::Text(text) => text_value(text.as_str()),
            Json::Array(items) => {
                let mut values: Vec<serde_json::Value> = Vec::new();
                let mut i: usize = 0;
                while i < items.len()
                    invariant
                        i <= items@.len(),
                        self matches Json::Array(own) && own == items,
                        values_contents(values@) =~= array_view(items@.take(i as int)),
                    decreases items@.len() - i,
                {
                    assert(decreases_to!(self => items@[i as int]));
                    let value = items[i].to_value();
                    values.push(value);
                    i += 1;
                    assert(items@.take(i as int).drop_last() =~= items@.take(i - 1));
                }
                assert(items@.take(i as int) =~= items@);
                array_value(values)
            },
            Json::Object(fields) => {
                let mut map = empty_map();
                let mut i: usize = 0;
                assert(map_contents(map) =~= object_view(fields@.take(0)));
                while i < fields.len()
                    invariant
                        i <= fields@.len(),
                        self matches Json::Object(own) && own == fields,
                        map_contents(map) == object_view(fields@.take(i as int)),
                    decreases fields@.len() - i,
                {
                    assert(decreases_to!(self => fields@[i as int].1));
                    let value = fields[i].1.to_value();
                    insert_field(&mut map, fields[i].0.clone(), value);
                    i += 1;
                    assert(fields@.take(i as int).drop_last() =~= fields@.take(i - 1));
                }
                assert(fields@.take(i as int) =~= fields@);
                object_value(map)
            },
            Json::Outside(value) => copied_value(value),
        }
    }

    /// The compact text of the value, as `serde_json` writes it.
    pub fn text(&self) -> (text: String)
        ensures
            text@ == json_text(self@),
    {
        value_text(&self.to_value())
    }
}

} // verus!
