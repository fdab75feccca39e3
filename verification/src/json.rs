//! JSON documents as far as requests, rejections and error responses need them.

use crate::text::{same_text, text_of};
use vstd::prelude::*;
use vstd::string::*;

verus! {

/// A JSON document. An object is read field by field in order, so of two fields
/// with one name the later one counts.
#[derive(Debug)]
pub enum JsonValue {
    Text(String),
    Bool(bool),
    /// A whole number of 64 bits with a sign.
    Integer(i64),
    Object(Vec<Field>),
    /// Any other document, as its JSON text.
    Raw(String),
}

/// A field of a JSON object.
#[derive(Debug)]
pub struct Field {
    pub name: String,
    pub value: JsonValue,
}

/// What a [`JsonValue`] stands for.
pub enum Json {
    Text(Seq<char>),
    Bool(bool),
    Integer(int),
    Object(Map<Seq<char>, Json>),
    Raw(Seq<char>),
}

/// The object that fields read in order stand for.
pub open spec fn object_view(fields: Seq<Field>) -> Map<Seq<char>, Json>
    decreases fields,
{
    if fields.len() == 0 {
        Map::empty()
    } else {
        object_view(fields.drop_last()).insert(fields.last().name@, fields.last().value.shown())
    }
}

impl JsonValue {
    pub open spec fn shown(self) -> Json
        decreases self,
    {
        match self {
            JsonValue::Text(s) => Json::Text(s@),
            JsonValue::Bool(b) => Json::Bool(b),
            JsonValue::Integer(n) => Json::Integer(n as int),
            JsonValue::Object(fields) => Json::Object(object_view(fields@)),
            JsonValue::Raw(s) => Json::Raw(s@),
        }
    }
}

impl View for JsonValue {
    type V = Json;

    open spec fn view(&self) -> Json {
        self.shown()
    }
}

/// The whole number in the field `name` of an object; nothing where the document
/// is no object, has no such field, or holds something else in it.
pub open spec fn integer_field(document: Json, name: Seq<char>) -> Option<int> {
    match document {
        Json::Object(fields) => if fields.contains_key(name) {
            match fields[name] {
                Json::Integer(n) => Some(n),
                _ => None,
            }
        } else {
            None
        },
        _ => None,
    }
}

/// The text in the field `name` of an object.
pub open spec fn text_field(document: Json, name: Seq<char>) -> Option<Seq<char>> {
    match document {
        Json::Object(fields) => if fields.contains_key(name) {
            match fields[name] {
                Json::Text(s) => Some(s),
                _ => None,
            }
        } else {
            None
        },
        _ => None,
    }
}

/// Adds a field behind the others.
pub fn put(fields: &mut Vec<Field>, name: &str, value: JsonValue)
    ensures
        object_view(final(fields)@) == object_view(old(fields)@).insert(name@, value@),
{
    let field: Field = Field { name: name.to_owned(), value };
    fields.push(field);
    assert(fields@.drop_last() =~= old(fields)@);
}

/// Adds a field that holds a text.
pub fn put_text(fields: &mut Vec<Field>, name: &str, value: &str)
    ensures
        object_view(final(fields)@) == object_view(old(fields)@).insert(
            name@,
            Json::Text(value@),
        ),
{
    put(fields, name, JsonValue::Text(value.to_owned()));
}

/// An object with a single field.
pub fn singleton(name: &str, value: JsonValue) -> (r: JsonValue)
    ensures
        r@ == Json::Object(map![name@ => value@]),
{
    let mut fields: Vec<Field> = Vec::new();
    put(&mut fields, name, value);
    JsonValue::Object(fields)
}

/// Adds all `more` fields behind the others.
pub fn put_all(fields: &mut Vec<Field>, more: Vec<Field>)
    ensures
        object_view(final(fields)@) == object_view(old(fields)@).union_prefer_right(
            object_view(more@),
        ),
{
    let ghost before = fields@;
    let mut rest: Vec<Field> = more;
    fields.append(&mut rest);
    proof {
        lemma_object_view_append(before, more@);
    }
}

proof fn lemma_object_view_append(a: Seq<Field>, b: Seq<Field>)
    ensures
        object_view(a + b) == object_view(a).union_prefer_right(object_view(b)),
    decreases b.len(),
{
    if b.len() == 0 {
        assert(a + b =~= a);
        assert(object_view(a).union_prefer_right(object_view(b)) =~= object_view(a));
    } else {
        assert((a + b).drop_last() =~= a + b.drop_last());
        lemma_object_view_append(a, b.drop_last());
        assert(object_view(a + b) =~= object_view(a).union_prefer_right(object_view(b)));
    }
}

impl JsonValue {
    /// The value of a field of an object.
    fn field(&self, name: &str) -> (r: Option<&JsonValue>)
        ensures
            match r {
                Some(value) => self@ matches Json::Object(fields) && fields.contains_key(name@)
                    && fields[name@] == value@,
                None => self@ matches Json::Object(fields) ==> !fields.contains_key(name@),
            },
    {
        match self {
            JsonValue::Object(fields) => {
                let mut i: usize = fields.len();
                assert(fields@.take(i as int) =~= fields@);
                while i > 0
                    invariant
                        i <= fields@.len(),
                        self@ == Json::Object(object_view(fields@)),
                        object_view(fields@).contains_key(name@) <==> object_view(
                            fields@.take(i as int),
                        ).contains_key(name@),
                        object_view(fields@)[name@] == object_view(fields@.take(i as int))[name@],
                    decreases i,
                {
                    assert(fields@.take(i as int).drop_last() =~= fields@.take(i - 1));
                    assert(fields@.take(i as int).last() == fields@[i - 1]);
                    if same_text(fields[i - 1].name.as_str(), name) {
                        return Some(&fields[i - 1].value);
                    }
                    i = i - 1;
                }
                None
            },
            _ => None,
        }
    }

    /// The whole number in a field of an object.
    pub fn integer(&self, name: &str) -> (r: Option<i64>)
        ensures
            match r {
                Some(n) => integer_field(self@, name@) == Some(n as int),
                None => integer_field(self@, name@) is None,
            },
    {
        match self.field(name) {
            Some(JsonValue::Integer(n)) => Some(*n),
            _ => None,
        }
    }

    /// The text in a field of an object.
    pub fn text(&self, name: &str) -> (r: Option<String>)
        ensures
            text_of(r) == text_field(self@, name@),
    {
        match self.field(name) {
            Some(JsonValue::Text(s)) => Some(s.clone()),
            _ => None,
        }
    }
}

/// What `serde_json` reads in a text, printed again; nothing where the text is
/// no JSON document.
pub uninterp spec fn json_reprint(text: Seq<char>) -> Option<Seq<char>>;

/// Reads a JSON document with `serde_json::from_str` and prints it again.
///
/// Believed: whether it is read, and how it is printed, depends on the text
/// alone. The grammar itself is not said.
#[verifier::external_body]
pub(crate) fn reprint(text: &str) -> (r: Option<String>)
    ensures
        text_of(r) == json_reprint(text@),
{
    serde_json::from_str::<serde_json::Value>(text).ok().map(|document| document.to_string())
}

/// Of two fields with one name the later one counts, and a field does not touch those
/// with other names.
pub proof fn law_later_fields_count(fields: Seq<Field>, field: Field, name: Seq<char>)
    ensures
        ({
            let before = object_view(fields);
            let after = object_view(fields.push(field));
            &&& after.contains_key(field.name@) && after[field.name@] == field.value@
            &&& name != field.name@ ==> (after.contains_key(name) <==> before.contains_key(name))
                && (before.contains_key(name) ==> after[name] == before[name])
        }),
        !object_view(Seq::empty()).contains_key(name),
{
    assert(fields.push(field).drop_last() =~= fields);
}

/// A field is read where it holds a value of the kind that is asked for, and nowhere
/// else.
pub proof fn law_fields_are_read_by_kind(fields: Map<Seq<char>, Json>, name: Seq<char>)
    ensures
        !fields.contains_key(name) ==> integer_field(Json::Object(fields), name) is None
            && text_field(Json::Object(fields), name) is None,
        fields.contains_key(name) ==> match fields[name] {
            Json::Integer(n) => integer_field(Json::Object(fields), name) == Some(n) && text_field(
                Json::Object(fields),
                name,
            ) is None,
            Json::Text(s) => text_field(Json::Object(fields), name) == Some(s) && integer_field(
                Json::Object(fields),
                name,
            ) is None,
            _ => integer_field(Json::Object(fields), name) is None && text_field(
                Json::Object(fields),
                name,
            ) is None,
        },
{
}

} // verus!
