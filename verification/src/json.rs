//! JSON documents as plain values, and the parser that produces them.

use vstd::prelude::*;
use vstd::string::*;
use vstd::utf8::*;

verus! {

/// `serde_json::Value`, opaque: it is only handed from the parser to the
/// conversion below.
#[verifier::external_type_specification]
#[verifier::external_body]
pub struct ExValue(serde_json::Value);

/// A JSON document. A number keeps its canonical decimal text, so that no
/// precision is lost and no floating point is needed to hold it.
#[derive(Debug, PartialEq, Eq)]
pub enum Json {
    Null,
    Bool(bool),
    Number(String),
    Text(String),
    Array(Vec<Json>),
    Object(Vec<Member>),
}

/// One field of a JSON object.
#[derive(Debug, PartialEq, Eq)]
pub struct Member {
    pub name: String,
    pub value: Json,
}

/// The mathematical value of a JSON document.
pub enum JsonView {
    Null,
    Bool(bool),
    Number(Seq<char>),
    Text(Seq<char>),
    Array(Seq<JsonView>),
    Object(Seq<(Seq<char>, JsonView)>),
}

/// The mathematical value of `j`, level by level.
pub open spec fn json_view(j: Json) -> JsonView
    decreases j,
{
    match j {
        Json::Null => JsonView::Null,
        Json::Bool(b) => JsonView::Bool(b),
        Json::Number(text) => JsonView::Number(text@),
        Json::Text(text) => JsonView::Text(text@),
        Json::Array(items) => JsonView::Array(
            Seq::new(
                items@.len(),
                |i: int|
                    if 0 <= i < items@.len() {
                        json_view(items@[i])
                    } else {
                        JsonView::Null
                    },
            ),
        ),
        Json::Object(fields) => JsonView::Object(
            Seq::new(
                fields@.len(),
                |i: int|
                    if 0 <= i < fields@.len() {
                        (fields@[i].name@, json_view(fields@[i].value))
                    } else {
                        (Seq::empty(), JsonView::Null)
                    },
            ),
        ),
    }
}

impl View for Json {
    type V = JsonView;

    open spec fn view(&self) -> JsonView {
        json_view(*self)
    }
}

/// The views of a sequence of values, item by item.
pub open spec fn seq_view<T: View>(s: Seq<T>) -> Seq<T::V> {
    Seq::new(s.len(), |i: int| s[i]@)
}

/// The view of an array, item by item.
pub proof fn lemma_array_view(items: Vec<Json>)
    ensures
        Json::Array(items)@ == JsonView::Array(seq_view(items@)),
{
    assert(Json::Array(items)@->Array_0 =~= seq_view(items@));
}

/// The view of an object, field by field.
pub proof fn lemma_object_view(fields: Vec<Member>)
    ensures
        Json::Object(fields)@ is Object,
        Json::Object(fields)@->Object_0.len() == fields@.len(),
        forall|k: int|
            0 <= k < fields@.len() ==> #[trigger] Json::Object(fields)@->Object_0[k] == (
                fields@[k].name@,
                fields@[k].value@,
            ),
{
}

/// The document that a byte string spells: `Some` exactly for UTF-8 text
/// that is one well-formed JSON value, alone but for whitespace.
pub uninterp spec fn json_document(bytes: Seq<u8>) -> Option<JsonView>;

/// Moves a `serde_json::Value` into a `Json`, variant by variant. A number
/// is kept as the text that its `Display` prints; an object's fields come
/// in the order in which its map hands them out.
#[verifier::external_body]
fn json_from_value(value: serde_json::Value) -> Json {
    match value {
        serde_json::Value::Null => Json::Null,
        serde_json::Value::Bool(b) => Json::Bool(b),
        serde_json::Value::Number(n) => Json::Number(n.to_string()),
        serde_json::Value::String(s) => Json::Text(s),
        serde_json::Value::Array(a) => Json::Array(a.into_iter().map(json_from_value).collect()),
        serde_json::Value::Object(m) => Json::Object(
            m.into_iter().map(|(k, v)| Member { name: k, value: json_from_value(v) }).collect(),
        ),
    }
}

/// Calls `serde_json::from_slice` for a `serde_json::Value`. The result is
/// a function of the bytes alone and is known only by its name,
/// `json_document`; nothing is claimed about which inputs parse.
#[verifier::external_body]
pub(crate) fn parse_json(bytes: &[u8]) -> (doc: Option<Json>)
    ensures
        doc is Some == json_document(bytes@) is Some,
        doc matches Some(j) ==> json_document(bytes@) == Some(j@),
{
    serde_json::from_slice::<serde_json::Value>(bytes).ok().map(json_from_value)
}

/// Whether two strings hold the same characters.
pub fn same_text(a: &str, b: &str) -> (same: bool)
    ensures
        same == (a@ == b@),
{
    let x = a.as_bytes();
    let y = b.as_bytes();
    proof {
        encode_utf8_decode_utf8(a@);
        encode_utf8_decode_utf8(b@);
    }
    if x.len() != y.len() {
        return false;
    }
    let mut i: usize = 0;
    while i < x.len()
        invariant
            x@.len() == y@.len(),
            i <= x@.len(),
            forall|k: int| 0 <= k < i ==> x@[k] == y@[k],
            x@ == encode_utf8(a@),
            y@ == encode_utf8(b@),
            decode_utf8(encode_utf8(a@)) == a@,
            decode_utf8(encode_utf8(b@)) == b@,
        decreases x@.len() - i,
    {
        if x[i] != y[i] {
            return false;
        }
        i = i + 1;
    }
    assert(x@ =~= y@);
    true
}

/// The value of the first field of an object that is called `name`.
pub open spec fn field_of(fields: Seq<(Seq<char>, JsonView)>, name: Seq<char>) -> Option<JsonView>
    decreases fields.len(),
{
    if fields.len() == 0 {
        None
    } else if fields[0].0 == name {
        Some(fields[0].1)
    } else {
        field_of(fields.drop_first(), name)
    }
}

/// The member `name` of a document: `None` unless the document is an
/// object that has such a field.
pub open spec fn member(doc: JsonView, name: Seq<char>) -> Option<JsonView> {
    match doc {
        JsonView::Object(fields) => field_of(fields, name),
        _ => None,
    }
}

/// The text of the member `name`, when the member is a string.
pub open spec fn text_member(doc: JsonView, name: Seq<char>) -> Option<Seq<char>> {
    match member(doc, name) {
        Some(JsonView::Text(t)) => Some(t),
        _ => None,
    }
}

/// The items of the member `name`, when the member is an array.
pub open spec fn array_member(doc: JsonView, name: Seq<char>) -> Option<Seq<JsonView>> {
    match member(doc, name) {
        Some(JsonView::Array(items)) => Some(items),
        _ => None,
    }
}

impl Json {
    /// The member `name` of this document.
    pub fn get(&self, name: &str) -> (found: Option<&Json>)
        ensures
            found is Some == member(self@, name@) is Some,
            found matches Some(j) ==> member(self@, name@) == Some(j@),
    {
        match self {
            Json::Object(fields) => {
                let mut i: usize = 0;
                proof {
                    lemma_object_view(*fields);
                    let all = self@->Object_0;
                    assert(all.skip(0) =~= all);
                }
                while i < fields.len()
                    invariant
                        i <= fields@.len(),
                        self@ matches JsonView::Object(all) && all.len() == fields@.len()
                            && field_of(all, name@) == field_of(all.skip(i as int), name@)
                            && (forall|k: int|
                            0 <= k < all.len() ==> #[trigger] all[k] == (
                                fields@[k].name@,
                                fields@[k].value@,
                            )),
                    decreases fields@.len() - i,
                {
                    proof {
                        let all = self@->Object_0;
                        assert(all.skip(i as int).drop_first() =~= all.skip(i + 1));
                        assert(all.skip(i as int)[0] == all[i as int]);
                    }
                    if same_text(fields[i].name.as_str(), name) {
                        return Some(&fields[i].value);
                    }
                    i = i + 1;
                }
                None
            },
            _ => None,
        }
    }

    /// The text of the member `name`, when it is a string.
    pub fn get_text(&self, name: &str) -> (found: Option<&String>)
        ensures
            found is Some == text_member(self@, name@) is Some,
            found matches Some(t) ==> text_member(self@, name@) == Some(t@),
    {
        match self.get(name) {
            Some(Json::Text(t)) => Some(t),
            _ => None,
        }
    }

    /// The items of the member `name`, when it is an array.
    pub fn get_array(&self, name: &str) -> (found: Option<&Vec<Json>>)
        ensures
            found is Some == array_member(self@, name@) is Some,
            found matches Some(items) ==> array_member(self@, name@) == Some(seq_view(items@)),
    {
        match self.get(name) {
            Some(Json::Array(items)) => {
                proof {
                    lemma_array_view(*items);
                }
                Some(items)
            },
            _ => None,
        }
    }
}

} // verus!
