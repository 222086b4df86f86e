//! JSON documents as plain data, and the decoder that produces them.

use vstd::prelude::*;
use crate::text::same_text;

verus! {

/// `serde_json::Value`, what the decoder produces: carried from the decoder
/// to the conversion into a [`Json`], never looked into.
#[verifier::external_type_specification]
#[verifier::external_body]
pub struct ExJsonValue(serde_json::Value);

/// `serde_json::Error`, the decoder's error.
#[verifier::external_type_specification]
#[verifier::external_body]
pub struct ExJsonError(serde_json::Error);

/// A JSON value. Object members are kept as a list of pairs in the order the
/// decoder hands them out.
#[derive(Debug)]
pub enum Json {
    Null,
    Bool(bool),
    /// A number, as its decimal text.
    Number(String),
    Text(String),
    Array(Vec<Json>),
    Object(Vec<Member>),
}

/// One member of a JSON object.
#[derive(Debug)]
pub struct Member {
    pub name: String,
    pub value: Json,
}

/// The mathematical value of a [`Json`].
pub enum JsonView {
    Null,
    Bool(bool),
    Number(Seq<char>),
    Text(Seq<char>),
    Array(Seq<JsonView>),
    Object(Seq<MemberView>),
}

/// The mathematical value of a [`Member`].
pub struct MemberView {
    pub name: Seq<char>,
    pub value: JsonView,
}

/// The mathematical value of `json`: the same tree, with sequences in place
/// of vectors and strings.
pub open spec fn json_view(json: Json) -> JsonView
    decreases json,
{
    match json {
        Json::Null => JsonView::Null,
        Json::Bool(b) => JsonView::Bool(b),
        Json::Number(n) => JsonView::Number(n@),
        Json::Text(s) => JsonView::Text(s@),
        Json::Array(items) => JsonView::Array(
            Seq::new(
                items@.len(),
                |i: int|
                    if 0 <= i < items@.len() {
                        json_view(items@[i])
                    } else {
                        JsonView::Null
                    },
            ),
        ),
        Json::Object(members) => JsonView::Object(
            Seq::new(
                members@.len(),
                |i: int|
                    if 0 <= i < members@.len() {
                        MemberView {
                            name: members@[i].name@,
                            value: json_view(members@[i].value),
                        }
                    } else {
                        MemberView { name: Seq::empty(), value: JsonView::Null }
                    },
            ),
        ),
    }
}

impl View for Json {
    type V = JsonView;

    open spec fn view(&self) -> JsonView {
        json_view(*self)
    }
}

/// What the JSON decoder holds in a decoded value.
pub uninterp spec fn value_content(value: serde_json::Value) -> JsonView;

/// What the JSON decoder makes of `bytes`: the document, or the decoder's
/// complaint when `bytes` is not one JSON document.
pub uninterp spec fn decoded_document(bytes: Seq<u8>) -> Result<JsonView, Seq<char>>;

/// What the decoder's error says when printed.
pub uninterp spec fn error_text(error: serde_json::Error) -> Seq<char>;

/// `serde_json::from_slice`, asked for a `serde_json::Value`. The outcome is
/// the one [`decoded_document`] names for these bytes: on success the value
/// holds that document, on failure the error prints as that complaint.
#[verifier::external_body]
fn decode_value(bytes: &[u8]) -> (r: Result<serde_json::Value, serde_json::Error>)
    ensures
        match r {
            Ok(value) => decoded_document(bytes@) == Ok::<JsonView, Seq<char>>(
                value_content(value),
            ),
            Err(error) => decoded_document(bytes@) == Err::<JsonView, Seq<char>>(
                error_text(error),
            ),
        },
{
    serde_json::from_slice::<serde_json::Value>(bytes)
}

/// Moves a `serde_json::Value` into a [`Json`], variant by variant: a number
/// becomes the text `serde_json::Number` prints, an object the list of its
/// members in the order its map yields them. The result's view is what the
/// value holds.
#[verifier::external_body]
fn json_from_value(value: serde_json::Value) -> (json: Json)
    ensures
        json@ == value_content(value),
{
    match value {
        serde_json::Value::Null => Json::Null,
        serde_json::Value::Bool(b) => Json::Bool(b),
        serde_json::Value::Number(n) => Json::Number(n.to_string()),
        serde_json::Value::String(s) => Json::Text(s),
        serde_json::Value::Array(a) => Json::Array(a.into_iter().map(json_from_value).collect()),
        serde_json::Value::Object(o) => Json::Object(
            o.into_iter().map(|(k, v)| Member { name: k, value: json_from_value(v) }).collect(),
        ),
    }
}

/// The `Display` text of a `serde_json::Error`.
#[verifier::external_body]
fn describe_error(error: &serde_json::Error) -> (text: String)
    ensures
        text@ == error_text(*error),
{
    error.to_string()
}

impl JsonView {
    /// Member `i` of `members` is the first one named `key`.
    pub open spec fn is_first_named(members: Seq<MemberView>, key: Seq<char>, i: int) -> bool {
        &&& 0 <= i < members.len()
        &&& members[i].name == key
        &&& forall|j: int| 0 <= j < i ==> (#[trigger] members[j]).name != key
    }

    /// The value of the first member named `key`, if this is an object that
    /// has one.
    #[verifier::opaque]
    pub open spec fn member(self, key: Seq<char>) -> Option<JsonView> {
        match self {
            JsonView::Object(members) => {
                if exists|i: int| Self::is_first_named(members, key, i) {
                    Some(members[choose|i: int| Self::is_first_named(members, key, i)].value)
                } else {
                    None
                }
            },
            _ => None,
        }
    }

    /// An object whose member `i` is the first one named `key` has that
    /// member's value under `key`.
    pub proof fn member_found(self, key: Seq<char>, i: int)
        requires
            self is Object,
            Self::is_first_named(self->Object_0, key, i),
        ensures
            self.member(key) == Some(self->Object_0[i].value),
    {
        reveal(JsonView::member);
        let members = self->Object_0;
        let chosen = choose|k: int| Self::is_first_named(members, key, k);
        if chosen < i {
            assert(members[chosen].name != key);
        } else if i < chosen {
            assert(members[i].name != key);
        }
    }

    /// A value that is no object, or an object without a member named
    /// `key`, has nothing under `key`.
    pub proof fn member_absent(self, key: Seq<char>)
        requires
            self is Object ==> forall|i: int|
                0 <= i < self->Object_0.len() ==> (#[trigger] self->Object_0[i]).name != key,
        ensures
            self.member(key) is None,
    {
        reveal(JsonView::member);
        if self is Object {
            let members = self->Object_0;
            if exists|i: int| Self::is_first_named(members, key, i) {
                let i = choose|i: int| Self::is_first_named(members, key, i);
                assert(members[i].name != key);
            }
        }
    }

    /// The elements, if this is an array.
    pub open spec fn as_array(self) -> Option<Seq<JsonView>> {
        match self {
            JsonView::Array(items) => Some(items),
            _ => None,
        }
    }

    /// The characters, if this is a string.
    pub open spec fn as_text(self) -> Option<Seq<char>> {
        match self {
            JsonView::Text(text) => Some(text),
            _ => None,
        }
    }
}

impl Json {
    /// Decodes one JSON document. Fails with the decoder's own message when
    /// `bytes` is not a JSON document.
    pub fn parse(bytes: &[u8]) -> (r: Result<Json, String>)
        ensures
            match r {
                Ok(json) => decoded_document(bytes@) == Ok::<JsonView, Seq<char>>(json@),
                Err(message) => decoded_document(bytes@) == Err::<JsonView, Seq<char>>(message@),
            },
    {
        match decode_value(bytes) {
            Ok(value) => Ok(json_from_value(value)),
            Err(error) => Err(describe_error(&error)),
        }
    }

    /// The value of the first member named `key`, if this is an object that
    /// has one.
    pub fn member(&self, key: &str) -> (r: Option<&Json>)
        ensures
            match r {
                Some(found) => self@.member(key@) == Some(found@),
                None => self@.member(key@) is None,
            },
    {
        match self {
            Json::Object(members) => {
                let ghost pairs = self@->Object_0;
                let mut i: usize = 0;
                while i < members.len()
                    invariant
                        i <= members.len(),
                        self@ == JsonView::Object(pairs),
                        pairs.len() == members@.len(),
                        forall|j: int|
                            0 <= j < members@.len() ==> #[trigger] pairs[j] == (MemberView {
                                name: members@[j].name@,
                                value: members@[j].value@,
                            }),
                        forall|j: int| 0 <= j < i ==> (#[trigger] pairs[j]).name != key@,
                    decreases members.len() - i,
                {
                    if same_text(members[i].name.as_str(), key) {
                        proof {
                            self@.member_found(key@, i as int);
                        }
                        return Some(&members[i].value);
                    }
                    i += 1;
                }
                proof {
                    self@.member_absent(key@);
                }
                None
            },
            _ => {
                proof {
                    self@.member_absent(key@);
                }
                None
            },
        }
    }

    /// The elements, if this is an array.
    pub fn as_array(&self) -> (r: Option<&Vec<Json>>)
        ensures
            match r {
                Some(items) => self@.as_array() == Some(Seq::new(items@.len(), |i: int| items@[i]@)),
                None => self@.as_array() is None,
            },
    {
        match self {
            Json::Array(items) => {
                assert(self@->Array_0 =~= Seq::new(items@.len(), |i: int| items@[i]@));
                Some(items)
            },
            _ => None,
        }
    }

    /// The characters, if this is a string.
    pub fn as_str(&self) -> (r: Option<&str>)
        ensures
            match r {
                Some(text) => self@.as_text() == Some(text@),
                None => self@.as_text() is None,
            },
    {
        match self {
            Json::Text(text) => Some(text.as_str()),
            _ => None,
        }
    }
}

} // verus!
