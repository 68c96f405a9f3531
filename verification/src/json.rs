//! JSON documents.
//!
//! The library reads and edits documents in its own type, [`Json`]. Reading a
//! document from text and writing it back is `serde_json`'s work; what that
//! crate is trusted for stands in this file.

use crate::assoc;
use crate::text::{chars_of, text_of};
use vstd::prelude::*;

verus! {

/// An outside type: a document as `serde_json` holds it.
#[verifier::external_type_specification]
#[verifier::external_body]
pub struct ExJsonValue(serde_json::Value);

/// An outside type: a number as `serde_json` holds it.
#[verifier::external_type_specification]
#[verifier::external_body]
pub struct ExJsonNumber(serde_json::Number);

/// An outside type: what `serde_json` reports of a text that is no document.
#[verifier::external_type_specification]
#[verifier::external_body]
pub struct ExJsonError(serde_json::Error);

/// A number that is not an integer of 64 bits. The library carries such a
/// number through and never looks at it; only reading a text makes one.
#[derive(Debug)]
pub struct FloatNumber {
    number: serde_json::Number,
}

/// The key that `serde_json` keeps to itself: an object whose first key this is,
/// it may read as the document that the member's text holds.
pub const RESERVED_KEY: &'static str = "$serde_json::private::RawValue";

/// A JSON document.
#[derive(Debug)]
pub enum Json {
    Null,
    Bool(bool),
    Unsigned(u64),
    Signed(i64),
    Float(FloatNumber),
    String(String),
    Array(Vec<Json>),
    Object(JsonObject),
}

/// The members of a JSON object, in the order in which their keys were first
/// set. No key occurs twice.
#[derive(Debug)]
pub struct JsonObject {
    entries: Vec<(String, Json)>,
}

/// The mathematical model of [`Json`].
#[verifier::ext_equal]
pub enum JsonView {
    Null,
    Bool(bool),
    Int(int),
    Float(FloatNumber),
    String(Seq<char>),
    Array(Seq<JsonView>),
    Object(Seq<(Seq<char>, JsonView)>),
}

impl JsonView {
    /// The object without members.
    pub open spec fn object() -> JsonView {
        JsonView::Object(Seq::empty())
    }

    /// The member `key`, where this is an object that has it.
    pub open spec fn get(self, key: Seq<char>) -> Option<JsonView> {
        match self {
            JsonView::Object(members) => assoc::lookup(members, key),
            _ => None,
        }
    }

    /// This object with the member `key` set to `value`. Anything that is not
    /// an object stays as it is.
    pub open spec fn field(self, key: Seq<char>, value: JsonView) -> JsonView {
        match self {
            JsonView::Object(members) => JsonView::Object(assoc::store(members, key, value)),
            _ => self,
        }
    }

    /// This object with the member `key` set where there is a value for it.
    pub open spec fn field_opt(self, key: Seq<char>, value: Option<JsonView>) -> JsonView {
        match value {
            Some(value) => self.field(key, value),
            None => self,
        }
    }

    /// This object without the member `key`.
    pub open spec fn without(self, key: Seq<char>) -> JsonView {
        match self {
            JsonView::Object(members) => JsonView::Object(assoc::erase(members, key)),
            _ => self,
        }
    }

    /// The text of a string.
    pub open spec fn as_str(self) -> Option<Seq<char>> {
        match self {
            JsonView::String(text) => Some(text),
            _ => None,
        }
    }

    /// The text of the member `key`, where that is a string.
    pub open spec fn get_str(self, key: Seq<char>) -> Option<Seq<char>> {
        match self.get(key) {
            Some(value) => value.as_str(),
            None => None,
        }
    }

    /// Whether the document is made of the parts that come back unchanged when
    /// its text is read again: no number but 64-bit integers, no key twice, no
    /// object that begins with the reserved key, and arrays and objects nested no
    /// deeper than `depth`.
    pub open spec fn plain_within(self, depth: nat) -> bool
        decreases depth,
    {
        match self {
            JsonView::Int(i) => i64::MIN <= i <= u64::MAX,
            JsonView::Float(_) => false,
            JsonView::Array(items) => depth > 0 && forall|i: int|
                0 <= i < items.len() ==> (#[trigger] items[i]).plain_within((depth - 1) as nat),
            JsonView::Object(members) => {
                &&& depth > 0
                &&& assoc::distinct(members)
                &&& members.len() > 0 ==> members[0].0 != RESERVED_KEY@
                &&& forall|i: int|
                    0 <= i < members.len() ==> (#[trigger] members[i]).1.plain_within(
                        (depth - 1) as nat,
                    )
            },
            _ => true,
        }
    }
}

/// The document of an optional text.
pub open spec fn text_opt(text: Option<Seq<char>>) -> Option<JsonView> {
    match text {
        Some(text) => Some(JsonView::String(text)),
        None => None,
    }
}

/// A document, or null where there is none.
pub open spec fn or_null(document: Option<JsonView>) -> JsonView {
    match document {
        Some(document) => document,
        None => JsonView::Null,
    }
}

/// The document of an optional number.
pub open spec fn number_opt(number: Option<u64>) -> Option<JsonView> {
    match number {
        Some(number) => Some(JsonView::Int(number as int)),
        None => None,
    }
}

/// A member that was set is read back, and no other member is disturbed.
pub broadcast proof fn lemma_get_field(json: JsonView, key: Seq<char>, value: JsonView, other: Seq<char>)
    ensures
        json is Object ==> #[trigger] json.field(key, value).get(other) == if other == key {
            Some(value)
        } else {
            json.get(other)
        },
{
    if let JsonView::Object(members) = json {
        assoc::lemma_store(members, key, value, other);
    }
}

/// What a value of `serde_json` holds.
pub uninterp spec fn value_document(value: serde_json::Value) -> JsonView;

/// What `serde_json::from_slice` makes of a text: the document that it reads, or
/// what its error says.
pub uninterp spec fn json_reading(text: Seq<u8>) -> Result<JsonView, Seq<char>>;

/// The document that a text holds, where it holds one.
pub open spec fn json_document(text: Seq<u8>) -> Option<JsonView> {
    match json_reading(text) {
        Ok(document) => Some(document),
        Err(_) => None,
    }
}

/// The text that `serde_json::to_vec` writes for a document.
pub uninterp spec fn json_text(document: JsonView) -> Seq<u8>;

/// Calls `serde_json::from_slice`: the text is accepted exactly where
/// [`json_reading`] has a document for it, and the value holds that document;
/// otherwise the error says what [`json_reading`] has.
#[verifier::external_body]
fn read_value(text: &[u8]) -> (result: Result<serde_json::Value, serde_json::Error>)
    ensures
        match result {
            Ok(value) => json_reading(text@) == Ok::<JsonView, Seq<char>>(value_document(value)),
            Err(error) => json_reading(text@) == Err::<JsonView, Seq<char>>(error_text(error)),
        },
{
    serde_json::from_slice(text)
}

/// Calls `serde_json::to_vec`, which does not fail on a value: its keys are
/// strings, its numbers finite, and a vector takes every byte. The text is
/// [`json_text`] of what the value holds. It holds no line feed: nothing stands
/// between the parts, and one in a string is escaped. Read again, a text gives
/// back the document it was written for, where that document is plain: the crate
/// reads at most 127 nested arrays and objects, rounds numbers with a fraction,
/// and where its feature `raw_value` is on, does not read an object that begins
/// with [`RESERVED_KEY`] as one.
#[verifier::external_body]
fn write_value(value: &serde_json::Value) -> (result: Result<Vec<u8>, serde_json::Error>)
    ensures
        result is Ok,
        result->Ok_0@ == json_text(value_document(*value)),
        !result->Ok_0@.contains(10u8),
        value_document(*value).plain_within(127) ==> json_document(result->Ok_0@) == Some(
            value_document(*value),
        ),
{
    serde_json::to_vec(value)
}

/// Takes a `serde_json::Value` apart into the library's own type, variant by
/// variant: the result is what the value holds.
#[verifier::external_body]
fn json_from_value(value: serde_json::Value) -> (json: Json)
    ensures
        json@ == value_document(value),
{
    match value {
        serde_json::Value::Null => Json::Null,
        serde_json::Value::Bool(b) => Json::Bool(b),
        serde_json::Value::Number(n) => match (n.as_u64(), n.as_i64()) {
            (Some(u), _) => Json::Unsigned(u),
            (None, Some(i)) => Json::Signed(i),
            (None, None) => Json::Float(FloatNumber { number: n }),
        },
        serde_json::Value::String(s) => Json::String(s),
        serde_json::Value::Array(a) => Json::Array(a.into_iter().map(json_from_value).collect()),
        serde_json::Value::Object(o) => Json::Object(
            JsonObject { entries: o.into_iter().map(|(k, v)| (k, json_from_value(v))).collect() },
        ),
    }
}

/// Builds the `serde_json::Value` of a document, variant by variant: the value
/// holds the document. The members of an object keep their order.
#[verifier::external_body]
fn json_to_value(json: &Json) -> (value: serde_json::Value)
    ensures
        value_document(value) == json@,
{
    match json {
        Json::Null => serde_json::Value::Null,
        Json::Bool(b) => serde_json::Value::Bool(*b),
        Json::Unsigned(u) => serde_json::Value::Number(serde_json::Number::from(*u)),
        Json::Signed(i) => serde_json::Value::Number(serde_json::Number::from(*i)),
        Json::Float(f) => serde_json::Value::Number(f.number.clone()),
        Json::String(s) => serde_json::Value::String(s.clone()),
        Json::Array(a) => serde_json::Value::Array(a.iter().map(json_to_value).collect()),
        Json::Object(o) => serde_json::Value::Object(
            o.entries.iter().map(|(k, v)| (k.clone(), json_to_value(v))).collect(),
        ),
    }
}

/// A number's clone is the same number.
pub assume_specification[ <serde_json::Number as Clone>::clone ](
    number: &serde_json::Number,
) -> (copy: serde_json::Number)
    ensures
        copy == *number,
;

/// What an error of `serde_json` says of itself.
pub uninterp spec fn error_text(error: serde_json::Error) -> Seq<char>;

/// The text that the `Display` of a `serde_json::Error` writes. What it says is
/// not stated.
#[verifier::external_body]
pub(crate) fn describe(error: &serde_json::Error) -> (said: String)
    ensures
        said@ == error_text(*error),
{
    error.to_string()
}

/// Whether two numbers of `serde_json` are equal.
pub uninterp spec fn numbers_equal(a: serde_json::Number, b: serde_json::Number) -> bool;

/// Calls the `==` of `serde_json::Number`. Of numbers with a fraction it is the
/// `==` of floating point, by which the two zeros are equal; that is not said
/// here.
#[verifier::external_body]
fn same_number(a: &serde_json::Number, b: &serde_json::Number) -> (same: bool)
    ensures
        same == numbers_equal(*a, *b),
{
    a == b
}

/// What `serde_json` calls a document that is not of the type it looks for: its
/// kind and, of a scalar, its value.
pub uninterp spec fn unexpected_text(document: JsonView) -> Seq<char>;

/// Calls `serde_json::from_value` for the type `()`: null is accepted, and of
/// anything else the error says what it is instead.
#[verifier::external_body]
fn read_unit(value: serde_json::Value) -> (result: Result<(), serde_json::Error>)
    ensures
        match result {
            Ok(_) => value_document(value) is Null,
            Err(error) => !(value_document(value) is Null) && error_text(error)
                == "invalid type: "@ + unexpected_text(value_document(value)) + ", expected unit"@,
        },
{
    serde_json::from_value(value)
}

/// What `serde_json` says of a document that is not of the type it looks for.
pub open spec fn type_fault(document: JsonView, expected: Seq<char>) -> Seq<char> {
    "invalid type: "@ + if document is Null {
        "null"@
    } else {
        unexpected_text(document)
    } + ", expected "@ + expected
}

impl FloatNumber {
    /// Whether two numbers are equal.
    pub closed spec fn same(self, other: FloatNumber) -> bool {
        numbers_equal(self.number, other.number)
    }
}

impl JsonView {
    /// Whether two documents are equal: the order of an object's members does
    /// not count.
    pub open spec fn same(self, other: JsonView) -> bool
        decreases self,
    {
        match (self, other) {
            (JsonView::Null, JsonView::Null) => true,
            (JsonView::Bool(a), JsonView::Bool(b)) => a == b,
            (JsonView::Int(a), JsonView::Int(b)) => a == b,
            (JsonView::Float(a), JsonView::Float(b)) => a.same(b),
            (JsonView::String(a), JsonView::String(b)) => a == b,
            (JsonView::Array(a), JsonView::Array(b)) => a.len() == b.len() && forall|i: int|
                0 <= i < a.len() ==> (#[trigger] a[i]).same(b[i]),
            (JsonView::Object(a), JsonView::Object(b)) => a.len() == b.len() && forall|i: int|
                0 <= i < a.len() ==> match assoc::lookup(b, (#[trigger] a[i]).0) {
                    Some(member) => a[i].1.same(member),
                    None => false,
                },
            _ => false,
        }
    }
}

impl JsonObject {
    /// The members as key/document pairs.
    pub closed spec fn members(self) -> Seq<(Seq<char>, JsonView)>
        decreases self,
    {
        Seq::new(
            self.entries@.len(),
            |i: int|
                if 0 <= i < self.entries@.len() {
                    (self.entries@[i].0@, self.entries@[i].1.document())
                } else {
                    arbitrary()
                },
        )
    }

    #[verifier::type_invariant]
    spec fn keys_differ(self) -> bool {
        forall|i: int, j: int|
            0 <= i < j < self.entries@.len() ==> self.entries@[i].0@ != self.entries@[j].0@
    }

    /// Where `key` stands, or the number of members.
    fn position(&self, key: &str) -> (at: usize)
        ensures
            at == assoc::index_of(self.members(), key@),
            at <= self.entries@.len(),
    {
        let wanted = key.to_owned();
        let mut at: usize = 0;
        while at < self.entries.len()
            invariant
                at <= self.entries@.len(),
                wanted@ == key@,
                forall|j: int| 0 <= j < at ==> self.members()[j].0 != key@,
            decreases self.entries@.len() - at,
        {
            if self.entries[at].0 == wanted {
                proof {
                    assoc::lemma_index_is(self.members(), key@, at as int);
                }
                return at;
            }
            at += 1;
        }
        proof {
            assoc::lemma_index_is(self.members(), key@, at as int);
        }
        at
    }

    /// The object without members.
    pub fn new() -> (object: JsonObject)
        ensures
            object.members() == Seq::<(Seq<char>, JsonView)>::empty(),
    {
        let object = JsonObject { entries: Vec::new() };
        assert(object.members() =~= Seq::<(Seq<char>, JsonView)>::empty());
        object
    }

    /// Number of members.
    pub fn len(&self) -> (count: usize)
        ensures
            count == self.members().len(),
    {
        self.entries.len()
    }

    /// The member at `index`.
    pub fn entry(&self, index: usize) -> (member: (&str, &Json))
        requires
            index < self.members().len(),
        ensures
            (member.0@, member.1@) == self.members()[index as int],
    {
        (self.entries[index].0.as_str(), &self.entries[index].1)
    }

    /// The member `key`.
    pub fn get(&self, key: &str) -> (value: Option<&Json>)
        ensures
            value.deep_view() == assoc::lookup(self.members(), key@),
    {
        let at: usize = self.position(key);
        if at < self.entries.len() {
            Some(&self.entries[at].1)
        } else {
            None
        }
    }

    /// This object with the member `key` set to `value`: in place where it has
    /// the member, at the end where it has not.
    pub fn with(self, key: &str, value: Json) -> (object: JsonObject)
        ensures
            object.members() == assoc::store(self.members(), key@, value@),
    {
        proof {
            use_type_invariant(&self);
            assoc::lemma_index_of(self.members(), key@);
        }
        let at: usize = self.position(key);
        let ghost before = self.members();
        let mut entries = self.entries;
        let ghost old_entries = entries@;
        if at < entries.len() {
            entries.set(at, (key.to_owned(), value));
        } else {
            entries.push((key.to_owned(), value));
        }
        assert forall|i: int, j: int| 0 <= i < j < entries@.len() implies entries@[i].0@
            != entries@[j].0@ by {
            assert(i < old_entries.len() ==> before[i].0 == old_entries[i].0@);
            assert(j < old_entries.len() ==> before[j].0 == old_entries[j].0@);
        }
        let object = JsonObject { entries };
        assert(object.members() =~= assoc::store(before, key@, value@));
        object
    }

    /// This object without the member `key`.
    pub fn without(self, key: &str) -> (object: JsonObject)
        ensures
            object.members() == assoc::erase(self.members(), key@),
    {
        proof {
            use_type_invariant(&self);
            assoc::lemma_index_of(self.members(), key@);
        }
        let at: usize = self.position(key);
        let ghost before = self.members();
        let mut entries = self.entries;
        if at < entries.len() {
            entries.remove(at);
        }
        let object = JsonObject { entries };
        assert(object.members() =~= assoc::erase(before, key@));
        object
    }
}

impl Json {
    /// The document that this value is.
    pub open spec fn document(self) -> JsonView
        decreases self,
    {
        match self {
            Json::Null => JsonView::Null,
            Json::Bool(b) => JsonView::Bool(b),
            Json::Unsigned(u) => JsonView::Int(u as int),
            Json::Signed(i) => JsonView::Int(i as int),
            Json::Float(f) => JsonView::Float(f),
            Json::String(s) => JsonView::String(s@),
            Json::Array(items) => JsonView::Array(
                Seq::new(
                    items@.len(),
                    |i: int|
                        if 0 <= i < items@.len() {
                            items@[i].document()
                        } else {
                            arbitrary()
                        },
                ),
            ),
            Json::Object(object) => JsonView::Object(object.members()),
        }
    }
}

impl Json {
    /// Reads a document from its text.
    pub fn parse(text: &[u8]) -> (result: Result<Json, serde_json::Error>)
        ensures
            match result {
                Ok(json) => json_reading(text@) == Ok::<JsonView, Seq<char>>(json@),
                Err(error) => json_reading(text@) == Err::<JsonView, Seq<char>>(
                    error_text(error),
                ),
            },
    {
        match read_value(text) {
            Ok(value) => Ok(json_from_value(value)),
            Err(error) => Err(error),
        }
    }

    /// The text of this document.
    pub fn to_vec(&self) -> (text: Vec<u8>)
        ensures
            text@ == json_text(self@),
            !text@.contains(10u8),
            self@.plain_within(127) ==> json_document(text@) == Some(self@),
    {
        let value = json_to_value(self);
        match write_value(&value) {
            Ok(text) => text,
            Err(_) => Vec::new(),
        }
    }

    /// Says that this document is not of the type looked for.
    pub fn type_fault(&self, expected: &str) -> (said: String)
        ensures
            said@ == type_fault(self@, expected@),
    {
        let mut said = match read_unit(json_to_value(self)) {
            Ok(_) => "invalid type: null, expected ".to_owned(),
            Err(error) => {
                let other = describe(&error);
                let chars = chars_of(other.as_str());
                proof {
                    reveal_strlit(", expected unit");
                    reveal_strlit(", expected ");
                    assert(", expected unit"@.take(11) =~= ", expected "@);
                }
                let kept = text_of(&chars, 0, chars.len() - 4);
                assert(kept@ =~= "invalid type: "@ + unexpected_text(self@) + ", expected "@);
                kept
            },
        };
        proof {
            reveal_strlit("invalid type: null, expected ");
            reveal_strlit("invalid type: ");
            reveal_strlit("null");
            reveal_strlit(", expected ");
            assert("invalid type: null, expected "@ =~= "invalid type: "@ + "null"@ + ", expected "@);
        }
        said.append(expected);
        said
    }

    /// The object without members.
    pub fn object() -> (json: Json)
        ensures
            json@ == JsonView::object(),
    {
        Json::Object(JsonObject::new())
    }

    /// The string `text`.
    pub fn string(text: &str) -> (json: Json)
        ensures
            json@ == JsonView::String(text@),
    {
        Json::String(text.to_owned())
    }

    /// The string `text`, where there is one.
    pub fn string_opt(text: Option<&str>) -> (json: Option<Json>)
        ensures
            json.deep_view() == text_opt(text.deep_view()),
    {
        match text {
            Some(text) => Some(Json::string(text)),
            None => None,
        }
    }

    /// The number, where there is one.
    pub fn unsigned_opt(number: Option<u64>) -> (json: Option<Json>)
        ensures
            json.deep_view() == number_opt(number),
    {
        match number {
            Some(number) => Some(Json::Unsigned(number)),
            None => None,
        }
    }

    /// The array of `items`.
    pub fn array(items: Vec<Json>) -> (json: Json)
        ensures
            json@ == JsonView::Array(items.deep_view()),
    {
        let json = Json::Array(items);
        assert(json@->Array_0 =~= items.deep_view());
        json
    }

    /// The member `key` of an object.
    pub fn get(&self, key: &str) -> (value: Option<&Json>)
        ensures
            value.deep_view() == self@.get(key@),
    {
        match self {
            Json::Object(object) => object.get(key),
            _ => None,
        }
    }

    /// A copy of the member `key` of an object.
    pub fn get_owned(&self, key: &str) -> (value: Option<Json>)
        ensures
            value.deep_view() == self@.get(key@),
    {
        match self.get(key) {
            Some(value) => Some(value.clone()),
            None => None,
        }
    }

    /// Whether this is an object that has the member `key`.
    pub fn has(&self, key: &str) -> (found: bool)
        ensures
            found == (self@.get(key@) is Some),
    {
        match self.get(key) {
            Some(_) => true,
            None => false,
        }
    }

    /// The text of a string.
    pub fn as_str(&self) -> (text: Option<&str>)
        ensures
            text.deep_view() == self@.as_str(),
    {
        match self {
            Json::String(text) => Some(text.as_str()),
            _ => None,
        }
    }

    /// The text of the member `key`, where that is a string.
    pub fn get_str(&self, key: &str) -> (text: Option<&str>)
        ensures
            text.deep_view() == self@.get_str(key@),
    {
        match self.get(key) {
            Some(value) => value.as_str(),
            None => None,
        }
    }

    /// Whether this is an object.
    pub fn is_object(&self) -> (yes: bool)
        ensures
            yes == (self@ is Object),
    {
        match self {
            Json::Object(_) => true,
            _ => false,
        }
    }

    /// Whether this is null.
    pub fn is_null(&self) -> (yes: bool)
        ensures
            yes == (self@ is Null),
    {
        match self {
            Json::Null => true,
            _ => false,
        }
    }

    /// This object with the member `key` set to `value`. Anything that is not
    /// an object stays as it is.
    pub fn field(self, key: &str, value: Json) -> (json: Json)
        ensures
            json@ == self@.field(key@, value@),
    {
        match self {
            Json::Object(object) => Json::Object(object.with(key, value)),
            other => other,
        }
    }

    /// This object with the member `key` set where there is a value for it.
    pub fn field_opt(self, key: &str, value: Option<Json>) -> (json: Json)
        ensures
            json@ == self@.field_opt(key@, value.deep_view()),
    {
        match value {
            Some(value) => self.field(key, value),
            None => self,
        }
    }

    /// This object without the member `key`.
    pub fn without(self, key: &str) -> (json: Json)
        ensures
            json@ == self@.without(key@),
    {
        match self {
            Json::Object(object) => Json::Object(object.without(key)),
            other => other,
        }
    }
}

impl JsonObject {
    /// Whether two objects have equal members.
    pub fn same(&self, other: &JsonObject) -> (same: bool)
        ensures
            same == JsonView::Object(self.members()).same(JsonView::Object(other.members())),
        decreases self,
    {
        if self.entries.len() != other.entries.len() {
            return false;
        }
        let mut at: usize = 0;
        while at < self.entries.len()
            invariant
                at <= self.entries@.len(),
                self.entries@.len() == other.entries@.len(),
                forall|i: int|
                    0 <= i < at ==> match assoc::lookup(
                        other.members(),
                        (#[trigger] self.members()[i]).0,
                    ) {
                        Some(member) => self.members()[i].1.same(member),
                        None => false,
                    },
            decreases self.entries@.len() - at,
        {
            let ghost member = self.members()[at as int];
            match other.get(self.entries[at].0.as_str()) {
                Some(value) => if !self.entries[at].1.same(value) {
                    return false;
                },
                None => {
                    return false;
                },
            }
            at += 1;
        }
        true
    }
}

impl Json {
    /// Whether two documents are equal.
    pub fn same(&self, other: &Json) -> (same: bool)
        ensures
            same == self@.same(other@),
        decreases self,
    {
        match (self, other) {
            (Json::Null, Json::Null) => true,
            (Json::Bool(a), Json::Bool(b)) => *a == *b,
            (Json::Unsigned(a), Json::Unsigned(b)) => *a == *b,
            (Json::Signed(a), Json::Signed(b)) => *a == *b,
            (Json::Unsigned(a), Json::Signed(b)) => *b >= 0 && *a == *b as u64,
            (Json::Signed(a), Json::Unsigned(b)) => *a >= 0 && *a as u64 == *b,
            (Json::Float(a), Json::Float(b)) => same_number(&a.number, &b.number),
            (Json::String(a), Json::String(b)) => *a == *b,
            (Json::Array(a), Json::Array(b)) => {
                if a.len() != b.len() {
                    return false;
                }
                let mut at: usize = 0;
                while at < a.len()
                    invariant
                        at <= a@.len(),
                        a@.len() == b@.len(),
                        *self == Json::Array(*a),
                        *other == Json::Array(*b),
                        forall|i: int|
                            0 <= i < at ==> (#[trigger] self@->Array_0[i]).same(other@->Array_0[i]),
                    decreases a@.len() - at,
                {
                    assert(decreases_to!(self => self->Array_0@[at as int]));
                    let ghost item = self@->Array_0[at as int];
                    if !a[at].same(&b[at]) {
                        return false;
                    }
                    at += 1;
                }
                true
            },
            (Json::Object(a), Json::Object(b)) => a.same(b),
            _ => false,
        }
    }
}

impl PartialEq for Json {
    fn eq(&self, other: &Self) -> (same: bool) {
        self.same(other)
    }
}

impl vstd::std_specs::cmp::PartialEqSpecImpl for Json {
    open spec fn obeys_eq_spec() -> bool {
        true
    }

    open spec fn eq_spec(&self, other: &Self) -> bool {
        self@.same(other@)
    }
}

impl Eq for Json {

}

impl PartialEq for JsonObject {
    fn eq(&self, other: &Self) -> (same: bool) {
        self.same(other)
    }
}

impl vstd::std_specs::cmp::PartialEqSpecImpl for JsonObject {
    open spec fn obeys_eq_spec() -> bool {
        true
    }

    open spec fn eq_spec(&self, other: &Self) -> bool {
        JsonView::Object(self.members()).same(JsonView::Object(other.members()))
    }
}

impl Eq for JsonObject {

}

impl View for Json {
    type V = JsonView;

    open spec fn view(&self) -> JsonView {
        self.document()
    }
}

impl DeepView for Json {
    type V = JsonView;

    open spec fn deep_view(&self) -> JsonView {
        self.document()
    }
}

impl Clone for JsonObject {
    fn clone(&self) -> (copy: Self)
        ensures
            copy.members() == self.members(),
        decreases self,
    {
        proof {
            use_type_invariant(self);
        }
        let mut entries: Vec<(String, Json)> = Vec::new();
        let mut at: usize = 0;
        while at < self.entries.len()
            invariant
                at <= self.entries@.len(),
                entries@.len() == at,
                forall|j: int|
                    0 <= j < at ==> (#[trigger] entries@[j]).0@ == self.entries@[j].0@
                        && entries@[j].1@ == self.entries@[j].1@,
            decreases self.entries@.len() - at,
        {
            let key = self.entries[at].0.clone();
            let value = self.entries[at].1.clone();
            entries.push((key, value));
            at += 1;
        }
        let copy = JsonObject { entries };
        assert(copy.members() =~= self.members());
        copy
    }
}

impl Clone for FloatNumber {
    fn clone(&self) -> (copy: Self)
        ensures
            copy == *self,
    {
        FloatNumber { number: self.number.clone() }
    }
}

impl Clone for Json {
    fn clone(&self) -> (copy: Self)
        ensures
            copy@ == self@,
        decreases self,
    {
        match self {
            Json::Null => Json::Null,
            Json::Bool(b) => Json::Bool(*b),
            Json::Unsigned(u) => Json::Unsigned(*u),
            Json::Signed(i) => Json::Signed(*i),
            Json::Float(f) => Json::Float(f.clone()),
            Json::String(s) => Json::String(s.clone()),
            Json::Array(items) => {
                let mut copies: Vec<Json> = Vec::new();
                let mut at: usize = 0;
                while at < items.len()
                    invariant
                        at <= items@.len(),
                        copies@.len() == at,
                        *self == Json::Array(*items),
                        forall|j: int|
                            0 <= j < at ==> (#[trigger] copies@[j])@ == items@[j]@,
                    decreases items@.len() - at,
                {
                    assert(decreases_to!(self => self->Array_0@[at as int]));
                    let copy = items[at].clone();
                    copies.push(copy);
                    at += 1;
                }
                let copy = Json::Array(copies);
                assert(copy@->Array_0 =~= self@->Array_0);
                copy
            },
            Json::Object(object) => Json::Object(object.clone()),
        }
    }
}

/// A type that stands in documents.
pub trait ToJson: DeepView {
    /// The document of a value, over the model of the value.
    spec fn json_of(view: Self::V) -> JsonView;

    /// The document of this value.
    fn to_json(&self) -> (json: Json)
        ensures
            json@ == Self::json_of(self.deep_view()),
    ;
}

/// The array of the documents of some values.
pub open spec fn array_json<T: ToJson>(items: Seq<T::V>) -> JsonView {
    JsonView::Array(items.map_values(|item: T::V| T::json_of(item)))
}

/// The array of the documents of some values.
pub fn array_of<T: ToJson>(items: &Vec<T>) -> (json: Json)
    ensures
        json@ == array_json::<T>(items.deep_view()),
{
    let mut documents: Vec<Json> = Vec::new();
    let mut at: usize = 0;
    while at < items.len()
        invariant
            at <= items@.len(),
            documents@.len() == at,
            forall|i: int|
                0 <= i < at ==> (#[trigger] documents@[i])@ == T::json_of(items@[i].deep_view()),
        decreases items@.len() - at,
    {
        documents.push(items[at].to_json());
        at += 1;
    }
    assert(documents.deep_view() =~= items.deep_view().map_values(|item: T::V| T::json_of(item)));
    Json::array(documents)
}

/// What is there is shown, and what is not is left out, or null where a member has
/// to be.
pub proof fn law_what_is_missing_is_left_out(text: Seq<char>, number: u64, value: JsonView)
    ensures
        text_opt(Some(text)) == Some(JsonView::String(text)),
        text_opt(None) is None,
        number_opt(Some(number)) == Some(JsonView::Int(number as int)),
        number_opt(None) is None,
        or_null(Some(value)) == value,
        or_null(None) == JsonView::Null,
{
}

/// An object holds what was put into it under the name it was put under: the last
/// value counts, a member that is not there is not put in, and every other member
/// stays.
pub proof fn law_members_read_back(
    object: JsonView,
    key: Seq<char>,
    value: JsonView,
    other: Seq<char>,
)
    requires
        object is Object,
    ensures
        JsonView::object() is Object,
        JsonView::object().get(key) is None,
        object.field(key, value) is Object,
        object.field(key, value).get(key) == Some(value),
        other != key ==> object.field(key, value).get(other) == object.get(other),
        object.field_opt(key, Some(value)) == object.field(key, value),
        object.field_opt(key, None) == object,
        assoc::distinct(object->Object_0) ==> object.without(key).get(key) is None,
        assoc::distinct(object->Object_0) && other != key ==> object.without(key).get(other)
            == object.get(other),
        value is String ==> object.field(key, value).get_str(key) == Some(value->String_0),
        !(value is String) ==> object.field(key, value).get_str(key) is None,
{
    broadcast use lemma_get_field;

    if assoc::distinct(object->Object_0) {
        assoc::lemma_erase(object->Object_0, key, key);
        assoc::lemma_erase(object->Object_0, key, other);
    }
}

/// What is said of a document of the wrong type names what it is and what was
/// expected.
pub proof fn law_type_fault_says_both(document: JsonView, expected: Seq<char>)
    ensures
        document is Null ==> type_fault(document, expected) == "invalid type: "@ + "null"@
            + ", expected "@ + expected,
        !(document is Null) ==> type_fault(document, expected) == "invalid type: "@
            + unexpected_text(document) + ", expected "@ + expected,
{
}

/// Two lists are equal where they are equal item by item; two objects where they have
/// as many members and each member of the one equals that of the other under its
/// name, wherever it stands; texts, numbers and truth values where they are the same.
pub proof fn law_what_documents_are_equal(
    a: Seq<JsonView>,
    b: Seq<JsonView>,
    x: Seq<(Seq<char>, JsonView)>,
    y: Seq<(Seq<char>, JsonView)>,
    s: Seq<char>,
    t: Seq<char>,
    m: int,
    n: int,
)
    ensures
        JsonView::Array(a).same(JsonView::Array(b)) <==> a.len() == b.len() && forall|i: int|
            0 <= i < a.len() ==> (#[trigger] a[i]).same(b[i]),
        JsonView::Object(x).same(JsonView::Object(y)) <==> x.len() == y.len() && forall|i: int|
            0 <= i < x.len() ==> {
                let other = JsonView::Object(y).get((#[trigger] x[i]).0);
                other is Some && x[i].1.same(other->0)
            },
        JsonView::String(s).same(JsonView::String(t)) <==> s == t,
        JsonView::Int(m).same(JsonView::Int(n)) <==> m == n,
        JsonView::Bool(true).same(JsonView::Bool(true)),
        !JsonView::Bool(true).same(JsonView::Bool(false)),
        JsonView::Null.same(JsonView::Null),
        !JsonView::Null.same(JsonView::String(s)),
        !JsonView::Array(a).same(JsonView::Object(x)),
{
}

} // verus!
