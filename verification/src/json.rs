//! JSON documents as plain values, and reading typed values out of them.

use crate::text::parse_u32;
use crate::text::parse_u32_spec;
use serde_json::Value;
use vstd::prelude::*;
use vstd::utf8::valid_utf8;

verus! {

/// The mathematical model of a JSON document.
pub enum Json {
    Null,
    Bool(bool),
    /// An integer that is zero or above.
    PosInt(u64),
    /// An integer below zero.
    NegInt(i64),
    /// Any other number, by its numeral.
    Float(Seq<char>),
    Text(Seq<char>),
    List(Seq<Json>),
    Object(Seq<(Seq<char>, Json)>),
}

/// A JSON document.
#[derive(Debug)]
pub enum JsonValue {
    /// `null`
    Null,
    /// `true` or `false`
    Bool(bool),
    /// A number that is an integer, zero or above.
    PosInt(u64),
    /// A number that is an integer below zero.
    NegInt(i64),
    /// Any other number, held as its numeral.
    Float(String),
    /// A string.
    String(String),
    /// An array.
    Array(Vec<JsonValue>),
    /// An object: its members in the order in which they are held.
    Object(Vec<Member>),
}

/// One member of a JSON object.
#[derive(Debug)]
pub struct Member {
    /// The member's name.
    pub key: String,
    /// The member's value.
    pub value: JsonValue,
}

/// The model of the document `value`.
pub open spec fn model_of(value: JsonValue) -> Json
    decreases value,
{
    match value {
        JsonValue::Null => Json::Null,
        JsonValue::Bool(b) => Json::Bool(b),
        JsonValue::PosInt(n) => Json::PosInt(n),
        JsonValue::NegInt(n) => Json::NegInt(n),
        JsonValue::Float(numeral) => Json::Float(numeral@),
        JsonValue::String(s) => Json::Text(s@),
        JsonValue::Array(items) => Json::List(
            Seq::new(
                items@.len(),
                |i: int|
                    if 0 <= i < items@.len() {
                        model_of(items@[i])
                    } else {
                        Json::Null
                    },
            ),
        ),
        JsonValue::Object(members) => Json::Object(
            Seq::new(
                members@.len(),
                |i: int|
                    if 0 <= i < members@.len() {
                        (members@[i].key@, model_of(members@[i].value))
                    } else {
                        (Seq::empty(), Json::Null)
                    },
            ),
        ),
    }
}

impl View for JsonValue {
    type V = Json;

    open spec fn view(&self) -> Json {
        model_of(*self)
    }
}

/// The value of the last member named `key` among `members`: of two members
/// with one name the later one counts.
pub open spec fn lookup(members: Seq<(Seq<char>, Json)>, key: Seq<char>) -> Option<Json>
    decreases members.len(),
{
    if members.len() == 0 {
        None
    } else if members.last().0 == key {
        Some(members.last().1)
    } else {
        lookup(members.drop_last(), key)
    }
}

impl Json {
    /// The value of the member `key`, if this is an object that has one.
    pub open spec fn field(self, key: Seq<char>) -> Option<Json> {
        match self {
            Json::Object(members) => lookup(members, key),
            _ => None,
        }
    }

    /// The `u32` that this document holds as a number.
    pub open spec fn as_u32(self) -> Option<u32> {
        match self {
            Json::PosInt(n) => if n <= u32::MAX {
                Some(n as u32)
            } else {
                None
            },
            _ => None,
        }
    }

    /// The `u64` that this document holds as a number.
    pub open spec fn as_u64(self) -> Option<u64> {
        match self {
            Json::PosInt(n) => Some(n),
            _ => None,
        }
    }

    /// The `i64` that this document holds as a number.
    pub open spec fn as_i64(self) -> Option<i64> {
        match self {
            Json::PosInt(n) => if n <= i64::MAX {
                Some(n as i64)
            } else {
                None
            },
            Json::NegInt(n) => Some(n),
            _ => None,
        }
    }

    /// The `u32` that this document holds as a string of decimal digits.
    pub open spec fn as_u32_text(self) -> Option<u32> {
        match self {
            Json::Text(s) => parse_u32_spec(s),
            _ => None,
        }
    }
}

impl JsonValue {
    /// The value of the member `key`, if this is an object that has one.
    pub fn get(&self, key: &str) -> (r: Option<&JsonValue>)
        ensures
            match r {
                Some(v) => self@.field(key@) == Some(v@),
                None => self@.field(key@) is None,
            },
    {
        match self {
            JsonValue::Object(members) => {
                let ghost all = self@->Object_0;
                let mut i: usize = members.len();
                assert(all.take(i as int) =~= all);
                while i > 0
                    invariant
                        i <= members.len(),
                        self@ == Json::Object(all),
                        all.len() == members@.len(),
                        forall|k: int|
                            0 <= k < all.len() ==> #[trigger] all[k] == (
                                members@[k].key@,
                                members@[k].value@,
                            ),
                        lookup(all, key@) == lookup(all.take(i as int), key@),
                    decreases i,
                {
                    let ghost rest = all.take(i as int);
                    i -= 1;
                    assert(rest.last() == all[i as int]);
                    assert(rest.drop_last() =~= all.take(i as int));
                    if members[i].key.as_str().eq(key) {
                        return Some(&members[i].value);
                    }
                }
                None
            },
            _ => None,
        }
    }

    /// The number held, if it is an integer that fits in a `u32`.
    pub fn as_u32(&self) -> (r: Option<u32>)
        ensures
            r == self@.as_u32(),
    {
        match self {
            JsonValue::PosInt(n) => if *n <= 0xffff_ffff {
                Some(*n as u32)
            } else {
                None
            },
            _ => None,
        }
    }

    /// The number held, if it is an integer that fits in a `u64`.
    pub fn as_u64(&self) -> (r: Option<u64>)
        ensures
            r == self@.as_u64(),
    {
        match self {
            JsonValue::PosInt(n) => Some(*n),
            _ => None,
        }
    }

    /// The number held, if it is an integer that fits in an `i64`.
    pub fn as_i64(&self) -> (r: Option<i64>)
        ensures
            r == self@.as_i64(),
    {
        match self {
            JsonValue::PosInt(n) => if *n <= 0x7fff_ffff_ffff_ffff {
                Some(*n as i64)
            } else {
                None
            },
            JsonValue::NegInt(n) => Some(*n),
            _ => None,
        }
    }

    /// The `u32` written in the string held, if a string of decimal digits is
    /// held.
    pub fn as_u32_text(&self) -> (r: Option<u32>)
        ensures
            r == self@.as_u32_text(),
    {
        match self {
            JsonValue::String(s) => parse_u32(s.as_str()),
            _ => None,
        }
    }

    /// The string held.
    pub fn as_str(&self) -> (r: Option<&str>)
        ensures
            match r {
                Some(s) => self@ == Json::Text(s@),
                None => !(self@ is Text),
            },
    {
        match self {
            JsonValue::String(s) => Some(s.as_str()),
            _ => None,
        }
    }

    /// The boolean held.
    pub fn as_bool(&self) -> (r: Option<bool>)
        ensures
            match r {
                Some(b) => self@ == Json::Bool(b),
                None => !(self@ is Bool),
            },
    {
        match self {
            JsonValue::Bool(b) => Some(*b),
            _ => None,
        }
    }

    /// The items of the array held.
    pub fn as_array(&self) -> (r: Option<&Vec<JsonValue>>)
        ensures
            match r {
                Some(items) => self@ matches Json::List(xs) && xs.len() == items@.len()
                    && forall|i: int| 0 <= i < xs.len() ==> #[trigger] xs[i] == items@[i]@,
                None => !(self@ is List),
            },
    {
        match self {
            JsonValue::Array(items) => Some(items),
            _ => None,
        }
    }

    /// A copy of the document.
    pub fn duplicate(&self) -> (r: JsonValue)
        ensures
            r@ == self@,
        decreases self,
    {
        match self {
            JsonValue::Null => JsonValue::Null,
            JsonValue::Bool(b) => JsonValue::Bool(*b),
            JsonValue::PosInt(n) => JsonValue::PosInt(*n),
            JsonValue::NegInt(n) => JsonValue::NegInt(*n),
            JsonValue::Float(numeral) => JsonValue::Float(numeral.clone()),
            JsonValue::String(text) => JsonValue::String(text.clone()),
            JsonValue::Array(items) => {
                let mut copies: Vec<JsonValue> = Vec::new();
                let mut i: usize = 0;
                while i < items.len()
                    invariant
                        i <= items.len(),
                        *self == JsonValue::Array(*items),
                        copies@.len() == i,
                        forall|k: int| 0 <= k < i ==> (#[trigger] copies@[k])@ == items@[k]@,
                    decreases items.len() - i,
                {
                    proof {
                        vstd::std_specs::vec::axiom_vec_index_decreases(*items, i as int);
                        assert(decreases_to!(*self => self->Array_0));
                    }
                    copies.push(items[i].duplicate());
                    i += 1;
                }
                let r = JsonValue::Array(copies);
                assert(r@->List_0 =~= self@->List_0);
                r
            },
            JsonValue::Object(members) => {
                let mut copies: Vec<Member> = Vec::new();
                let mut i: usize = 0;
                while i < members.len()
                    invariant
                        i <= members.len(),
                        *self == JsonValue::Object(*members),
                        copies@.len() == i,
                        forall|k: int|
                            0 <= k < i ==> (#[trigger] copies@[k]).key@ == members@[k].key@
                                && copies@[k].value@ == members@[k].value@,
                    decreases members.len() - i,
                {
                    proof {
                        vstd::std_specs::vec::axiom_vec_index_decreases(*members, i as int);
                        assert(decreases_to!(*self => self->Object_0));
                        assert(decreases_to!(members[i as int] => members[i as int].value));
                    }
                    let value = members[i].value.duplicate();
                    copies.push(Member { key: members[i].key.clone(), value });
                    i += 1;
                }
                let r = JsonValue::Object(copies);
                assert(r@->Object_0 =~= self@->Object_0);
                r
            },
        }
    }

    /// Reads `bytes` as one JSON document.
    pub fn parse(bytes: &[u8]) -> (r: Result<JsonValue, SyntaxError>)
        ensures
            match r {
                Ok(doc) => json_reading(bytes@) == Ok::<Json, SyntaxFault>(doc@),
                Err(e) => json_reading(bytes@) == Err::<Json, SyntaxFault>(e@),
            },
            r is Ok ==> valid_utf8(bytes@),
    {
        parse_document(bytes)
    }

    /// The document as compact JSON text.
    pub fn to_string(&self) -> (r: String)
        ensures
            r@ == json_text(self@),
    {
        render_document(self)
    }

    /// Whether this is `null`.
    pub fn is_null(&self) -> (r: bool)
        ensures
            r == (self@ is Null),
    {
        match self {
            JsonValue::Null => true,
            _ => false,
        }
    }

    /// Whether this is an object.
    pub fn is_object(&self) -> (r: bool)
        ensures
            r == (self@ is Object),
    {
        match self {
            JsonValue::Object(_) => true,
            _ => false,
        }
    }
}

/// A document of `serde_json`, carried as it is.
#[verifier::external_type_specification]
#[verifier::external_body]
pub struct ExJsonDocument(serde_json::Value);

/// Why some bytes spell no JSON document, and where they stop doing so.
#[derive(Debug, Clone, PartialEq, Eq)]
pub struct SyntaxError {
    /// The line of the fault, counted from one.
    pub line: usize,
    /// The column of the fault, counted from one.
    pub column: usize,
    /// The fault in words.
    pub message: String,
}

/// The mathematical model of a [`SyntaxError`].
pub struct SyntaxFault {
    pub line: nat,
    pub column: nat,
    pub message: Seq<char>,
}

impl View for SyntaxError {
    type V = SyntaxFault;

    open spec fn view(&self) -> SyntaxFault {
        SyntaxFault { line: self.line as nat, column: self.column as nat, message: self.message@ }
    }
}

/// What reading the bytes `bytes` as one JSON document gives: the document
/// that they spell, or the fault that keeps them from spelling one.
pub uninterp spec fn json_reading(bytes: Seq<u8>) -> Result<Json, SyntaxFault>;

/// The compact JSON text of the document `doc`.
pub uninterp spec fn json_text(doc: Json) -> Seq<char>;

/// Copies a `serde_json::Value` into a [`JsonValue`], variant by variant. A
/// number becomes `PosInt` where `as_u64` gives it, else `NegInt` where
/// `as_i64` gives it, else `Float` with the numeral that the number displays
/// as; an object's members come in the order in which its map walks them.
#[verifier::external_body]
fn lift(value: &Value) -> JsonValue {
    match value {
        Value::Null => JsonValue::Null,
        Value::Bool(b) => JsonValue::Bool(*b),
        Value::Number(n) => match (n.as_u64(), n.as_i64()) {
            (Some(u), _) => JsonValue::PosInt(u),
            (None, Some(i)) => JsonValue::NegInt(i),
            (None, None) => JsonValue::Float(n.to_string()),
        },
        Value::String(s) => JsonValue::String(s.clone()),
        Value::Array(items) => JsonValue::Array(items.iter().map(lift).collect()),
        Value::Object(map) => JsonValue::Object(
            map.iter().map(|(k, v)| Member { key: k.clone(), value: lift(v) }).collect(),
        ),
    }
}

/// Copies a [`JsonValue`] into a `Value`, variant by variant. A
/// `Float` is read back from its numeral, and is `null` where the numeral is
/// none; of two members with one name the later one stays.
#[verifier::external_body]
fn lower(value: &JsonValue) -> Value {
    match value {
        JsonValue::Null => Value::Null,
        JsonValue::Bool(b) => Value::Bool(*b),
        JsonValue::PosInt(n) => Value::from(*n),
        JsonValue::NegInt(n) => Value::from(*n),
        JsonValue::Float(numeral) => numeral.parse().map_or(Value::Null, Value::Number),
        JsonValue::String(s) => Value::String(s.clone()),
        JsonValue::Array(items) => Value::Array(items.iter().map(lower).collect()),
        JsonValue::Object(members) => Value::Object(
            members.iter().map(|m| (m.key.clone(), lower(&m.value))).collect(),
        ),
    }
}

/// `serde_json::from_slice` reads one JSON document from `bytes`: it gives
/// the document that the bytes spell, or an error where they spell none, of
/// which the line, the column and the text are kept. Bytes that are not
/// valid UTF-8 spell no document.
#[verifier::external_body]
pub(crate) fn parse_document(bytes: &[u8]) -> (r: Result<JsonValue, SyntaxError>)
    ensures
        match r {
            Ok(doc) => json_reading(bytes@) == Ok::<Json, SyntaxFault>(doc@),
            Err(e) => json_reading(bytes@) == Err::<Json, SyntaxFault>(e@),
        },
        r is Ok ==> valid_utf8(bytes@),
{
    match serde_json::from_slice::<Value>(bytes) {
        Ok(value) => Ok(lift(&value)),
        Err(e) => Err(SyntaxError { line: e.line(), column: e.column(), message: e.to_string() }),
    }
}

/// `serde_json::Value`'s `to_string` writes a document as compact JSON text.
#[verifier::external_body]
pub(crate) fn render_document(doc: &JsonValue) -> (r: String)
    ensures
        r@ == json_text(doc@),
{
    lower(doc).to_string()
}

/// A value that can be read out of a JSON document.
pub trait FromJson: Sized {
    /// Whether `doc` has the shape of a value of this type.
    spec fn accepts(doc: Json) -> bool;

    /// Whether `value` is what `doc` holds.
    spec fn decodes_to(doc: Json, value: Self) -> bool;

    /// The name under which a mismatch is reported.
    spec fn spec_expected() -> Seq<char>;

    /// The name under which a mismatch is reported.
    fn expected() -> (name: &'static str)
        ensures
            name@ == Self::spec_expected(),
    ;

    /// Reads a value of this type out of `doc`, or `None` if `doc` has not
    /// the shape of one.
    fn from_json(doc: &JsonValue) -> (r: Option<Self>)
        ensures
            r is Some <==> Self::accepts(doc@),
            r matches Some(v) ==> Self::decodes_to(doc@, v),
    ;
}

/// Whether every document of `docs` has the shape of a `T`.
pub open spec fn all_accepted<T: FromJson>(docs: Seq<Json>) -> bool {
    forall|i: int| 0 <= i < docs.len() ==> T::accepts(#[trigger] docs[i])
}

/// Whether `values` holds, item by item, what `docs` hold.
pub open spec fn all_decoded<T: FromJson>(docs: Seq<Json>, values: Seq<T>) -> bool {
    &&& values.len() == docs.len()
    &&& forall|i: int| 0 <= i < docs.len() ==> T::decodes_to(#[trigger] docs[i], values[i])
}

/// Reads every item of `docs` as a `T`; `None` if one of them has not the
/// shape of a `T`.
pub fn decode_items<T: FromJson>(docs: &Vec<JsonValue>) -> (r: Option<Vec<T>>)
    ensures
        r is Some <==> all_accepted::<T>(docs@.map_values(|d: JsonValue| d@)),
        r matches Some(values) ==> all_decoded::<T>(docs@.map_values(|d: JsonValue| d@), values@),
{
    let ghost models = docs@.map_values(|d: JsonValue| d@);
    let mut out: Vec<T> = Vec::new();
    let mut i: usize = 0;
    while i < docs.len()
        invariant
            i <= docs.len(),
            models == docs@.map_values(|d: JsonValue| d@),
            out@.len() == i,
            forall|k: int| 0 <= k < i ==> T::accepts(#[trigger] models[k]),
            forall|k: int| 0 <= k < i ==> T::decodes_to(#[trigger] models[k], out@[k]),
        decreases docs.len() - i,
    {
        match T::from_json(&docs[i]) {
            Some(v) => {
                out.push(v);
            },
            None => {
                assert(!T::accepts(models[i as int]));
                return None;
            },
        }
        i += 1;
    }
    Some(out)
}

impl<T: FromJson> FromJson for Vec<T> {
    open spec fn accepts(doc: Json) -> bool {
        doc matches Json::List(docs) && all_accepted::<T>(docs)
    }

    open spec fn decodes_to(doc: Json, value: Self) -> bool {
        doc matches Json::List(docs) && all_decoded::<T>(docs, value@)
    }

    open spec fn spec_expected() -> Seq<char> {
        "a sequence"@
    }

    fn expected() -> (name: &'static str) {
        "a sequence"
    }

    fn from_json(doc: &JsonValue) -> (r: Option<Self>) {
        match doc.as_array() {
            Some(items) => {
                assert(doc@->List_0 =~= items@.map_values(|d: JsonValue| d@));
                decode_items::<T>(items)
            },
            None => None,
        }
    }
}

impl FromJson for String {
    /// Any string.
    open spec fn accepts(doc: Json) -> bool {
        doc is Text
    }

    open spec fn decodes_to(doc: Json, value: Self) -> bool {
        doc == Json::Text(value@)
    }

    open spec fn spec_expected() -> Seq<char> {
        "a string"@
    }

    fn expected() -> (name: &'static str) {
        "a string"
    }

    fn from_json(doc: &JsonValue) -> (r: Option<Self>) {
        match doc.as_str() {
            Some(text) => Some(text.to_owned()),
            None => None,
        }
    }
}

impl FromJson for bool {
    /// `true` or `false`.
    open spec fn accepts(doc: Json) -> bool {
        doc is Bool
    }

    open spec fn decodes_to(doc: Json, value: Self) -> bool {
        doc == Json::Bool(value)
    }

    open spec fn spec_expected() -> Seq<char> {
        "a boolean"@
    }

    fn expected() -> (name: &'static str) {
        "a boolean"
    }

    fn from_json(doc: &JsonValue) -> (r: Option<Self>) {
        doc.as_bool()
    }
}

impl FromJson for u32 {
    /// An integer from zero to the largest `u32`.
    open spec fn accepts(doc: Json) -> bool {
        doc.as_u32() is Some
    }

    open spec fn decodes_to(doc: Json, value: Self) -> bool {
        doc.as_u32() == Some(value)
    }

    open spec fn spec_expected() -> Seq<char> {
        "u32"@
    }

    fn expected() -> (name: &'static str) {
        "u32"
    }

    fn from_json(doc: &JsonValue) -> (r: Option<Self>) {
        doc.as_u32()
    }
}

impl FromJson for u64 {
    /// An integer from zero to the largest `u64`.
    open spec fn accepts(doc: Json) -> bool {
        doc.as_u64() is Some
    }

    open spec fn decodes_to(doc: Json, value: Self) -> bool {
        doc.as_u64() == Some(value)
    }

    open spec fn spec_expected() -> Seq<char> {
        "u64"@
    }

    fn expected() -> (name: &'static str) {
        "u64"
    }

    fn from_json(doc: &JsonValue) -> (r: Option<Self>) {
        doc.as_u64()
    }
}

impl<T: FromJson> FromJson for Option<T> {
    /// `null`, or a `T`.
    open spec fn accepts(doc: Json) -> bool {
        doc is Null || T::accepts(doc)
    }

    open spec fn decodes_to(doc: Json, value: Self) -> bool {
        if doc is Null {
            value is None
        } else {
            value matches Some(held) && T::decodes_to(doc, held)
        }
    }

    open spec fn spec_expected() -> Seq<char> {
        T::spec_expected()
    }

    fn expected() -> (name: &'static str) {
        T::expected()
    }

    fn from_json(doc: &JsonValue) -> (r: Option<Self>) {
        if doc.is_null() {
            Some(None)
        } else {
            match T::from_json(doc) {
                Some(held) => Some(Some(held)),
                None => None,
            }
        }
    }
}

/// Whether the object `doc` has a member `key` with the shape of a `T`.
pub open spec fn has<T: FromJson>(doc: Json, key: Seq<char>) -> bool {
    doc.field(key) matches Some(held) && T::accepts(held)
}

/// Whether `value` is what the member `key` of the object `doc` holds.
pub open spec fn holds<T: FromJson>(doc: Json, key: Seq<char>, value: T) -> bool {
    doc.field(key) matches Some(held) && T::decodes_to(held, value)
}

/// Whether the object `doc` has no member `key`, or one that is `null` or has
/// the shape of a `T`.
pub open spec fn may_have<T: FromJson>(doc: Json, key: Seq<char>) -> bool {
    doc.field(key) matches Some(held) ==> Option::<T>::accepts(held)
}

/// Whether `value` is what the member `key` of the object `doc` holds, a
/// missing member holding nothing.
pub open spec fn may_hold<T: FromJson>(doc: Json, key: Seq<char>, value: Option<T>) -> bool {
    match doc.field(key) {
        Some(held) => Option::<T>::decodes_to(held, value),
        None => value is None,
    }
}

/// Whether the object `doc` has no member `key`, or one that is an array of
/// items with the shape of a `T`.
pub open spec fn may_list<T: FromJson>(doc: Json, key: Seq<char>) -> bool {
    doc.field(key) matches Some(held) ==> Vec::<T>::accepts(held)
}

/// Whether `values` is what the member `key` of the object `doc` lists, a
/// missing member listing nothing.
pub open spec fn lists<T: FromJson>(doc: Json, key: Seq<char>, values: Vec<T>) -> bool {
    match doc.field(key) {
        Some(held) => Vec::<T>::decodes_to(held, values),
        None => values@.len() == 0,
    }
}

/// Reads the member `key` of `doc`, which must be there.
pub fn required<T: FromJson>(doc: &JsonValue, key: &str) -> (r: Option<T>)
    ensures
        r is Some <==> has::<T>(doc@, key@),
        r matches Some(value) ==> holds::<T>(doc@, key@, value),
{
    match doc.get(key) {
        Some(held) => T::from_json(held),
        None => None,
    }
}

/// Reads the member `key` of `doc`, which may be missing or `null`; the outer
/// `None` says that the member is there and has not the shape of a `T`.
pub fn optional<T: FromJson>(doc: &JsonValue, key: &str) -> (r: Option<Option<T>>)
    ensures
        r is Some <==> may_have::<T>(doc@, key@),
        r matches Some(value) ==> may_hold::<T>(doc@, key@, value),
{
    match doc.get(key) {
        Some(held) => Option::<T>::from_json(held),
        None => Some(None),
    }
}

/// Reads the member `key` of `doc` as a list, which is empty where the member
/// is missing; `None` says that the member is there and is no list of `T`.
pub fn listed<T: FromJson>(doc: &JsonValue, key: &str) -> (r: Option<Vec<T>>)
    ensures
        r is Some <==> may_list::<T>(doc@, key@),
        r matches Some(values) ==> lists::<T>(doc@, key@, values),
{
    match doc.get(key) {
        Some(held) => Vec::<T>::from_json(held),
        None => Some(Vec::new()),
    }
}

/// Whether the object `doc` has no member `key`, or one that is a boolean.
pub open spec fn may_flag(doc: Json, key: Seq<char>) -> bool {
    doc.field(key) matches Some(held) ==> held is Bool
}

/// Whether `value` is the boolean that the member `key` of the object `doc`
/// holds, a missing member holding `false`.
pub open spec fn flags(doc: Json, key: Seq<char>, value: bool) -> bool {
    match doc.field(key) {
        Some(held) => held == Json::Bool(value),
        None => !value,
    }
}

/// Reads the member `key` of `doc` as a boolean, which is `false` where the
/// member is missing; `None` says that the member is there and is no boolean.
pub fn flagged(doc: &JsonValue, key: &str) -> (r: Option<bool>)
    ensures
        r is Some <==> may_flag(doc@, key@),
        r matches Some(value) ==> flags(doc@, key@, value),
{
    match doc.get(key) {
        Some(held) => held.as_bool(),
        None => Some(false),
    }
}

impl FromJson for JsonValue {
    /// Any document.
    open spec fn accepts(doc: Json) -> bool {
        true
    }

    open spec fn decodes_to(doc: Json, value: Self) -> bool {
        value@ == doc
    }

    open spec fn spec_expected() -> Seq<char> {
        "a document"@
    }

    fn expected() -> (name: &'static str) {
        "a document"
    }

    fn from_json(doc: &JsonValue) -> (r: Option<Self>) {
        Some(doc.duplicate())
    }
}

} // verus!
