//! JSON on the wire. Reading and quoting text is left to `serde_json`; which
//! members a record has, which of them may be missing and how a record is
//! put together is decided here.

use vstd::prelude::*;
use vstd::string::StringExecFns;
use serde_json::value::RawValue;
use serde_json::Number;
use std::collections::BTreeMap;
use crate::text::str_eq;

verus! {

/// The characters that JSON allows around a value: space, line feed, tab and
/// carriage return.
pub open spec fn is_blank(c: char) -> bool {
    c == ' ' || c == '\n' || c == '\t' || c == '\r'
}

/// Whether `text` is `word` with nothing but blanks before and after it.
pub open spec fn is_word(text: Seq<char>, word: Seq<char>) -> bool {
    exists|from: int, to: int|
        {
            &&& 0 <= from <= to <= text.len()
            &&& #[trigger] text.subrange(from, to) == word
            &&& forall|i: int| 0 <= i < from ==> is_blank(#[trigger] text[i])
            &&& forall|i: int| to <= i < text.len() ==> is_blank(#[trigger] text[i])
        }
}

/// Whether `text` holds the JSON value `null`.
pub open spec fn is_null(text: Seq<char>) -> bool {
    is_word(text, "null"@)
}

/// The truth value that `text` holds, or `None` where `text` is neither
/// `true` nor `false`.
pub open spec fn bool_value(text: Seq<char>) -> Option<bool> {
    if is_word(text, "true"@) {
        Some(true)
    } else if is_word(text, "false"@) {
        Some(false)
    } else {
        None
    }
}

/// The members of the JSON object that `text` holds, each as its key and the
/// text of its value, or `None` where `text` is not one JSON object.
pub uninterp spec fn object_members(text: Seq<char>) -> Option<Seq<(Seq<char>, Seq<char>)>>;

/// The items of the JSON array that `text` holds, each as its own text, or
/// `None` where `text` is not one JSON array.
pub uninterp spec fn array_items(text: Seq<char>) -> Option<Seq<Seq<char>>>;

/// The characters of the JSON string that `text` holds, escapes resolved, or
/// `None` where `text` is not one JSON string.
pub uninterp spec fn string_value(text: Seq<char>) -> Option<Seq<char>>;

/// The integer that `text` holds, or `None` where `text` is not one JSON
/// number that is whole and fits 64 bits with a sign.
pub uninterp spec fn integer_value(text: Seq<char>) -> Option<i64>;

/// The JSON number that `text` holds, written the way `serde_json` prints it,
/// or `None` where `text` is not one JSON number.
pub uninterp spec fn number_value(text: Seq<char>) -> Option<Seq<char>>;

/// The JSON string that stands for `chars`, quotes and escapes included, or
/// `None` where `serde_json` does not produce one.
pub uninterp spec fn quoted(chars: Seq<char>) -> Option<Seq<char>>;

/// The JSON value that `text` holds, as the text it was written in, without
/// the blanks around it, or `None` where `text` is not one JSON value.
pub uninterp spec fn value_text(text: Seq<char>) -> Option<Seq<char>>;

/// The JSON number that stands for `number`, or `None` where `serde_json`
/// does not produce one. Where it produces one, it is [`decimal`].
pub uninterp spec fn integer_text(number: i64) -> Option<Seq<char>>;

/// The character of a digit from 0 to 9.
pub open spec fn digit(d: nat) -> char {
    if d == 0 {
        '0'
    } else if d == 1 {
        '1'
    } else if d == 2 {
        '2'
    } else if d == 3 {
        '3'
    } else if d == 4 {
        '4'
    } else if d == 5 {
        '5'
    } else if d == 6 {
        '6'
    } else if d == 7 {
        '7'
    } else if d == 8 {
        '8'
    } else {
        '9'
    }
}

/// The digits of `n` to the base of ten, the first of them not zero unless
/// `n` is.
pub open spec fn digits(n: nat) -> Seq<char>
    decreases n,
{
    if n < 10 {
        seq![digit(n)]
    } else {
        digits(n / 10).push(digit(n % 10))
    }
}

/// A whole number as it is written: a minus sign where it is below zero, then
/// its digits.
pub open spec fn decimal(number: int) -> Seq<char> {
    if number < 0 {
        seq!['-'] + digits((-number) as nat)
    } else {
        digits(number as nat)
    }
}

/// `serde_json::from_str` at a map from strings to raw values: the top level
/// of an object is read, each value is kept as the text it was written in.
///
/// Trusted: that the outcome depends on `text` alone. The map is a `BTreeMap`,
/// so the members come out ordered by key, each key once.
#[verifier::external_body]
pub(crate) fn read_object(text: &str) -> (members: Option<Vec<(String, String)>>)
    ensures
        members.deep_view() == object_members(text@),
{
    let parsed: Option<BTreeMap<String, Box<RawValue>>> = serde_json::from_str(text).ok();
    parsed.map(|found| found.into_iter().map(|(key, raw)| (key, raw.get().to_string())).collect())
}

/// `serde_json::from_str` at a vector of raw values: the top level of an
/// array is read, each item is kept as the text it was written in.
///
/// Trusted: that the outcome depends on `text` alone.
#[verifier::external_body]
pub(crate) fn read_array(text: &str) -> (items: Option<Vec<String>>)
    ensures
        items.deep_view() == array_items(text@),
{
    let parsed: Option<Vec<Box<RawValue>>> = serde_json::from_str(text).ok();
    parsed.map(|found| found.into_iter().map(|raw| raw.get().to_string()).collect())
}

/// `serde_json::from_str` at `String`.
///
/// Trusted: that the outcome depends on `text` alone.
#[verifier::external_body]
pub(crate) fn read_string(text: &str) -> (chars: Option<String>)
    ensures
        chars.deep_view() == string_value(text@),
{
    serde_json::from_str::<String>(text).ok()
}

/// `serde_json::from_str` at `i64`.
///
/// Trusted: that the outcome depends on `text` alone.
#[verifier::external_body]
pub(crate) fn read_integer(text: &str) -> (number: Option<i64>)
    ensures
        number == integer_value(text@),
{
    serde_json::from_str::<i64>(text).ok()
}

/// `serde_json::from_str` at `bool`.
///
/// Trusted: that `true` and `false` are read, with blanks around them or
/// without, and nothing else is.
#[verifier::external_body]
pub(crate) fn read_bool(text: &str) -> (truth: Option<bool>)
    ensures
        truth == bool_value(text@),
{
    serde_json::from_str::<bool>(text).ok()
}

/// `serde_json::from_str` at `serde_json::Number`, printed again by the
/// number's own `Display`.
///
/// Trusted: that the outcome depends on `text` alone.
#[verifier::external_body]
pub(crate) fn read_number(text: &str) -> (digits: Option<String>)
    ensures
        digits.deep_view() == number_value(text@),
{
    serde_json::from_str::<Number>(text).ok().map(|number| number.to_string())
}

/// `serde_json::from_str` at the unit type.
///
/// Trusted: that `null` is read, with blanks around it or without, and
/// nothing else is.
#[verifier::external_body]
pub(crate) fn read_null(text: &str) -> (null: bool)
    ensures
        null == is_null(text@),
{
    serde_json::from_str::<()>(text).is_ok()
}

/// `serde_json::to_string` at `str`: the text between quotes, escaped where
/// JSON asks for it.
///
/// Trusted: that the outcome depends on `chars` alone. That it is always
/// `Some` is not assumed.
#[verifier::external_body]
pub(crate) fn quote(chars: &str) -> (text: Option<String>)
    ensures
        text.deep_view() == quoted(chars@),
{
    serde_json::to_string(chars).ok()
}

/// `serde_json::from_str` at a raw value: any one JSON value is taken, and
/// kept as the text it was written in.
///
/// Trusted: that the outcome depends on `text` alone.
#[verifier::external_body]
pub(crate) fn read_value(text: &str) -> (value: Option<String>)
    ensures
        value.deep_view() == value_text(text@),
{
    serde_json::from_str::<Box<RawValue>>(text).ok().map(|raw| raw.get().to_string())
}

/// `serde_json::to_string` at `i64`.
///
/// Trusted: that the outcome depends on `number` alone, and that what is
/// written is the number to the base of ten. That it is always `Some` is not
/// assumed.
#[verifier::external_body]
pub(crate) fn write_integer(number: i64) -> (text: Option<String>)
    ensures
        text.deep_view() == integer_text(number),
        text matches Some(written) ==> written@ == decimal(number as int),
{
    serde_json::to_string(&number).ok()
}

/// The text of the first member of `members` whose key is `key`.
pub open spec fn member(members: Seq<(Seq<char>, Seq<char>)>, key: Seq<char>) -> Option<
    Seq<char>,
>
    decreases members.len(),
{
    if members.len() == 0 {
        None
    } else if members[0].0 == key {
        Some(members[0].1)
    } else {
        member(members.drop_first(), key)
    }
}

/// The text of the member `key` where it is there and is not `null`: to a
/// reader, a member that is `null` is a member that is missing.
pub open spec fn present(members: Seq<(Seq<char>, Seq<char>)>, key: Seq<char>) -> Option<
    Seq<char>,
> {
    match member(members, key) {
        Some(raw) => if is_null(raw) {
            None
        } else {
            Some(raw)
        },
        None => None,
    }
}

/// A type that is read from JSON text.
pub trait FromJson: Sized {
    /// Whether `text` holds a value of this type.
    spec fn decodable(text: Seq<char>) -> bool;

    /// Whether `value` is what `text` holds.
    spec fn decodes(text: Seq<char>, value: Self) -> bool;

    fn from_json(text: &str) -> (value: Option<Self>)
        ensures
            value is Some <==> Self::decodable(text@),
            value matches Some(v) ==> Self::decodes(text@, v),
    ;
}

/// Whether the member `key` is there and holds a `T`.
pub open spec fn has_required<T: FromJson>(
    members: Seq<(Seq<char>, Seq<char>)>,
    key: Seq<char>,
) -> bool {
    member(members, key) matches Some(raw) && T::decodable(raw)
}

/// Whether the member `key` is there and holds `value`.
pub open spec fn required_is<T: FromJson>(
    members: Seq<(Seq<char>, Seq<char>)>,
    key: Seq<char>,
    value: T,
) -> bool {
    member(members, key) matches Some(raw) && T::decodes(raw, value)
}

/// Whether the member `key` is missing, is `null`, or holds a `T`.
pub open spec fn has_optional<T: FromJson>(
    members: Seq<(Seq<char>, Seq<char>)>,
    key: Seq<char>,
) -> bool {
    present(members, key) matches Some(raw) ==> T::decodable(raw)
}

/// Whether `value` is what the member `key` holds: `None` where the member is
/// missing or `null`.
pub open spec fn optional_is<T: FromJson>(
    members: Seq<(Seq<char>, Seq<char>)>,
    key: Seq<char>,
    value: Option<T>,
) -> bool {
    match present(members, key) {
        Some(raw) => value matches Some(v) && T::decodes(raw, v),
        None => value is None,
    }
}

/// A JSON object, read one level deep: the values are still text.
pub struct JsonObject {
    members: Vec<(String, String)>,
}

impl View for JsonObject {
    type V = Seq<(Seq<char>, Seq<char>)>;

    closed spec fn view(&self) -> Seq<(Seq<char>, Seq<char>)> {
        self.members.deep_view()
    }
}

impl JsonObject {
    /// Reads the top level of the object that `text` holds.
    pub fn parse(text: &str) -> (object: Option<JsonObject>)
        ensures
            object matches Some(o) ==> object_members(text@) == Some(o@),
            object is None ==> object_members(text@) is None,
    {
        match read_object(text) {
            Some(members) => Some(JsonObject { members }),
            None => None,
        }
    }

    /// An object with the given members, each a key and the JSON text of a
    /// value.
    pub fn from_members(members: Vec<(String, String)>) -> (object: JsonObject)
        ensures
            object@ == members.deep_view(),
    {
        JsonObject { members }
    }

    /// The text of the member `key`.
    pub fn get(&self, key: &str) -> (raw: Option<&str>)
        ensures
            raw matches Some(text) ==> member(self@, key@) == Some(text@),
            raw is None ==> member(self@, key@) is None,
    {
        let mut i: usize = 0;
        assert(self@.skip(0) == self@);
        while i < self.members.len()
            invariant
                i <= self.members.len(),
                member(self@, key@) == member(self@.skip(i as int), key@),
            decreases self.members.len() - i,
        {
            proof {
                let rest = self@.skip(i as int);
                assert(rest[0] == self@[i as int]);
                assert(rest.drop_first() == self@.skip(i + 1));
            }
            if str_eq(self.members[i].0.as_str(), key) {
                return Some(self.members[i].1.as_str());
            }
            i = i + 1;
        }
        None
    }

    /// The text of the member `key` where it is there and is not `null`.
    pub fn get_present(&self, key: &str) -> (raw: Option<&str>)
        ensures
            raw matches Some(text) ==> present(self@, key@) == Some(text@),
            raw is None ==> present(self@, key@) is None,
    {
        match self.get(key) {
            Some(text) => if read_null(text) {
                None
            } else {
                Some(text)
            },
            None => None,
        }
    }

    /// Reads a member that has to be there.
    pub fn required<T: FromJson>(&self, key: &str) -> (value: Option<T>)
        ensures
            value is Some <==> has_required::<T>(self@, key@),
            value matches Some(v) ==> required_is::<T>(self@, key@, v),
    {
        match self.get(key) {
            Some(text) => T::from_json(text),
            None => None,
        }
    }

    /// Reads a member that may be missing. The outer `None` says that the
    /// member is there and does not hold a `T`.
    pub fn optional<T: FromJson>(&self, key: &str) -> (value: Option<Option<T>>)
        ensures
            value is Some <==> has_optional::<T>(self@, key@),
            value matches Some(v) ==> optional_is::<T>(self@, key@, v),
    {
        match self.get_present(key) {
            Some(text) => match T::from_json(text) {
                Some(v) => Some(Some(v)),
                None => None,
            },
            None => Some(None),
        }
    }
}

impl FromJson for String {
    open spec fn decodable(text: Seq<char>) -> bool {
        string_value(text) is Some
    }

    open spec fn decodes(text: Seq<char>, value: String) -> bool {
        string_value(text) == Some(value@)
    }

    fn from_json(text: &str) -> (value: Option<String>) {
        read_string(text)
    }
}

impl FromJson for i64 {
    open spec fn decodable(text: Seq<char>) -> bool {
        integer_value(text) is Some
    }

    open spec fn decodes(text: Seq<char>, value: i64) -> bool {
        integer_value(text) == Some(value)
    }

    fn from_json(text: &str) -> (value: Option<i64>) {
        read_integer(text)
    }
}

impl FromJson for bool {
    open spec fn decodable(text: Seq<char>) -> bool {
        bool_value(text) is Some
    }

    open spec fn decodes(text: Seq<char>, value: bool) -> bool {
        bool_value(text) == Some(value)
    }

    fn from_json(text: &str) -> (value: Option<bool>) {
        read_bool(text)
    }
}

/// Whether each of `items` holds a `T`.
pub open spec fn all_decodable<T: FromJson>(items: Seq<Seq<char>>) -> bool {
    forall|i: int| 0 <= i < items.len() ==> T::decodable(#[trigger] items[i])
}

/// Whether `values` are what `items` hold, one for one and in order.
pub open spec fn all_decode<T: FromJson>(items: Seq<Seq<char>>, values: Seq<T>) -> bool {
    &&& values.len() == items.len()
    &&& forall|i: int| 0 <= i < items.len() ==> T::decodes(items[i], #[trigger] values[i])
}

impl<T: FromJson> FromJson for Vec<T> {
    open spec fn decodable(text: Seq<char>) -> bool {
        array_items(text) matches Some(items) && all_decodable::<T>(items)
    }

    open spec fn decodes(text: Seq<char>, value: Vec<T>) -> bool {
        array_items(text) matches Some(items) && all_decode::<T>(items, value@)
    }

    fn from_json(text: &str) -> (value: Option<Vec<T>>) {
        let items = match read_array(text) {
            Some(items) => items,
            None => {
                return None;
            },
        };
        let ghost texts = items.deep_view();
        let mut values: Vec<T> = Vec::new();
        let mut i: usize = 0;
        while i < items.len()
            invariant
                i <= items.len(),
                texts == items.deep_view(),
                array_items(text@) == Some(texts),
                values.len() == i,
                forall|j: int| 0 <= j < i ==> T::decodable(#[trigger] texts[j]),
                forall|j: int| 0 <= j < i ==> T::decodes(texts[j], #[trigger] values@[j]),
            decreases items.len() - i,
        {
            assert(texts[i as int] == items@[i as int]@);
            match T::from_json(items[i].as_str()) {
                Some(v) => {
                    values.push(v);
                },
                None => {
                    return None;
                },
            }
            i = i + 1;
        }
        Some(values)
    }
}

/// A type that is written as JSON text.
pub trait ToJson {
    /// The JSON text of `self`, or `None` where a string in it has no quoted
    /// form.
    spec fn json(&self) -> Option<Seq<char>>;

    fn to_json(&self) -> (text: Option<String>)
        ensures
            text.deep_view() == self.json(),
    ;
}

/// `parts` one after the other, with a comma between each two.
pub open spec fn separated(parts: Seq<Seq<char>>) -> Seq<char>
    decreases parts.len(),
{
    if parts.len() == 0 {
        Seq::empty()
    } else if parts.len() == 1 {
        parts[0]
    } else {
        separated(parts.drop_last()) + ","@ + parts.last()
    }
}

/// The text of a JSON array with the given items.
pub open spec fn array_text(items: Seq<Seq<char>>) -> Seq<char> {
    "["@ + separated(items) + "]"@
}

/// One member of an object as it is written: the quoted key, a colon, the
/// value.
pub open spec fn entry(member: (Seq<char>, Seq<char>)) -> Seq<char> {
    member.0 + ":"@ + member.1
}

/// The members of an object as they are written.
pub open spec fn entries(members: Seq<(Seq<char>, Seq<char>)>) -> Seq<Seq<char>> {
    Seq::new(members.len(), |i: int| entry(members[i]))
}

/// The text of a JSON object with the given members, each a quoted key and
/// the text of a value.
pub open spec fn object_text(members: Seq<(Seq<char>, Seq<char>)>) -> Seq<char> {
    "{"@ + separated(entries(members)) + "}"@
}

/// The members written so far and one more, `key` with the value `raw`. The
/// key is quoted on the way. Nothing is left where the members were already
/// lost, or the key cannot be quoted, or there is no value.
pub open spec fn with_member(
    members: Option<Seq<(Seq<char>, Seq<char>)>>,
    key: Seq<char>,
    raw: Option<Seq<char>>,
) -> Option<Seq<(Seq<char>, Seq<char>)>> {
    match (members, quoted(key), raw) {
        (Some(written), Some(name), Some(value)) => Some(written.push((name, value))),
        _ => None,
    }
}

/// The members written so far and the member `key`, where there is a value
/// for it.
pub open spec fn with_optional<T: ToJson>(
    members: Option<Seq<(Seq<char>, Seq<char>)>>,
    key: Seq<char>,
    value: Option<T>,
) -> Option<Seq<(Seq<char>, Seq<char>)>> {
    match value {
        Some(v) => with_member(members, key, v.json()),
        None => members,
    }
}

/// The members written so far and the member `key`, which holds `null` where
/// there is no value for it.
pub open spec fn with_nullable<T: ToJson>(
    members: Option<Seq<(Seq<char>, Seq<char>)>>,
    key: Seq<char>,
    value: Option<T>,
) -> Option<Seq<(Seq<char>, Seq<char>)>> {
    match value {
        Some(v) => with_member(members, key, v.json()),
        None => with_member(members, key, Some("null"@)),
    }
}

/// The text of the object whose members were written, if none was lost.
pub open spec fn finished(members: Option<Seq<(Seq<char>, Seq<char>)>>) -> Option<Seq<char>> {
    match members {
        Some(written) => Some(object_text(written)),
        None => None,
    }
}

/// Appends one more part to a text that ends in separated parts.
fn push_part(
    text: String,
    first: bool,
    part: &str,
    Ghost(opening): Ghost<Seq<char>>,
    Ghost(parts): Ghost<Seq<Seq<char>>>,
) -> (longer: String)
    requires
        text@ == opening + separated(parts),
        first == (parts.len() == 0),
    ensures
        longer@ == opening + separated(parts.push(part@)),
{
    let mut longer = text;
    if !first {
        longer.append(",");
    }
    longer.append(part);
    proof {
        let more = parts.push(part@);
        assert(more.drop_last() == parts);
        assert(more.last() == part@);
        if parts.len() == 0 {
            assert(separated(parts) == Seq::<char>::empty());
            assert(longer@ == opening + part@);
        } else {
            assert(longer@ == opening + (separated(parts) + ","@ + part@));
        }
    }
    longer
}

/// Writes a JSON object member by member, in the order of the calls.
pub struct ObjectWriter {
    text: String,
    first: bool,
    lost: bool,
    members: Ghost<Seq<(Seq<char>, Seq<char>)>>,
}

impl View for ObjectWriter {
    type V = Option<Seq<(Seq<char>, Seq<char>)>>;

    closed spec fn view(&self) -> Option<Seq<(Seq<char>, Seq<char>)>> {
        if self.lost {
            None
        } else {
            Some(self.members@)
        }
    }
}

impl ObjectWriter {
    #[verifier::type_invariant]
    spec fn well_formed(&self) -> bool {
        !self.lost ==> {
            &&& self.text@ == "{"@ + separated(entries(self.members@))
            &&& self.first == (self.members@.len() == 0)
        }
    }

    /// An object without members.
    pub fn new() -> (writer: ObjectWriter)
        ensures
            writer@ == Some(Seq::<(Seq<char>, Seq<char>)>::empty()),
    {
        let text = String::from_str("{");
        proof {
            assert(entries(Seq::empty()) == Seq::<Seq<char>>::empty());
            assert("{"@ + separated(Seq::<Seq<char>>::empty()) == "{"@);
        }
        ObjectWriter { text, first: true, lost: false, members: Ghost(Seq::empty()) }
    }

    /// Adds the member `key` with a value that is JSON text already.
    pub fn raw(self, key: &str, value: Option<String>) -> (writer: ObjectWriter)
        ensures
            writer@ == with_member(self@, key@, value.deep_view()),
    {
        proof {
            use_type_invariant(&self);
        }
        if self.lost {
            return self;
        }
        let name = match quote(key) {
            Some(name) => name,
            None => {
                return ObjectWriter {
                    text: self.text,
                    first: self.first,
                    lost: true,
                    members: self.members,
                };
            },
        };
        let value = match value {
            Some(value) => value,
            None => {
                return ObjectWriter {
                    text: self.text,
                    first: self.first,
                    lost: true,
                    members: self.members,
                };
            },
        };
        let mut part = name;
        part.append(":");
        part.append(value.as_str());
        let ghost written = self.members@;
        let ghost member = (quoted(key@).unwrap(), value@);
        let text = push_part(
            self.text,
            self.first,
            part.as_str(),
            Ghost("{"@),
            Ghost(entries(written)),
        );
        proof {
            assert(part@ == entry(member));
            assert(entries(written.push(member)) == entries(written).push(entry(member)));
        }
        ObjectWriter { text, first: false, lost: false, members: Ghost(written.push(member)) }
    }

    /// Adds the member `key` with the JSON text of `value`.
    pub fn field<T: ToJson>(self, key: &str, value: &T) -> (writer: ObjectWriter)
        ensures
            writer@ == with_member(self@, key@, value.json()),
    {
        let raw = value.to_json();
        self.raw(key, raw)
    }

    /// Adds the member `key` where there is a value for it, and nothing where
    /// there is none.
    pub fn optional<T: ToJson>(self, key: &str, value: &Option<T>) -> (writer: ObjectWriter)
        ensures
            writer@ == with_optional(self@, key@, *value),
    {
        match value {
            Some(v) => self.field(key, v),
            None => self,
        }
    }

    /// Adds the member `key`, with `null` for its value where there is none.
    pub fn nullable<T: ToJson>(self, key: &str, value: &Option<T>) -> (writer: ObjectWriter)
        ensures
            writer@ == with_nullable(self@, key@, *value),
    {
        match value {
            Some(v) => self.field(key, v),
            None => self.raw(key, Some(String::from_str("null"))),
        }
    }

    /// The text of the object, unless a member was lost on the way.
    pub fn finish(self) -> (text: Option<String>)
        ensures
            text.deep_view() == finished(self@),
    {
        proof {
            use_type_invariant(&self);
        }
        if self.lost {
            return None;
        }
        let mut text = self.text;
        text.append("}");
        Some(text)
    }
}

impl ToJson for String {
    open spec fn json(&self) -> Option<Seq<char>> {
        quoted(self@)
    }

    fn to_json(&self) -> (text: Option<String>) {
        quote(self.as_str())
    }
}

/// Whether each of `items` has a JSON text.
pub open spec fn all_encodable<T: ToJson>(items: Seq<T>) -> bool {
    forall|i: int| 0 <= i < items.len() ==> (#[trigger] items[i]).json() is Some
}

/// The JSON texts of `items`, one for one and in order.
pub open spec fn encoded<T: ToJson>(items: Seq<T>) -> Seq<Seq<char>> {
    Seq::new(items.len(), |i: int| items[i].json().unwrap())
}

impl<T: ToJson> ToJson for Vec<T> {
    open spec fn json(&self) -> Option<Seq<char>> {
        if all_encodable(self@) {
            Some(array_text(encoded(self@)))
        } else {
            None
        }
    }

    fn to_json(&self) -> (text: Option<String>) {
        let mut text = String::from_str("[");
        let mut i: usize = 0;
        proof {
            assert(encoded(self@.take(0)) == Seq::<Seq<char>>::empty());
            assert("["@ + separated(Seq::<Seq<char>>::empty()) == "["@);
        }
        while i < self.len()
            invariant
                i <= self.len(),
                all_encodable(self@.take(i as int)),
                text@ == "["@ + separated(encoded(self@.take(i as int))),
            decreases self.len() - i,
        {
            let ghost done = self@.take(i as int);
            let part = match self[i].to_json() {
                Some(part) => part,
                None => {
                    return None;
                },
            };
            text = push_part(text, i == 0, part.as_str(), Ghost("["@), Ghost(encoded(done)));
            proof {
                let more = self@.take(i + 1);
                assert(more == done.push(self@[i as int]));
                assert(encoded(more) == encoded(done).push(part@));
            }
            i = i + 1;
        }
        proof {
            assert(self@.take(i as int) == self@);
        }
        text.append("]");
        Some(text)
    }
}

impl ToJson for i64 {
    open spec fn json(&self) -> Option<Seq<char>> {
        integer_text(*self)
    }

    fn to_json(&self) -> (text: Option<String>)
        ensures
            text matches Some(written) ==> written@ == decimal(*self as int),
    {
        write_integer(*self)
    }
}

impl ToJson for bool {
    open spec fn json(&self) -> Option<Seq<char>> {
        if *self {
            Some("true"@)
        } else {
            Some("false"@)
        }
    }

    fn to_json(&self) -> (text: Option<String>) {
        if *self {
            Some(String::from_str("true"))
        } else {
            Some(String::from_str("false"))
        }
    }
}

/// A word with no blanks around it is that word.
pub proof fn lemma_word_is_word(word: Seq<char>)
    ensures
        is_word(word, word),
{
    assert(word.subrange(0, word.len() as int) == word);
}

/// The word `false` is not the word `true`.
proof fn lemma_false_is_not_true()
    ensures
        !is_word("false"@, "true"@),
{
    let yes = "true"@;
    let no = "false"@;
    if is_word(no, yes) {
        let (from, to) = choose|from: int, to: int|
            {
                &&& 0 <= from <= to <= no.len()
                &&& #[trigger] no.subrange(from, to) == yes
                &&& forall|i: int| 0 <= i < from ==> is_blank(#[trigger] no[i])
                &&& forall|i: int| to <= i < no.len() ==> is_blank(#[trigger] no[i])
            };
        reveal_strlit("true");
        reveal_strlit("false");
        assert(yes.len() == 4 && no.len() == 5);
        assert(no.subrange(from, to)[0] == no[from]);
        assert(yes[0] == 't');
        assert(no[0] == 'f' && no[1] == 'a');
    }
}

/// A truth value is read back as it was written.
pub proof fn lemma_bool_reads_as_written(truth: bool)
    ensures
        truth.json() matches Some(text) && bool::decodes(text, truth),
{
    lemma_word_is_word("true"@);
    lemma_word_is_word("false"@);
    lemma_false_is_not_true();
}

/// A JSON value that is carried along unread, as the text it came in.
#[derive(Debug, Clone, PartialEq, Eq)]
pub struct RawJson {
    text: String,
}

impl View for RawJson {
    type V = Seq<char>;

    closed spec fn view(&self) -> Seq<char> {
        self.text@
    }
}

impl RawJson {
    /// The value as JSON text.
    pub fn as_str(&self) -> (text: &str)
        ensures
            text@ == self@,
    {
        self.text.as_str()
    }
}

impl FromJson for RawJson {
    open spec fn decodable(text: Seq<char>) -> bool {
        value_text(text) is Some
    }

    open spec fn decodes(text: Seq<char>, value: RawJson) -> bool {
        value_text(text) == Some(value@)
    }

    fn from_json(text: &str) -> (value: Option<RawJson>) {
        match read_value(text) {
            Some(text) => Some(RawJson { text }),
            None => None,
        }
    }
}

impl ToJson for RawJson {
    open spec fn json(&self) -> Option<Seq<char>> {
        Some(self@)
    }

    fn to_json(&self) -> (text: Option<String>) {
        Some(self.text.clone())
    }
}

/// A JSON number that is carried along as the digits `serde_json` prints for
/// it: amounts of money are not computed with here.
#[derive(Debug, Clone, PartialEq, Eq)]
pub struct JsonNumber {
    digits: String,
}

impl View for JsonNumber {
    type V = Seq<char>;

    closed spec fn view(&self) -> Seq<char> {
        self.digits@
    }
}

impl JsonNumber {
    /// The number as JSON text.
    pub fn as_str(&self) -> (text: &str)
        ensures
            text@ == self@,
    {
        self.digits.as_str()
    }
}

impl FromJson for JsonNumber {
    open spec fn decodable(text: Seq<char>) -> bool {
        number_value(text) is Some
    }

    open spec fn decodes(text: Seq<char>, value: JsonNumber) -> bool {
        number_value(text) == Some(value@)
    }

    fn from_json(text: &str) -> (value: Option<JsonNumber>) {
        match read_number(text) {
            Some(digits) => Some(JsonNumber { digits }),
            None => None,
        }
    }
}

impl ToJson for JsonNumber {
    open spec fn json(&self) -> Option<Seq<char>> {
        Some(self@)
    }

    fn to_json(&self) -> (text: Option<String>) {
        Some(self.digits.clone())
    }
}

/// Texts under text keys, in the order in which they are to be written.
#[derive(Debug, Clone, PartialEq, Eq)]
pub struct StringMap {
    pub entries: Vec<(String, String)>,
}

/// The members that the entries of a [`StringMap`] are written as.
pub open spec fn string_members(entries: Seq<(String, String)>) -> Option<
    Seq<(Seq<char>, Seq<char>)>,
>
    decreases entries.len(),
{
    if entries.len() == 0 {
        Some(Seq::empty())
    } else {
        with_member(
            string_members(entries.drop_last()),
            entries.last().0@,
            quoted(entries.last().1@),
        )
    }
}

impl ToJson for StringMap {
    open spec fn json(&self) -> Option<Seq<char>> {
        finished(string_members(self.entries@))
    }

    fn to_json(&self) -> (text: Option<String>) {
        let mut writer = ObjectWriter::new();
        let mut i: usize = 0;
        proof {
            assert(self.entries@.take(0) == Seq::<(String, String)>::empty());
        }
        while i < self.entries.len()
            invariant
                i <= self.entries.len(),
                writer@ == string_members(self.entries@.take(i as int)),
            decreases self.entries.len() - i,
        {
            proof {
                let more = self.entries@.take(i + 1);
                assert(more.drop_last() == self.entries@.take(i as int));
                assert(more.last() == self.entries@[i as int]);
            }
            writer = writer.field(self.entries[i].0.as_str(), &self.entries[i].1);
            i = i + 1;
        }
        proof {
            assert(self.entries@.take(i as int) == self.entries@);
        }
        writer.finish()
    }
}

} // verus!
