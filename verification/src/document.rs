//! JSON documents as the pipeline reads them.
//!
//! A text is parsed by the `json` crate. What the parser found is copied into
//! [`Json`], a plain tree, and everything that is read out of a document is
//! read from that tree.
//!
//! The parser keeps the decimal exponent of a number in sixteen bits and
//! lowers it by one for every digit of a fraction for as long as the number
//! read so far is small. A fraction that begins with tens of thousands of
//! zeros overruns that exponent. Such a text never reaches the parser: a text
//! that holds more than [`ZERO_RUN_LIMIT`] zeros in a row, wherever they
//! stand, is refused like a text that is no JSON.

use vstd::prelude::*;
use vstd::std_specs::iter::IteratorSpec;
use vstd::string::*;
use vstd::utf8::*;
use json::JsonValue;

verus! {

/// A JSON value.
///
/// A number is held as the decimal parts that it was written with: it stands
/// for `mantissa * 10^exponent`, negated unless `positive`. The members of an
/// object are kept in the order in which their keys first appeared.
#[derive(Debug, PartialEq, Eq)]
pub enum Json {
    Null,
    Bool(bool),
    Number { positive: bool, mantissa: u64, exponent: i16 },
    Text(String),
    Array(Vec<Json>),
    Object(Vec<(String, Json)>),
}

/// What a `Json` holds, as mathematical values.
pub enum JsonView {
    Null,
    Bool(bool),
    Number { positive: bool, mantissa: u64, exponent: i16 },
    Text(Seq<char>),
    Array(Seq<JsonView>),
    Object(Seq<(Seq<char>, JsonView)>),
}

impl Json {
    /// The value as mathematical data, level by level.
    pub open spec fn model(self) -> JsonView
        decreases self,
    {
        match self {
            Json::Null => JsonView::Null,
            Json::Bool(b) => JsonView::Bool(b),
            Json::Number { positive, mantissa, exponent } => JsonView::Number {
                positive,
                mantissa,
                exponent,
            },
            Json::Text(text) => JsonView::Text(text@),
            Json::Array(items) => JsonView::Array(
                Seq::new(
                    items@.len(),
                    |i: int|
                        if 0 <= i < items@.len() {
                            items@[i].model()
                        } else {
                            JsonView::Null
                        },
                ),
            ),
            Json::Object(members) => JsonView::Object(
                Seq::new(
                    members@.len(),
                    |i: int|
                        if 0 <= i < members@.len() {
                            (members@[i].0@, members@[i].1.model())
                        } else {
                            (Seq::empty(), JsonView::Null)
                        },
                ),
            ),
        }
    }
}

impl View for Json {
    type V = JsonView;

    open spec fn view(&self) -> JsonView {
        self.model()
    }
}

/// The views of a list of values, in order.
pub open spec fn views(items: Seq<Json>) -> Seq<JsonView> {
    Seq::new(items.len(), |i: int| items[i]@)
}

/// The views of a list of members, in order.
pub open spec fn member_views(members: Seq<(String, Json)>) -> Seq<(Seq<char>, JsonView)> {
    Seq::new(members.len(), |i: int| (members[i].0@, members[i].1@))
}

/// The view of an array is the array of its elements' views.
pub proof fn lemma_array_view(items: Vec<Json>)
    ensures
        Json::Array(items)@ == JsonView::Array(views(items@)),
{
    assert(Json::Array(items)@->Array_0 =~= views(items@));
}

/// The view of an object is the list of its members' keys and views.
pub proof fn lemma_object_view(members: Vec<(String, Json)>)
    ensures
        Json::Object(members)@ == JsonView::Object(member_views(members@)),
{
    assert(Json::Object(members)@->Object_0 =~= member_views(members@));
}

/// The value of the first member in `members` at position `from` or later
/// whose key is `key`.
pub open spec fn member_from(
    members: Seq<(Seq<char>, JsonView)>,
    key: Seq<char>,
    from: int,
) -> Option<JsonView>
    decreases members.len() - from,
{
    if from < 0 || from >= members.len() {
        None
    } else if members[from].0 == key {
        Some(members[from].1)
    } else {
        member_from(members, key, from + 1)
    }
}

impl JsonView {
    /// The member of an object under `key`: the first one, should the key
    /// occur more than once. Nothing for a missing key and for any value that
    /// is no object.
    pub open spec fn member(self, key: Seq<char>) -> Option<JsonView> {
        match self {
            JsonView::Object(members) => member_from(members, key, 0),
            _ => None,
        }
    }

    /// The characters of a string value.
    pub open spec fn text(self) -> Option<Seq<char>> {
        match self {
            JsonView::Text(text) => Some(text),
            _ => None,
        }
    }

    /// The elements of an array.
    pub open spec fn items(self) -> Option<Seq<JsonView>> {
        match self {
            JsonView::Array(items) => Some(items),
            _ => None,
        }
    }

    /// The number as an unsigned integer: it has to be written without sign,
    /// fraction and exponent.
    pub open spec fn unsigned(self) -> Option<u64> {
        match self {
            JsonView::Number { positive, mantissa, exponent } => if positive && exponent == 0 {
                Some(mantissa)
            } else {
                None
            },
            _ => None,
        }
    }

    /// The number as a signed integer: it has to be written without fraction
    /// and exponent, and has to fit.
    pub open spec fn signed(self) -> Option<i64> {
        match self {
            JsonView::Number { positive, mantissa, exponent } => if exponent != 0 {
                None
            } else if positive && mantissa <= i64::MAX {
                Some(mantissa as i64)
            } else if !positive && mantissa <= i64::MAX + 1 {
                Some((-(mantissa as int)) as i64)
            } else {
                None
            },
            _ => None,
        }
    }
}

/// `Some` of a value's view, or `None`.
pub open spec fn optional_view(value: Option<&Json>) -> Option<JsonView> {
    match value {
        Some(v) => Some(v@),
        None => None,
    }
}

impl Json {
    /// Looks up the member of an object under `key`.
    pub fn member(&self, key: &str) -> (found: Option<&Json>)
        ensures
            optional_view(found) == self@.member(key@),
    {
        match self {
            Json::Object(members) => {
                let wanted = String::from_str(key);
                let mut i: usize = 0;
                proof {
                    lemma_object_view(*members);
                }
                while i < members.len()
                    invariant
                        i <= members.len(),
                        wanted@ == key@,
                        self@.member(key@) == member_from(
                            member_views(members@),
                            key@,
                            i as int,
                        ),
                    decreases members.len() - i,
                {
                    if members[i].0 == wanted {
                        return Some(&members[i].1);
                    }
                    i += 1;
                }
                None
            },
            _ => None,
        }
    }

    /// The text of a string value.
    pub fn as_text(&self) -> (text: Option<&String>)
        ensures
            match text {
                Some(t) => self@.text() == Some(t@),
                None => self@.text() is None,
            },
    {
        match self {
            Json::Text(text) => Some(text),
            _ => None,
        }
    }

    /// The elements of an array.
    pub fn as_items(&self) -> (items: Option<&Vec<Json>>)
        ensures
            match items {
                Some(v) => self@.items() == Some(views(v@)),
                None => self@.items() is None,
            },
    {
        match self {
            Json::Array(items) => {
                proof {
                    lemma_array_view(*items);
                }
                Some(items)
            },
            _ => None,
        }
    }

    /// The number as an unsigned integer.
    pub fn as_u64(&self) -> (n: Option<u64>)
        ensures
            n == self@.unsigned(),
    {
        match self {
            Json::Number { positive, mantissa, exponent } => {
                if *positive && *exponent == 0 {
                    Some(*mantissa)
                } else {
                    None
                }
            },
            _ => None,
        }
    }

    /// The number as a signed integer.
    pub fn as_i64(&self) -> (n: Option<i64>)
        ensures
            n == self@.signed(),
    {
        match self {
            Json::Number { positive, mantissa, exponent } => {
                if *exponent != 0 {
                    None
                } else if *mantissa <= i64::MAX as u64 {
                    if *positive {
                        Some(*mantissa as i64)
                    } else {
                        Some(-(*mantissa as i64))
                    }
                } else if !*positive && *mantissa - 1 == i64::MAX as u64 {
                    Some(i64::MIN)
                } else {
                    None
                }
            },
            _ => None,
        }
    }
}

/// Declares `json::JsonValue`, the parser's own tree, as a type that is
/// carried through without being looked into.
#[verifier::external_type_specification]
#[verifier::external_body]
pub struct ExJsonValue(json::JsonValue);

/// Declares `json::Error`, with which the parser refuses a text, as a type
/// that is carried through without being looked into.
#[verifier::external_type_specification]
#[verifier::external_body]
pub struct ExJsonError(json::Error);

/// Declares `std::str::Utf8Error`, with which bytes that are no UTF-8 are
/// refused, as a type that is carried through without being looked into.
#[verifier::external_type_specification]
#[verifier::external_body]
pub struct ExUtf8Error(std::str::Utf8Error);

/// The longest run of `0` characters with which a text is still handed to
/// the parser.
pub const ZERO_RUN_LIMIT: u32 = 32_000;

/// The number of `0` characters that stand in `s` directly before position
/// `i`, one next to the other.
pub open spec fn zeros_before(s: Seq<char>, i: int) -> int
    decreases i,
{
    if i <= 0 || i > s.len() || s[i - 1] != '0' {
        0
    } else {
        1 + zeros_before(s, i - 1)
    }
}

/// No run of `0` characters in `s` is longer than `ZERO_RUN_LIMIT`.
pub open spec fn zero_runs_short(s: Seq<char>) -> bool {
    forall|i: int| 0 <= i <= s.len() ==> zeros_before(s, i) <= ZERO_RUN_LIMIT
}

/// Whether arrays and objects stand inside one another at most `depth` deep
/// in `value`: not at all where `depth` is 0.
pub open spec fn nests_within(value: JsonView, depth: nat) -> bool
    decreases depth,
{
    match value {
        JsonView::Array(items) => depth > 0 && forall|i: int|
            0 <= i < items.len() ==> nests_within(#[trigger] items[i], (depth - 1) as nat),
        JsonView::Object(members) => depth > 0 && forall|i: int|
            0 <= i < members.len() ==> nests_within((#[trigger] members[i]).1, (depth - 1) as nat),
        _ => true,
    }
}

/// The deepest nesting that the parser reads: 512 arrays and objects that
/// hold something, and an empty one inside the last.
pub open spec fn nesting_limit() -> nat {
    513
}

/// The answer of `json::parse` to a text without long runs of zeros: the
/// document that the text stands for, or `None` where the text is no JSON.
pub uninterp spec fn parsed_json(text: Seq<char>) -> Option<JsonView>;

/// The tree that a parsed value of the `json` crate holds.
pub uninterp spec fn json_content(value: JsonValue) -> JsonView;

/// Calls `json::parse`.
///
/// Trusted: the parser's answer depends on the text alone. Which texts it
/// accepts, and what it reads in them, is left to the parser.
///
/// The parser lowers the sixteen-bit exponent of a number once for every
/// leading zero of its fraction, and from the first other digit on at most
/// twenty times more, until the digits no longer fit into the number. With
/// no run of zeros longer than `ZERO_RUN_LIMIT` the exponent stays above
/// -32 768, and the subtraction cannot overflow.
///
/// The parser keeps the arrays and objects that it has entered on a stack of
/// at most 512 and refuses a text that would need more, so that what it
/// returns nests no deeper than `nesting_limit()`.
#[verifier::external_body]
fn parse_text(text: &str) -> (parsed: Result<JsonValue, json::Error>)
    requires
        zero_runs_short(text@),
    ensures
        match parsed {
            Ok(value) => parsed_json(text@) == Some(json_content(value)) && nests_within(
                json_content(value),
                nesting_limit(),
            ),
            Err(_) => parsed_json(text@) is None,
        },
{
    json::parse(text)
}

/// Copies a `json::JsonValue` into a `Json`, variant by variant.
///
/// Trusted: the copy holds what the value holds. A number is taken apart with
/// `Number::as_parts`; both of the crate's string variants become `Text`; the
/// members of an object come in the order of `Object::iter`, which is the
/// order in which the keys were first inserted. The copy goes down one call
/// for each level of nesting, which the bound keeps shallow.
#[verifier::external_body]
fn copy_value(value: &JsonValue) -> (copy: Json)
    requires
        nests_within(json_content(*value), nesting_limit()),
    ensures
        copy@ == json_content(*value),
{
    match value {
        JsonValue::Null => Json::Null,
        JsonValue::Boolean(b) => Json::Bool(*b),
        JsonValue::Number(n) => {
            let (positive, mantissa, exponent) = n.as_parts();
            Json::Number { positive, mantissa, exponent }
        },
        JsonValue::Short(s) => Json::Text(s.as_str().to_string()),
        JsonValue::String(s) => Json::Text(s.clone()),
        JsonValue::Array(items) => Json::Array(items.iter().map(copy_value).collect()),
        JsonValue::Object(o) => Json::Object(
            o.iter().map(|(k, v)| (k.to_string(), copy_value(v))).collect(),
        ),
    }
}

/// Calls `std::str::from_utf8`.
///
/// Trusted: the bytes are accepted exactly when they are valid UTF-8, and the
/// text is then made of these very bytes.
#[verifier::external_body]
fn utf8_text(bytes: &[u8]) -> (text: Result<&str, std::str::Utf8Error>)
    ensures
        text is Ok <==> valid_utf8(bytes@),
        text matches Ok(t) ==> t.spec_bytes() == bytes@,
{
    std::str::from_utf8(bytes)
}

/// The document that a text stands for: the text must not hold a long run
/// of zeros, and it has to be JSON.
pub open spec fn document_in(text: Seq<char>) -> Option<JsonView> {
    if zero_runs_short(text) {
        parsed_json(text)
    } else {
        None
    }
}

/// The document that a response body stands for: the body has to be UTF-8,
/// and its text has to stand for a document.
pub open spec fn document_of(body: Seq<u8>) -> Option<JsonView> {
    if valid_utf8(body) {
        document_in(decode_utf8(body))
    } else {
        None
    }
}

/// Whether no run of `0` characters in `text` is longer than
/// `ZERO_RUN_LIMIT`.
pub fn has_short_zero_runs(text: &str) -> (short: bool)
    ensures
        short == zero_runs_short(text@),
{
    broadcast use vstd::string::group_string_axioms;

    let mut chars = text.chars();
    let mut run: u32 = 0;
    let ghost mut n: int = 0;
    assert(text@.skip(0) =~= text@);
    loop
        invariant
            0 <= n <= text@.len(),
            chars.obeys_prophetic_iter_laws(),
            chars.remaining() == text@.skip(n),
            run == zeros_before(text@, n),
            forall|i: int| 0 <= i <= n ==> zeros_before(text@, i) <= ZERO_RUN_LIMIT,
        decreases text@.len() - n,
    {
        match chars.next() {
            Some(c) => {
                assert(text@.skip(n).drop_first() =~= text@.skip(n + 1));
                if c != '0' {
                    run = 0;
                } else if run < ZERO_RUN_LIMIT {
                    run += 1;
                } else {
                    assert(zeros_before(text@, n + 1) > ZERO_RUN_LIMIT);
                    return false;
                }
                proof {
                    n = n + 1;
                }
            },
            None => {
                return true;
            },
        }
    }
}

/// Parses a JSON text. A text with a long run of zeros is refused without
/// being handed to the parser.
pub fn parse(text: &str) -> (doc: Option<Json>)
    ensures
        match doc {
            Some(d) => document_in(text@) == Some(d@) && nests_within(d@, nesting_limit()),
            None => document_in(text@) is None,
        },
{
    if !has_short_zero_runs(text) {
        return None;
    }
    match parse_text(text) {
        Ok(value) => Some(copy_value(&value)),
        Err(_) => None,
    }
}

/// Parses a response body.
pub fn parse_body(body: &[u8]) -> (doc: Option<Json>)
    ensures
        match doc {
            Some(d) => document_of(body@) == Some(d@),
            None => document_of(body@) is None,
        },
{
    match utf8_text(body) {
        Ok(text) => {
            proof {
                encode_utf8_decode_utf8(text@);
            }
            parse(text)
        },
        Err(_) => None,
    }
}

} // verus!
