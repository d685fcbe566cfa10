//! The document model that responses are read through: a JSON value as a tree
//! of plain values, with fallible access by member name and by position.

use crate::text::same_text;
use vstd::prelude::*;

verus! {

/// A JSON document. The members of an object are held in a vector:
/// `serde_json`'s map takes no values but `serde_json`'s own. A document is
/// well formed where the names of each object ascend; a parsed document is.
#[derive(Debug, PartialEq)]
pub enum Json {
    Null,
    Bool(bool),
    /// A number, held as the bit pattern of its binary64 value where it has one.
    Number(Option<u64>),
    String(String),
    Array(Vec<Json>),
    /// The members of an object; in a parsed document in ascending order of
    /// their names, no name twice.
    Object(Vec<(String, Json)>),
}

/// The mathematical value of a [`Json`] document.
pub enum JsonView {
    Null,
    Bool(bool),
    Number(Option<u64>),
    String(Seq<char>),
    Array(Seq<JsonView>),
    Object(Seq<(Seq<char>, JsonView)>),
}

/// The mathematical value of a document.
pub open spec fn json_view(doc: Json) -> JsonView
    decreases doc,
{
    match doc {
        Json::Null => JsonView::Null,
        Json::Bool(b) => JsonView::Bool(b),
        Json::Number(n) => JsonView::Number(n),
        Json::String(s) => JsonView::String(s@),
        Json::Array(items) => JsonView::Array(
            Seq::new(
                items@.len(),
                |i: int|
                    if 0 <= i < items@.len() {
                        json_view(items@[i])
                    } else {
                        JsonView::Null
                    },
            ),
        ),
        Json::Object(members) => JsonView::Object(
            Seq::new(
                members@.len(),
                |i: int|
                    if 0 <= i < members@.len() {
                        (members@[i].0@, json_view(members@[i].1))
                    } else {
                        (Seq::empty(), JsonView::Null)
                    },
            ),
        ),
    }
}

impl View for Json {
    type V = JsonView;

    open spec fn view(&self) -> JsonView {
        json_view(*self)
    }
}

impl DeepView for Json {
    type V = JsonView;

    open spec fn deep_view(&self) -> JsonView {
        json_view(*self)
    }
}

/// The views of the members of an object.
pub open spec fn members_view(members: Seq<(String, Json)>) -> Seq<(Seq<char>, JsonView)> {
    Seq::new(members.len(), |i: int| (members[i].0@, members[i].1@))
}

/// The views of the elements of an array.
pub open spec fn elements_view(items: Seq<Json>) -> Seq<JsonView> {
    Seq::new(items.len(), |i: int| items[i]@)
}

/// The value of the first of `members` that is named `key`.
pub open spec fn lookup(members: Seq<(Seq<char>, JsonView)>, key: Seq<char>) -> Option<JsonView>
    decreases members.len(),
{
    if members.len() == 0 {
        None
    } else if members[0].0 == key {
        Some(members[0].1)
    } else {
        lookup(members.subrange(1, members.len() as int), key)
    }
}

/// Whether `a` stands before `b` in the order of strings: at the first
/// place where they differ `a` has the lesser character, or `a` ends there
/// and `b` does not.
pub open spec fn text_before(a: Seq<char>, b: Seq<char>) -> bool
    decreases a.len(),
{
    if b.len() == 0 {
        false
    } else if a.len() == 0 {
        true
    } else if a[0] != b[0] {
        (a[0] as u32) < (b[0] as u32)
    } else {
        text_before(a.drop_first(), b.drop_first())
    }
}

/// Whether the names of `members` ascend, so that none occurs twice.
pub open spec fn names_ascend(members: Seq<(Seq<char>, JsonView)>) -> bool {
    forall|i: int, j: int|
        #![trigger members[i], members[j]]
        0 <= i < j < members.len() ==> text_before(members[i].0, members[j].0)
}

impl JsonView {
    /// Whether the names of each object in the document ascend.
    pub open spec fn well_formed(self) -> bool
        decreases self,
    {
        match self {
            JsonView::Array(items) => forall|i: int|
                0 <= i < items.len() ==> (#[trigger] items[i]).well_formed(),
            JsonView::Object(members) => names_ascend(members) && forall|i: int|
                0 <= i < members.len() ==> (#[trigger] members[i]).1.well_formed(),
            _ => true,
        }
    }

    /// The member named `key`, where this is an object that has one.
    pub open spec fn member(self, key: Seq<char>) -> Option<JsonView> {
        match self {
            JsonView::Object(members) => lookup(members, key),
            _ => None,
        }
    }

    /// The element at `index`, where this is an array that has one.
    pub open spec fn element(self, index: int) -> Option<JsonView> {
        match self {
            JsonView::Array(items) => if 0 <= index < items.len() {
                Some(items[index])
            } else {
                None
            },
            _ => None,
        }
    }

    /// The text, where this is a string.
    pub open spec fn string(self) -> Option<Seq<char>> {
        match self {
            JsonView::String(s) => Some(s),
            _ => None,
        }
    }

    /// The binary64 bit pattern, where this is a number that has one.
    pub open spec fn number(self) -> Option<u64> {
        match self {
            JsonView::Number(n) => n,
            _ => None,
        }
    }

    /// The elements, where this is an array.
    pub open spec fn elements(self) -> Option<Seq<JsonView>> {
        match self {
            JsonView::Array(items) => Some(items),
            _ => None,
        }
    }

    /// The members, where this is an object.
    pub open spec fn members(self) -> Option<Seq<(Seq<char>, JsonView)>> {
        match self {
            JsonView::Object(members) => Some(members),
            _ => None,
        }
    }
}

/// The member named `key` of a document that may be absent.
pub open spec fn member_of(doc: Option<JsonView>, key: Seq<char>) -> Option<JsonView> {
    match doc {
        Some(d) => d.member(key),
        None => None,
    }
}

/// The element at `index` of a document that may be absent.
pub open spec fn element_of(doc: Option<JsonView>, index: int) -> Option<JsonView> {
    match doc {
        Some(d) => d.element(index),
        None => None,
    }
}

/// The text of a document that may be absent.
pub open spec fn string_of(doc: Option<JsonView>) -> Option<Seq<char>> {
    match doc {
        Some(d) => d.string(),
        None => None,
    }
}

/// The number of a document that may be absent.
pub open spec fn number_of(doc: Option<JsonView>) -> Option<u64> {
    match doc {
        Some(d) => d.number(),
        None => None,
    }
}

/// The view of a document that was or was not found.
pub open spec fn found(doc: Option<&Json>) -> Option<JsonView> {
    match doc {
        Some(d) => Some(d@),
        None => None,
    }
}

/// The view of a text that was or was not found.
pub open spec fn found_text(text: Option<&str>) -> Option<Seq<char>> {
    match text {
        Some(s) => Some(s@),
        None => None,
    }
}

/// No string stands before itself.
pub proof fn lemma_text_before_irreflexive(a: Seq<char>)
    ensures
        !text_before(a, a),
    decreases a.len(),
{
    if a.len() > 0 {
        lemma_text_before_irreflexive(a.drop_first());
    }
}

/// Where names ascend, a name belongs to one member only, and `lookup`
/// finds that member.
pub proof fn lemma_lookup_finds_the_member(
    members: Seq<(Seq<char>, JsonView)>,
    key: Seq<char>,
    at: int,
)
    requires
        names_ascend(members),
        0 <= at < members.len(),
        members[at].0 == key,
    ensures
        lookup(members, key) == Some(members[at].1),
        forall|other: int| 0 <= other < members.len() && other != at ==> members[other].0 != key,
    decreases members.len(),
{
    assert forall|other: int| 0 <= other < members.len() && other != at implies members[other].0
        != key by {
        lemma_text_before_irreflexive(key);
        if other < at {
            assert(text_before(members[other].0, members[at].0));
        } else {
            assert(text_before(members[at].0, members[other].0));
        }
    }
    if at > 0 {
        let rest = members.subrange(1, members.len() as int);
        assert forall|i: int, j: int| 0 <= i < j < rest.len() implies text_before(
            rest[i].0,
            rest[j].0,
        ) by {
            assert(rest[i] == members[i + 1] && rest[j] == members[j + 1]);
        }
        assert(rest[at - 1] == members[at]);
        assert(members[0].0 != key);
        lemma_lookup_finds_the_member(rest, key, at - 1);
    }
}

/// What `lookup` finds is a value of one of the members.
pub proof fn lemma_lookup_is_a_member(members: Seq<(Seq<char>, JsonView)>, key: Seq<char>)
    requires
        lookup(members, key) is Some,
    ensures
        exists|at: int|
            0 <= at < members.len() && (#[trigger] members[at]).0 == key && lookup(members, key)
                == Some(members[at].1),
    decreases members.len(),
{
    if members[0].0 != key {
        let rest = members.subrange(1, members.len() as int);
        lemma_lookup_is_a_member(rest, key);
        let at = choose|at: int|
            0 <= at < rest.len() && (#[trigger] rest[at]).0 == key && lookup(rest, key) == Some(
                rest[at].1,
            );
        assert(members[at + 1] == rest[at]);
    } else {
        assert(members[0].0 == key);
    }
}

/// The members and the elements of a well-formed document are well formed.
pub proof fn lemma_parts_are_well_formed(doc: JsonView, key: Seq<char>, index: int)
    requires
        doc.well_formed(),
    ensures
        doc.member(key) matches Some(part) ==> part.well_formed(),
        doc.element(index) matches Some(part) ==> part.well_formed(),
{
    if doc.member(key) is Some {
        lemma_lookup_is_a_member(doc->Object_0, key);
    }
}

/// The position in `members` of the first one named `key`.
fn position(members: &Vec<(String, Json)>, key: &str) -> (r: Option<usize>)
    ensures
        match r {
            Some(i) => i < members.len() && lookup(members_view(members@), key@) == Some(
                members@[i as int].1@,
            ),
            None => lookup(members_view(members@), key@) is None,
        },
{
    let ghost all = members_view(members@);
    assert(all.subrange(0, all.len() as int) =~= all);
    let mut i: usize = 0;
    while i < members.len()
        invariant
            i <= members.len(),
            all == members_view(members@),
            lookup(all, key@) == lookup(all.subrange(i as int, all.len() as int), key@),
        decreases members.len() - i,
    {
        let ghost rest = all.subrange(i as int, all.len() as int);
        assert(rest[0] == all[i as int]);
        if same_text(members[i].0.as_str(), key) {
            return Some(i);
        }
        assert(rest.subrange(1, rest.len() as int) =~= all.subrange(i + 1, all.len() as int));
        i = i + 1;
    }
    None
}

impl Json {
    /// The member named `key`.
    pub fn get<'a>(&'a self, key: &str) -> (r: Option<&'a Json>)
        ensures
            found(r) == self@.member(key@),
    {
        match self {
            Json::Object(members) => {
                assert(self@->Object_0 =~= members_view(members@));
                match position(members, key) {
                    Some(i) => Some(&members[i].1),
                    None => None,
                }
            },
            _ => None,
        }
    }

    /// The element at `index`.
    pub fn at<'a>(&'a self, index: usize) -> (r: Option<&'a Json>)
        ensures
            found(r) == self@.element(index as int),
    {
        match self {
            Json::Array(items) => {
                if index < items.len() {
                    Some(&items[index])
                } else {
                    None
                }
            },
            _ => None,
        }
    }

    /// The text of a string.
    pub fn as_str<'a>(&'a self) -> (r: Option<&'a str>)
        ensures
            found_text(r) == self@.string(),
    {
        match self {
            Json::String(s) => Some(s.as_str()),
            _ => None,
        }
    }

    /// The binary64 bit pattern of a number.
    pub fn as_bits(&self) -> (r: Option<u64>)
        ensures
            r == self@.number(),
    {
        match self {
            Json::Number(n) => *n,
            _ => None,
        }
    }

    /// The elements of an array.
    pub fn as_array<'a>(&'a self) -> (r: Option<&'a Vec<Json>>)
        ensures
            match r {
                Some(items) => self@.elements() == Some(elements_view(items@)),
                None => self@.elements() is None,
            },
    {
        match self {
            Json::Array(items) => {
                assert(self@->Array_0 =~= elements_view(items@));
                Some(items)
            },
            _ => None,
        }
    }

    /// The members of an object.
    pub fn as_object<'a>(&'a self) -> (r: Option<&'a Vec<(String, Json)>>)
        ensures
            match r {
                Some(members) => self@.members() == Some(members_view(members@)),
                None => self@.members() is None,
            },
    {
        match self {
            Json::Object(members) => {
                assert(self@->Object_0 =~= members_view(members@));
                Some(members)
            },
            _ => None,
        }
    }

    /// Takes the member named `key` out of the document.
    pub fn take(self, key: &str) -> (r: Option<Json>)
        ensures
            match r {
                Some(d) => self@.member(key@) == Some(d@),
                None => self@.member(key@) is None,
            },
    {
        match self {
            Json::Object(members) => {
                assert(self@->Object_0 =~= members_view(members@));
                let mut members = members;
                match position(&members, key) {
                    Some(i) => Some(members.remove(i).1),
                    None => None,
                }
            },
            _ => None,
        }
    }

    /// Takes the members out of an object.
    pub fn into_members(self) -> (r: Option<Vec<(String, Json)>>)
        ensures
            match r {
                Some(members) => self@.members() == Some(members_view(members@)),
                None => self@.members() is None,
            },
    {
        match self {
            Json::Object(members) => {
                assert(self@->Object_0 =~= members_view(members@));
                Some(members)
            },
            _ => None,
        }
    }
}

/// The member named `key` of a document that may be absent.
pub fn get_member<'a>(doc: Option<&'a Json>, key: &str) -> (r: Option<&'a Json>)
    ensures
        found(r) == member_of(found(doc), key@),
{
    match doc {
        Some(d) => d.get(key),
        None => None,
    }
}

/// The element at `index` of a document that may be absent.
pub fn get_element<'a>(doc: Option<&'a Json>, index: usize) -> (r: Option<&'a Json>)
    ensures
        found(r) == element_of(found(doc), index as int),
{
    match doc {
        Some(d) => d.at(index),
        None => None,
    }
}

/// The text of a document that may be absent.
pub fn get_string<'a>(doc: Option<&'a Json>) -> (r: Option<&'a str>)
    ensures
        found_text(r) == string_of(found(doc)),
{
    match doc {
        Some(d) => d.as_str(),
        None => None,
    }
}

/// The number of a document that may be absent.
pub fn get_number(doc: Option<&Json>) -> (r: Option<u64>)
    ensures
        r == number_of(found(doc)),
{
    match doc {
        Some(d) => d.as_bits(),
        None => None,
    }
}

/// `serde_json::Value`, of which nothing is known but what `value_view`
/// names.
#[verifier::external_type_specification]
#[verifier::external_body]
pub struct ExValue(serde_json::Value);

/// The document that a `serde_json::Value` holds.
pub uninterp spec fn value_view(v: serde_json::Value) -> JsonView;

/// What `serde_json::from_str` makes of a text: the document, or the
/// message of the error.
pub uninterp spec fn parsed(text: Seq<char>) -> Result<JsonView, Seq<char>>;

/// `serde_json::from_str`, read as a `serde_json::Value`. The result is a
/// function of the text alone: it is what `parsed` names. An error is
/// handed on as its message.
#[verifier::external_body]
fn parse_value(text: &str) -> (r: Result<serde_json::Value, String>)
    ensures
        match r {
            Ok(v) => parsed(text@) == Ok::<JsonView, Seq<char>>(value_view(v)),
            Err(e) => parsed(text@) == Err::<JsonView, Seq<char>>(e@),
        },
{
    serde_json::from_str::<serde_json::Value>(text).map_err(|e| e.to_string())
}

/// Tells the variants of a `serde_json::Value` apart and moves what each
/// holds into a `Json`: a number by `Number::as_f64`, as its bit pattern,
/// the members of an object in the order in which the map hands them
/// out. The result is what `value_view` names. The map is a `BTreeMap`
/// keyed by `String`, which hands its members out in ascending order of
/// their names, no name twice: the result is well formed.
#[verifier::external_body]
fn from_value(v: serde_json::Value) -> (d: Json)
    ensures
        d@ == value_view(v),
        d@.well_formed(),
{
    match v {
        serde_json::Value::Null => Json::Null,
        serde_json::Value::Bool(b) => Json::Bool(b),
        serde_json::Value::Number(n) => Json::Number(n.as_f64().map(|x| x.to_bits())),
        serde_json::Value::String(s) => Json::String(s),
        serde_json::Value::Array(a) => Json::Array(a.into_iter().map(from_value).collect()),
        serde_json::Value::Object(m) => Json::Object(
            m.into_iter().map(|(k, x)| (k, from_value(x))).collect(),
        ),
    }
}

/// Reads a text as a JSON document, which is well formed.
pub fn parse(text: &str) -> (r: Result<Json, String>)
    ensures
        match r {
            Ok(d) => parsed(text@) == Ok::<JsonView, Seq<char>>(d@) && d@.well_formed(),
            Err(e) => parsed(text@) == Err::<JsonView, Seq<char>>(e@),
        },
{
    match parse_value(text) {
        Ok(v) => Ok(from_value(v)),
        Err(e) => Err(e),
    }
}

} // verus!
