//! JSON values as plain data.

use vstd::prelude::*;

verus! {

/// A JSON number: a non-negative integer, a negative integer, or any other
/// number, kept as its decimal text.
#[derive(Debug, PartialEq, Eq)]
pub enum JsonNumber {
    Unsigned(u64),
    Signed(i64),
    Real(String),
}

/// The mathematical value of a [`JsonNumber`].
pub enum JsonNumberView {
    Unsigned(u64),
    Signed(i64),
    Real(Seq<char>),
}

impl JsonNumberView {
    /// The integer that the number denotes, if it is written as one.
    pub open spec fn integer(self) -> Option<int> {
        match self {
            JsonNumberView::Unsigned(n) => Some(n as int),
            JsonNumberView::Signed(n) => Some(n as int),
            JsonNumberView::Real(_) => None,
        }
    }
}

impl DeepView for JsonNumber {
    type V = JsonNumberView;

    open spec fn deep_view(&self) -> JsonNumberView {
        match self {
            JsonNumber::Unsigned(n) => JsonNumberView::Unsigned(*n),
            JsonNumber::Signed(n) => JsonNumberView::Signed(*n),
            JsonNumber::Real(text) => JsonNumberView::Real(text@),
        }
    }
}

impl View for JsonNumber {
    type V = JsonNumberView;

    open spec fn view(&self) -> JsonNumberView {
        self.deep_view()
    }
}

impl JsonNumber {
    /// A copy of the number.
    pub fn copy(&self) -> (number: JsonNumber)
        ensures
            number@ == self@,
    {
        match self {
            JsonNumber::Unsigned(n) => JsonNumber::Unsigned(*n),
            JsonNumber::Signed(n) => JsonNumber::Signed(*n),
            JsonNumber::Real(text) => JsonNumber::Real(text.clone()),
        }
    }
}

impl Clone for JsonNumber {
    fn clone(&self) -> (number: JsonNumber)
        ensures
            number@ == self@,
    {
        self.copy()
    }
}

/// A JSON value. An object holds its members as a list, each a key and a
/// value; nothing keeps a key from standing in the list twice.
#[derive(Debug, PartialEq, Eq)]
pub enum Json {
    Null,
    Bool(bool),
    Number(JsonNumber),
    Text(String),
    Array(Vec<Json>),
    Object(Vec<(String, Json)>),
}

/// The members of a JSON object, as mathematical values.
pub type Members = Seq<(Seq<char>, JsonView)>;

/// The mathematical value of a [`Json`].
pub enum JsonView {
    Null,
    Bool(bool),
    Number(JsonNumberView),
    Text(Seq<char>),
    Array(Seq<JsonView>),
    Object(Members),
}

/// The mathematical value of a JSON value, part by part.
pub open spec fn json_view(json: Json) -> JsonView
    decreases json,
{
    match json {
        Json::Null => JsonView::Null,
        Json::Bool(b) => JsonView::Bool(b),
        Json::Number(n) => JsonView::Number(n@),
        Json::Text(text) => JsonView::Text(text@),
        Json::Array(items) => JsonView::Array(
            Seq::new(
                items@.len(),
                |i: int|
                    if 0 <= i < items@.len() {
                        json_view(items@[i])
                    } else {
                        JsonView::Null
                    },
            ),
        ),
        Json::Object(members) => JsonView::Object(
            Seq::new(
                members@.len(),
                |i: int|
                    if 0 <= i < members@.len() {
                        (members@[i].0@, json_view(members@[i].1))
                    } else {
                        (Seq::empty(), JsonView::Null)
                    },
            ),
        ),
    }
}

impl DeepView for Json {
    type V = JsonView;

    open spec fn deep_view(&self) -> JsonView {
        json_view(*self)
    }
}

impl View for Json {
    type V = JsonView;

    open spec fn view(&self) -> JsonView {
        json_view(*self)
    }
}

/// The view of an array is the views of its items, one by one.
pub proof fn lemma_array_view(items: Vec<Json>)
    ensures
        Json::Array(items)@ == JsonView::Array(items.deep_view()),
{
    let whole = Json::Array(items);
    assert(whole@ == whole.deep_view());
    assert(whole.deep_view() is Array);
    let inner = whole.deep_view()->Array_0;
    assert(inner.len() == items@.len());
    assert(forall|i: int| 0 <= i < inner.len() ==> inner[i] == items@[i].deep_view());
    assert(inner =~= items.deep_view());
}

/// The view of an object is the views of its members, one by one.
pub proof fn lemma_object_view(members: Vec<(String, Json)>)
    ensures
        Json::Object(members)@ == JsonView::Object(members.deep_view()),
{
    assert(Json::Object(members)@->Object_0 =~= members.deep_view());
}

/// A copy of a list of members.
pub fn copy_members(members: &Vec<(String, Json)>) -> (copied: Vec<(String, Json)>)
    ensures
        copied.deep_view() == members.deep_view(),
    decreases members, 0nat,
{
    let mut copied: Vec<(String, Json)> = Vec::new();
    let mut i: usize = 0;
    while i < members.len()
        invariant
            i <= members.len(),
            copied.len() == i,
            forall|k: int| 0 <= k < i ==> (#[trigger] copied@[k]).deep_view() == members@[k].deep_view(),
        decreases members.len() - i,
    {
        let key = members[i].0.clone();
        let value = members[i].1.copy();
        copied.push((key, value));
        i += 1;
    }
    assert(copied.deep_view() =~= members.deep_view());
    copied
}

impl Json {
    /// A copy of the value, equal to it in every part.
    pub fn copy(&self) -> (json: Json)
        ensures
            json@ == self@,
        decreases self, 1nat,
    {
        match self {
            Json::Null => Json::Null,
            Json::Bool(b) => Json::Bool(*b),
            Json::Number(n) => Json::Number(n.copy()),
            Json::Text(text) => Json::Text(text.clone()),
            Json::Array(items) => {
                let mut copied: Vec<Json> = Vec::new();
                let mut i: usize = 0;
                while i < items.len()
                    invariant
                        i <= items.len(),
                        copied.len() == i,
                        forall|k: int| 0 <= k < i ==> (#[trigger] copied@[k])@ == items@[k]@,
                        *self == Json::Array(*items),
                    decreases items.len() - i,
                {
                    assert(decreases_to!(*self => self->Array_0));
                    copied.push(items[i].copy());
                    i += 1;
                }
                proof {
                    lemma_array_view(copied);
                    lemma_array_view(*items);
                    assert(copied.deep_view() =~= items.deep_view());
                }
                Json::Array(copied)
            },
            Json::Object(members) => {
                let copied = copy_members(members);
                proof {
                    lemma_object_view(copied);
                    lemma_object_view(*members);
                }
                Json::Object(copied)
            },
        }
    }
}

impl Clone for Json {
    fn clone(&self) -> (json: Json)
        ensures
            json@ == self@,
    {
        self.copy()
    }
}

} // verus!
