//! JSON values, as far as messages need them.

use vstd::prelude::*;

verus! {

/// What a [`Json`] value stands for.
pub enum JsonView {
    Text(Seq<char>),
    Flag(bool),
    List(Seq<JsonView>),
    Object(Seq<(Seq<char>, JsonView)>),
}

/// A JSON value.
#[derive(Debug)]
pub enum Json {
    /// A string.
    Text(String),
    /// A boolean.
    Flag(bool),
    /// An array.
    List(Vec<Json>),
    /// An object, as its members in order.
    Object(Vec<(String, Json)>),
}

/// What a JSON value stands for.
pub open spec fn json_view(json: Json) -> JsonView
    decreases json,
{
    match json {
        Json::Text(text) => JsonView::Text(text@),
        Json::Flag(flag) => JsonView::Flag(flag),
        Json::List(items) => JsonView::List(
            Seq::new(
                items@.len(),
                |i: int|
                    if 0 <= i < items@.len() {
                        json_view(items@[i])
                    } else {
                        arbitrary()
                    },
            ),
        ),
        Json::Object(members) => JsonView::Object(
            Seq::new(
                members@.len(),
                |i: int|
                    if 0 <= i < members@.len() {
                        (members@[i].0@, json_view(members@[i].1))
                    } else {
                        arbitrary()
                    },
            ),
        ),
    }
}

impl View for Json {
    type V = JsonView;

    open spec fn view(&self) -> JsonView {
        json_view(*self)
    }
}

impl JsonView {
    /// The object without members.
    pub open spec fn object() -> JsonView {
        JsonView::Object(Seq::empty())
    }

    /// The array without items.
    pub open spec fn list() -> JsonView {
        JsonView::List(Seq::empty())
    }

    /// An object with one more member.
    pub open spec fn with(self, name: Seq<char>, value: JsonView) -> JsonView {
        match self {
            JsonView::Object(members) => JsonView::Object(members.push((name, value))),
            _ => self,
        }
    }

    /// An array with one more item.
    pub open spec fn and(self, item: JsonView) -> JsonView {
        match self {
            JsonView::List(items) => JsonView::List(items.push(item)),
            _ => self,
        }
    }
}

impl Json {
    /// A string.
    pub fn text(text: &str) -> (json: Json)
        ensures
            json@ == JsonView::Text(text@),
    {
        Json::Text(String::from(text))
    }

    /// The object without members.
    pub fn object() -> (json: Json)
        ensures
            json@ == JsonView::object(),
    {
        let json = Json::Object(Vec::new());
        proof {
            assert(json@->Object_0 =~= Seq::empty());
        }
        json
    }

    /// The array without items.
    pub fn list() -> (json: Json)
        ensures
            json@ == JsonView::list(),
    {
        let json = Json::List(Vec::new());
        proof {
            assert(json@->List_0 =~= Seq::empty());
        }
        json
    }

    /// An object with one more member. What is no object stays as it is.
    pub fn with(self, name: &str, value: Json) -> (json: Json)
        ensures
            json@ == self@.with(name@, value@),
    {
        match self {
            Json::Object(members) => {
                let ghost before = self@->Object_0;
                let mut members = members;
                let ghost listed = members@;
                let name = String::from(name);
                members.push((name, value));
                let json = Json::Object(members);
                proof {
                    assert(members@ == listed.push((name, value)));
                    let after = json@->Object_0;
                    assert forall|i: int| 0 <= i < listed.len() implies before[i] == (
                        listed[i].0@,
                        listed[i].1@,
                    ) by {}
                    assert forall|i: int| 0 <= i < members@.len() implies after[i] == (
                        members@[i].0@,
                        members@[i].1@,
                    ) by {}
                    assert(after =~= before.push((name@, value@)));
                }
                json
            },
            other => other,
        }
    }

    /// An array with one more item. What is no array stays as it is.
    pub fn and(self, item: Json) -> (json: Json)
        ensures
            json@ == self@.and(item@),
    {
        match self {
            Json::List(items) => {
                let ghost before = self@->List_0;
                let mut items = items;
                let ghost listed = items@;
                items.push(item);
                let json = Json::List(items);
                proof {
                    assert(items@ == listed.push(item));
                    let after = json@->List_0;
                    assert forall|i: int| 0 <= i < listed.len() implies before[i]
                        == listed[i]@ by {}
                    assert forall|i: int| 0 <= i < items@.len() implies after[i]
                        == items@[i]@ by {}
                    assert(after =~= before.push(item@));
                }
                json
            },
            other => other,
        }
    }
}

} // verus!
