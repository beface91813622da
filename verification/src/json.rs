//! A JSON value as the request handler reads and builds it, with its
//! mathematical model.
use vstd::prelude::*;

verus! {

/// A JSON value.
pub enum JsonValue {
    Null,
    Bool(bool),
    /// A number, held as its JSON text (such as `-32601` or `0.5`).
    Number(String),
    Str(String),
    Array(Vec<JsonValue>),
    /// The members of an object in order. Where a key occurs more than
    /// once, the last member with that key is the one that counts.
    Object(Vec<(String, JsonValue)>),
}

/// The model of a JSON value: strings are sequences of characters.
pub enum JsonModel {
    Null,
    Bool(bool),
    Number(Seq<char>),
    Str(Seq<char>),
    Array(Seq<JsonModel>),
    Object(Seq<(Seq<char>, JsonModel)>),
}

/// The model of a value.
pub open spec fn model_of(v: JsonValue) -> JsonModel
    decreases v,
{
    match v {
        JsonValue::Null => JsonModel::Null,
        JsonValue::Bool(b) => JsonModel::Bool(b),
        JsonValue::Number(n) => JsonModel::Number(n@),
        JsonValue::Str(s) => JsonModel::Str(s@),
        JsonValue::Array(items) => JsonModel::Array(models_of(items@)),
        JsonValue::Object(members) => JsonModel::Object(member_models(members@)),
    }
}

/// The models of a sequence of values, element by element.
pub open spec fn models_of(vs: Seq<JsonValue>) -> Seq<JsonModel>
    decreases vs,
{
    if vs.len() == 0 {
        Seq::empty()
    } else {
        models_of(vs.drop_last()).push(model_of(vs.last()))
    }
}

/// The models of a sequence of object members, member by member.
pub open spec fn member_models(ms: Seq<(String, JsonValue)>) -> Seq<(Seq<char>, JsonModel)>
    decreases ms,
{
    if ms.len() == 0 {
        Seq::empty()
    } else {
        member_models(ms.drop_last()).push((ms.last().0@, model_of(ms.last().1)))
    }
}

/// The member of an object model with the given key: the last one that has it.
pub open spec fn member_lookup(ms: Seq<(Seq<char>, JsonModel)>, key: Seq<char>) -> Option<JsonModel>
    decreases ms.len(),
{
    if ms.len() == 0 {
        None
    } else if ms.last().0 == key {
        Some(ms.last().1)
    } else {
        member_lookup(ms.drop_last(), key)
    }
}

/// What `value.get(key)` gives: the member of an object with that key;
/// nothing for a value that is not an object.
pub open spec fn field(v: JsonModel, key: Seq<char>) -> Option<JsonModel> {
    match v {
        JsonModel::Object(ms) => member_lookup(ms, key),
        _ => None,
    }
}

/// The text of a string value; nothing for any other value or for no value.
pub open spec fn text_of(v: Option<JsonModel>) -> Option<Seq<char>> {
    match v {
        Some(JsonModel::Str(s)) => Some(s),
        _ => None,
    }
}

/// `models_of` keeps the length and maps each element to its model.
pub proof fn lemma_models_of_index(vs: Seq<JsonValue>)
    ensures
        models_of(vs).len() == vs.len(),
        forall|i: int| 0 <= i < vs.len() ==> #[trigger] models_of(vs)[i] == model_of(vs[i]),
    decreases vs.len(),
{
    if vs.len() > 0 {
        lemma_models_of_index(vs.drop_last());
    }
}

/// `member_models` keeps the length and maps each member to its model.
pub proof fn lemma_member_models_index(ms: Seq<(String, JsonValue)>)
    ensures
        member_models(ms).len() == ms.len(),
        forall|i: int|
            0 <= i < ms.len() ==> #[trigger] member_models(ms)[i] == (ms[i].0@, model_of(ms[i].1)),
    decreases ms.len(),
{
    if ms.len() > 0 {
        lemma_member_models_index(ms.drop_last());
    }
}

/// Whether two strings hold the same characters.
pub fn same_text(a: &str, b: &str) -> (r: bool)
    ensures
        r == (a@ == b@),
{
    let x = String::from_str(a);
    let y = String::from_str(b);
    x == y
}

impl JsonValue {
    /// A string value.
    pub fn text(s: &str) -> (r: JsonValue)
        ensures
            r@ == JsonModel::Str(s@),
    {
        JsonValue::Str(String::from_str(s))
    }

    /// A number value written as the given JSON text.
    pub fn number(s: &str) -> (r: JsonValue)
        ensures
            r@ == JsonModel::Number(s@),
    {
        JsonValue::Number(String::from_str(s))
    }

    /// `value.get(key)`: the member of an object with the given key (the
    /// last one, should the key occur twice); nothing for other values.
    pub fn get(&self, key: &str) -> (r: Option<&JsonValue>)
        ensures
            match r {
                Some(v) => field(self@, key@) == Some(v@),
                None => field(self@, key@) is None,
            },
    {
        match self {
            JsonValue::Object(members) => {
                let ghost mm = member_models(members@);
                proof {
                    lemma_member_models_index(members@);
                    assert(mm.subrange(0, members@.len() as int) =~= mm);
                }
                let mut i: usize = members.len();
                while i > 0
                    invariant
                        i <= members@.len(),
                        mm == member_models(members@),
                        mm.len() == members@.len(),
                        forall|j: int|
                            0 <= j < members@.len() ==> #[trigger] mm[j] == (
                                members@[j].0@,
                                model_of(members@[j].1),
                            ),
                        member_lookup(mm, key@) == member_lookup(mm.subrange(0, i as int), key@),
                        *self == JsonValue::Object(*members),
                    decreases i,
                {
                    let member = &members[i - 1];
                    proof {
                        assert(mm.subrange(0, i as int).drop_last() =~= mm.subrange(
                            0,
                            i - 1,
                        ));
                        assert(mm.subrange(0, i as int).last() == mm[i - 1]);
                    }
                    if same_text(member.0.as_str(), key) {
                        return Some(&member.1);
                    }
                    i = i - 1;
                }
                None
            },
            _ => None,
        }
    }

    /// `value.as_str()`: the text of a string value; nothing for other values.
    pub fn as_str(&self) -> (r: Option<&str>)
        ensures
            text_of(Some(self@)) == match r {
                Some(s) => Some(s@),
                None => None::<Seq<char>>,
            },
    {
        match self {
            JsonValue::Str(s) => Some(s.as_str()),
            _ => None,
        }
    }
}

/// Appends an element to the elements of an array.
pub fn push_item(items: &mut Vec<JsonValue>, v: JsonValue)
    ensures
        models_of(final(items)@) == models_of(old(items)@).push(v@),
{
    items.push(v);
    assert(items@.drop_last() =~= old(items)@);
}

/// Appends a member to the members of an object.
pub fn push_member(members: &mut Vec<(String, JsonValue)>, key: &str, v: JsonValue)
    ensures
        member_models(final(members)@) == member_models(old(members)@).push((key@, v@)),
{
    members.push((String::from_str(key), v));
    assert(members@.drop_last() =~= old(members)@);
}

impl View for JsonValue {
    type V = JsonModel;

    open spec fn view(&self) -> JsonModel {
        model_of(*self)
    }
}

} // verus!
