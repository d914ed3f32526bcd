use vstd::prelude::*;

verus! {

/// A JSON document as a tree. The members of an object are held as a list,
/// in the order in which they were put there: a tree that was read from a
/// text has them in the order of their names, one member of each name; a
/// tree that was built by hand has them as they were given.
#[derive(Debug, PartialEq, Eq)]
pub enum JsonValue {
    Null,
    Bool(bool),
    /// A number that is an integer from 0 to `u64::MAX`.
    Unsigned(u64),
    /// A number that is a negative integer from `i64::MIN` on.
    Negative(i64),
    /// Any other number, as its decimal text.
    Real(String),
    Text(String),
    List(Vec<JsonValue>),
    Object(Vec<(String, JsonValue)>),
}

/// The mathematical value of a [`JsonValue`].
pub enum JsonView {
    Null,
    Bool(bool),
    Unsigned(u64),
    Negative(i64),
    Real(Seq<char>),
    Text(Seq<char>),
    List(Seq<JsonView>),
    Object(Seq<(Seq<char>, JsonView)>),
}

/// The mathematical value of a tree.
pub open spec fn tree_view(tree: JsonValue) -> JsonView
    decreases tree,
{
    match tree {
        JsonValue::Null => JsonView::Null,
        JsonValue::Bool(b) => JsonView::Bool(b),
        JsonValue::Unsigned(n) => JsonView::Unsigned(n),
        JsonValue::Negative(n) => JsonView::Negative(n),
        JsonValue::Real(t) => JsonView::Real(t@),
        JsonValue::Text(t) => JsonView::Text(t@),
        JsonValue::List(items) => JsonView::List(
            Seq::new(
                items.len() as nat,
                |i: int|
                    if 0 <= i < items.len() {
                        tree_view(items[i])
                    } else {
                        JsonView::Null
                    },
            ),
        ),
        JsonValue::Object(members) => JsonView::Object(
            Seq::new(
                members.len() as nat,
                |i: int|
                    if 0 <= i < members.len() {
                        (members[i].0@, tree_view(members[i].1))
                    } else {
                        (Seq::empty(), JsonView::Null)
                    },
            ),
        ),
    }
}

impl View for JsonValue {
    type V = JsonView;

    open spec fn view(&self) -> JsonView {
        tree_view(*self)
    }
}

impl DeepView for JsonValue {
    type V = JsonView;

    open spec fn deep_view(&self) -> JsonView {
        self@
    }
}

/// The views of the items of a list.
pub open spec fn items_view(items: Seq<JsonValue>) -> Seq<JsonView> {
    Seq::new(items.len(), |i: int| items[i]@)
}

/// The views of the members of an object.
pub open spec fn members_view(members: Seq<(String, JsonValue)>) -> Seq<(Seq<char>, JsonView)> {
    Seq::new(members.len(), |i: int| (members[i].0@, members[i].1@))
}

/// The view of a list is the list of its items' views.
pub proof fn lemma_list_view(items: Vec<JsonValue>)
    ensures
        JsonValue::List(items)@ == JsonView::List(items_view(items@)),
{
    reveal_with_fuel(tree_view, 2);
    assert(JsonValue::List(items)@->List_0 =~= items_view(items@));
}

/// The view of an object is the list of its members' views.
pub proof fn lemma_object_view(members: Vec<(String, JsonValue)>)
    ensures
        JsonValue::Object(members)@ == JsonView::Object(members_view(members@)),
{
    reveal_with_fuel(tree_view, 2);
    assert(JsonValue::Object(members)@->Object_0 =~= members_view(members@));
}

/// `serde_json::Value`, a JSON value as `serde_json` holds it; it is only
/// carried between the calls below.
#[verifier::external_type_specification]
#[verifier::external_body]
pub struct ExValue(serde_json::Value);

/// `serde_json::Error`, what reading and writing report; it is only told
/// apart from success.
#[verifier::external_type_specification]
#[verifier::external_body]
pub struct ExJsonError(serde_json::Error);

/// The tree that a `serde_json::Value` holds.
pub uninterp spec fn value_tree(v: serde_json::Value) -> JsonView;

/// The tree that `serde_json` reads from a text, if it accepts the text.
pub uninterp spec fn json_parsed(text: Seq<char>) -> Option<JsonView>;

/// The tree held by the `serde_json::Value` that is built from a tree of
/// the library. The two differ where `serde_json` orders the members of an
/// object by name and keeps one member of each name.
pub uninterp spec fn value_built(tree: JsonView) -> JsonView;

/// The text that `serde_json` writes for a value that holds this tree.
pub uninterp spec fn json_text(tree: JsonView) -> Seq<char>;

/// Whether a tree holds a number that is no 64-bit integer.
pub open spec fn holds_real(tree: JsonView) -> bool
    decreases tree,
{
    match tree {
        JsonView::Real(_) => true,
        JsonView::List(items) => exists|i: int|
            0 <= i < items.len() && holds_real(#[trigger] items[i]),
        JsonView::Object(members) => exists|i: int|
            0 <= i < members.len() && holds_real((#[trigger] members[i]).1),
        _ => false,
    }
}

/// Decides whether a tree holds a number that is no 64-bit integer.
pub fn has_real(tree: &JsonValue) -> (r: bool)
    ensures
        r == holds_real(tree@),
    decreases tree,
{
    match tree {
        JsonValue::Real(_) => true,
        JsonValue::List(items) => {
            proof {
                lemma_list_view(*items);
            }
            let mut i: usize = 0;
            while i < items.len()
                invariant
                    i <= items.len(),
                    *tree == JsonValue::List(*items),
                    tree@ == JsonView::List(items_view(items@)),
                    forall|k: int| 0 <= k < i ==> !holds_real(#[trigger] items_view(items@)[k]),
                decreases items.len() - i,
            {
                if has_real(&items[i]) {
                    assert(tree@->List_0 == items_view(items@));
                    assert(holds_real(items_view(items@)[i as int]));
                    return true;
                }
                i += 1;
            }
            false
        },
        JsonValue::Object(members) => {
            proof {
                lemma_object_view(*members);
            }
            let mut i: usize = 0;
            while i < members.len()
                invariant
                    i <= members.len(),
                    *tree == JsonValue::Object(*members),
                    tree@ == JsonView::Object(members_view(members@)),
                    forall|k: int|
                        0 <= k < i ==> !holds_real((#[trigger] members_view(members@)[k]).1),
                decreases members.len() - i,
            {
                if has_real(&members[i].1) {
                    assert(tree@->Object_0 == members_view(members@));
                    assert(holds_real(members_view(members@)[i as int].1));
                    return true;
                }
                i += 1;
            }
            false
        },
        _ => false,
    }
}

/// Reads a text with `serde_json::from_str`. The result is a function of the
/// text alone: the parsed value when the text is one JSON document, an error
/// otherwise.
#[verifier::external_body]
fn value_from_text(text: &str) -> (r: Result<serde_json::Value, serde_json::Error>)
    ensures
        match r {
            Ok(v) => json_parsed(text@) == Some(value_tree(v)),
            Err(_) => json_parsed(text@) is None,
        },
{
    serde_json::from_str::<serde_json::Value>(text)
}

/// Copies a `serde_json::Value` into a tree of the library, variant by
/// variant: the result's view is what the value holds.
#[verifier::external_body]
fn tree_of(v: &serde_json::Value) -> (r: JsonValue)
    ensures
        r@ == value_tree(*v),
{
    match v {
        serde_json::Value::Null => JsonValue::Null,
        serde_json::Value::Bool(b) => JsonValue::Bool(*b),
        serde_json::Value::Number(n) => match (n.as_u64(), n.as_i64()) {
            (Some(u), _) => JsonValue::Unsigned(u),
            (_, Some(i)) => JsonValue::Negative(i),
            _ => JsonValue::Real(n.to_string()),
        },
        serde_json::Value::String(s) => JsonValue::Text(s.clone()),
        serde_json::Value::Array(a) => JsonValue::List(a.iter().map(tree_of).collect()),
        serde_json::Value::Object(o) => JsonValue::Object(
            o.iter().map(|(k, x)| (k.clone(), tree_of(x))).collect(),
        ),
    }
}

/// Builds a `serde_json::Value` from a tree of the library, variant by
/// variant. What the value holds is a function of the tree alone. A tree
/// that holds a number that is no 64-bit integer is not taken: such a
/// number is kept as text, from which no value is made here.
#[verifier::external_body]
fn value_of(tree: &JsonValue) -> (r: serde_json::Value)
    requires
        !holds_real(tree@),
    ensures
        value_tree(r) == value_built(tree@),
{
    match tree {
        JsonValue::Null | JsonValue::Real(_) => serde_json::Value::Null,
        JsonValue::Bool(b) => serde_json::Value::Bool(*b),
        JsonValue::Unsigned(n) => serde_json::Value::from(*n),
        JsonValue::Negative(n) => serde_json::Value::from(*n),
        JsonValue::Text(t) => serde_json::Value::String(t.clone()),
        JsonValue::List(items) => serde_json::Value::Array(items.iter().map(value_of).collect()),
        JsonValue::Object(members) => serde_json::Value::Object(
            members.iter().map(|m| (m.0.clone(), value_of(&m.1))).collect(),
        ),
    }
}

/// Writes a value with `serde_json::to_string`: the compact JSON text of
/// the value, which is a function of what the value holds. Writing a
/// `serde_json::Value` into memory does not fail.
#[verifier::external_body]
fn text_of_value(v: &serde_json::Value) -> (r: Result<String, serde_json::Error>)
    ensures
        r is Ok,
        r matches Ok(text) ==> text@ == json_text(value_tree(*v)),
{
    serde_json::to_string(v)
}

/// Reads a JSON text into a tree; `None` where the text is no JSON document.
pub fn parse_document(text: &str) -> (r: Option<JsonValue>)
    ensures
        match r {
            Some(doc) => json_parsed(text@) == Some(doc@),
            None => json_parsed(text@) is None,
        },
{
    match value_from_text(text) {
        Ok(v) => Some(tree_of(&v)),
        Err(_) => None,
    }
}

/// Writes a tree as compact JSON text. A tree that holds a number that is
/// no 64-bit integer is not written: the result is `None` for it, and for
/// no other tree.
pub fn write_document(tree: &JsonValue) -> (r: Option<String>)
    ensures
        match r {
            Some(text) => !holds_real(tree@) && text@ == json_text(value_built(tree@)),
            None => holds_real(tree@),
        },
{
    if has_real(tree) {
        return None;
    }
    let value = value_of(tree);
    match text_of_value(&value) {
        Ok(text) => Some(text),
        Err(_) => None,
    }
}

} // verus!
