//! JSON documents as trees: parsing text into a tree and walking down a tree
//! along a path of array positions.

use vstd::prelude::*;

verus! {

/// A JSON document, as far as the protocol reads it: what a string says and
/// what an array holds. Numbers and objects are kept as marks only.
#[derive(Debug)]
pub enum Json {
    Null,
    Bool(bool),
    Number,
    Text(String),
    Array(Vec<Json>),
    Object,
}

/// The mathematical value of a `Json`.
pub ghost enum JsonTree {
    Null,
    Bool(bool),
    Number,
    Text(Seq<char>),
    Array(Seq<JsonTree>),
    Object,
}

impl View for Json {
    type V = JsonTree;

    open spec fn view(&self) -> JsonTree
        decreases self,
    {
        match self {
            Json::Null => JsonTree::Null,
            Json::Bool(b) => JsonTree::Bool(*b),
            Json::Number => JsonTree::Number,
            Json::Text(s) => JsonTree::Text(s@),
            Json::Array(items) => JsonTree::Array(
                Seq::new(
                    items@.len(),
                    |i: int|
                        if 0 <= i < items@.len() {
                            items@[i].view()
                        } else {
                            JsonTree::Null
                        },
                ),
            ),
            Json::Object => JsonTree::Object,
        }
    }
}

impl JsonTree {
    /// The element at `index` of an array; `None` for anything but an array
    /// and for a position outside it.
    pub open spec fn item(self, index: int) -> Option<JsonTree> {
        match self {
            JsonTree::Array(items) => if 0 <= index < items.len() {
                Some(items[index])
            } else {
                None
            },
            _ => None,
        }
    }

    /// What a string says; `None` for anything but a string.
    pub open spec fn text(self) -> Option<Seq<char>> {
        match self {
            JsonTree::Text(s) => Some(s),
            _ => None,
        }
    }

    /// The node reached from here by taking, at each array on the way, the
    /// element that `path` names next; `None` where a node on the way is no
    /// array or is too short.
    pub open spec fn descend(self, path: Seq<usize>) -> Option<JsonTree>
        decreases path.len(),
    {
        if path.len() == 0 {
            Some(self)
        } else {
            match self.item(path[0] as int) {
                None => None,
                Some(child) => child.descend(path.skip(1)),
            }
        }
    }
}

impl JsonTree {
    /// Arrays stand inside arrays at least `levels` deep somewhere in here.
    pub open spec fn nested(self, levels: nat) -> bool
        decreases levels,
    {
        if levels == 0 {
            true
        } else {
            match self {
                JsonTree::Array(items) => levels == 1 || exists|i: int|
                    0 <= i < items.len() && (#[trigger] items[i]).nested((levels - 1) as nat),
                _ => false,
            }
        }
    }

    /// A way that leads somewhere passes an array at every step: a document
    /// with fewer levels of arrays than the way has steps does not hold its
    /// end.
    pub proof fn lemma_descend_needs_depth(self, path: Seq<usize>)
        requires
            self.descend(path) is Some,
        ensures
            self.nested(path.len()),
        decreases path.len(),
    {
        if path.len() > 0 {
            let child = self.item(path[0] as int)->Some_0;
            child.lemma_descend_needs_depth(path.skip(1));
            if path.len() > 1 {
                assert(self->Array_0[path[0] as int].nested((path.len() - 1) as nat));
            }
        }
    }
}

impl Json {
    /// The element at `index` of an array.
    pub fn item(&self, index: usize) -> (r: Option<&Json>)
        ensures
            match r {
                Some(child) => self@.item(index as int) == Some(child@),
                None => self@.item(index as int) is None,
            },
    {
        match self {
            Json::Array(items) => if index < items.len() {
                Some(&items[index])
            } else {
                None
            },
            _ => None,
        }
    }

    /// What a string says.
    pub fn text(&self) -> (r: Option<&str>)
        ensures
            match r {
                Some(s) => self@.text() == Some(s@),
                None => self@.text() is None,
            },
    {
        match self {
            Json::Text(s) => Some(s.as_str()),
            _ => None,
        }
    }

    /// Walks down from here along `path`.
    pub fn descend(&self, path: &[usize]) -> (r: Option<&Json>)
        ensures
            match r {
                Some(node) => self@.descend(path@) == Some(node@),
                None => self@.descend(path@) is None,
            },
    {
        let mut node: &Json = self;
        let mut done: usize = 0;
        assert(path@.skip(0) =~= path@);
        while done < path.len()
            invariant
                done <= path.len(),
                self@.descend(path@) == node@.descend(path@.skip(done as int)),
            decreases path.len() - done,
        {
            let ghost rest = path@.skip(done as int);
            assert(rest.skip(1) =~= path@.skip(done + 1));
            match node.item(path[done]) {
                None => {
                    return None;
                },
                Some(child) => {
                    node = child;
                },
            }
            done += 1;
        }
        assert(path@.skip(done as int).len() == 0);
        Some(node)
    }
}

/// `serde_json::Value`, the document that `serde_json` parses into.
#[verifier::external_type_specification]
#[verifier::external_body]
pub struct ExValue(serde_json::Value);

/// `serde_json::Error`, what `serde_json` reports of text that is no JSON.
#[verifier::external_type_specification]
#[verifier::external_body]
pub struct ExParseError(serde_json::Error);

/// The document that `serde_json::from_str` reads out of `text`, or `None`
/// where it refuses the text.
pub uninterp spec fn json_document(text: Seq<char>) -> Option<JsonTree>;

/// The tree that a `serde_json::Value` stands for.
pub uninterp spec fn value_tree(value: serde_json::Value) -> JsonTree;

/// Calls `serde_json::from_str` for a `serde_json::Value`. The parser reads
/// nothing but its argument, so what comes back is the same for the same
/// text: the contract gives that outcome its name and claims no more.
#[verifier::external_body]
fn parse_value(text: &str) -> (r: Result<serde_json::Value, serde_json::Error>)
    ensures
        json_document(text@) == (match r {
            Ok(value) => Some(value_tree(value)),
            Err(_) => None,
        }),
{
    serde_json::from_str::<serde_json::Value>(text)
}

/// Moves a `serde_json::Value` into a `Json`, variant by variant: a string
/// keeps its text, an array its elements in order, a boolean its value.
#[verifier::external_body]
fn tree_of(value: serde_json::Value) -> (r: Json)
    ensures
        r@ == value_tree(value),
{
    match value {
        serde_json::Value::Null => Json::Null,
        serde_json::Value::Bool(b) => Json::Bool(b),
        serde_json::Value::Number(_) => Json::Number,
        serde_json::Value::String(s) => Json::Text(s),
        serde_json::Value::Array(items) => Json::Array(items.into_iter().map(tree_of).collect()),
        serde_json::Value::Object(_) => Json::Object,
    }
}

/// Parses `text` as one JSON document.
pub fn parse(text: &str) -> (r: Option<Json>)
    ensures
        match r {
            Some(doc) => json_document(text@) == Some(doc@),
            None => json_document(text@) is None,
        },
{
    match parse_value(text) {
        Ok(value) => Some(tree_of(value)),
        Err(_) => None,
    }
}

} // verus!
