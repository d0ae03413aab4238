//! JSON documents, kept as `serde_json` parsed them, and the walk along a
//! path of keys and indices that reports how far it came.

use vstd::prelude::*;
use vstd::string::*;
use crate::text::{decimal, decimal_digits};

verus! {

/// What a JSON value holds. Numbers are told apart from the rest but not
/// from each other.
pub enum JsonModel {
    Null,
    Bool(bool),
    Number,
    Text(Seq<char>),
    List(Seq<JsonModel>),
    Record(Map<Seq<char>, JsonModel>),
}

/// One step down into a document: into an array by position, into an object
/// by key.
#[derive(Debug, Clone, Copy)]
pub enum Step<'a> {
    Index(usize),
    Key(&'a str),
}

/// The value one step below `m`, where there is one.
pub open spec fn child(m: JsonModel, step: Step) -> Option<JsonModel> {
    match step {
        Step::Index(i) => match m {
            JsonModel::List(items) => if i < items.len() {
                Some(items[i as int])
            } else {
                None
            },
            _ => None,
        },
        Step::Key(key) => match m {
            JsonModel::Record(members) => if members.contains_key(key@) {
                Some(members[key@])
            } else {
                None
            },
            _ => None,
        },
    }
}

/// The value at the end of `path` below `m`, where every step leads on.
pub open spec fn follow(m: JsonModel, path: Seq<Step>) -> Option<JsonModel>
    decreases path.len(),
{
    if path.len() == 0 {
        Some(m)
    } else {
        match follow(m, path.drop_last()) {
            Some(above) => child(above, path.last()),
            None => None,
        }
    }
}

/// How many steps of `path` lead on below `m`: the length of the longest
/// beginning of `path` that `follow` can walk.
pub open spec fn reach(m: JsonModel, path: Seq<Step>) -> nat
    decreases path.len(),
{
    if follow(m, path) is Some {
        path.len()
    } else if path.len() == 0 {
        0
    } else {
        reach(m, path.drop_last())
    }
}

/// The text at the end of `path` below `m`; else the number of steps that
/// led on, where the last step counts as failed if what it leads to is no
/// text.
pub open spec fn text_at(m: JsonModel, path: Seq<Step>) -> Result<Seq<char>, nat> {
    match follow(m, path) {
        Some(JsonModel::Text(t)) => Ok(t),
        Some(_) => Err(
            if path.len() == 0 {
                0
            } else {
                (path.len() - 1) as nat
            },
        ),
        None => Err(reach(m, path)),
    }
}

/// How one step is written: an index in square brackets, a key after a dot.
pub open spec fn step_text(step: Step) -> Seq<char> {
    match step {
        Step::Index(i) => "["@ + decimal_digits(i as nat) + "]"@,
        Step::Key(key) => "."@ + key@,
    }
}

/// How a path is written: its steps one after the other.
pub open spec fn path_text(path: Seq<Step>) -> Seq<char>
    decreases path.len(),
{
    if path.len() == 0 {
        Seq::empty()
    } else {
        path_text(path.drop_last()) + step_text(path.last())
    }
}

/// `serde_json::Value`, a parsed document. Nothing inside it is seen here:
/// what it holds is told by `json_model`.
#[verifier::external_type_specification]
#[verifier::external_body]
pub struct ExValue(serde_json::Value);

/// `serde_json::Error`, of which nothing is read.
#[verifier::external_type_specification]
#[verifier::external_body]
pub struct ExJsonError(serde_json::Error);

/// What the document `v` holds, by the accessors of `serde_json::Value`.
pub uninterp spec fn json_model(v: serde_json::Value) -> JsonModel;

/// What `serde_json::from_str` makes of `text`: the content of the document
/// that it parses to, or `None` where it refuses the text.
pub uninterp spec fn json_parse(text: Seq<char>) -> Option<JsonModel>;

/// What the document that `v` may refer to holds.
pub open spec fn model_of(v: Option<&serde_json::Value>) -> Option<JsonModel> {
    match v {
        Some(w) => Some(json_model(*w)),
        None => None,
    }
}

/// `serde_json::from_str` at `serde_json::Value`. Not proved: that the
/// outcome depends on the text alone, which `json_parse` names.
#[verifier::external_body]
fn parse_value(text: &str) -> (r: Result<serde_json::Value, serde_json::Error>)
    ensures
        match r {
            Ok(v) => json_parse(text@) == Some(json_model(v)),
            Err(_) => json_parse(text@) is None,
        },
{
    serde_json::from_str(text)
}

/// `serde_json::Value::as_str`. Not proved: that it hands out the text of a
/// string value and `None` for every other kind of value.
pub assume_specification[ serde_json::Value::as_str ](v: &serde_json::Value) -> (r: Option<&str>)
    ensures
        match r {
            Some(s) => json_model(*v) == JsonModel::Text(s@),
            None => !(json_model(*v) is Text),
        },
;

/// `serde_json::Value::get` with a key. Not proved: that it hands out the
/// member under `key` where the value is an object that has one, and `None`
/// otherwise.
#[verifier::external_body]
fn member<'a>(v: &'a serde_json::Value, key: &str) -> (r: Option<&'a serde_json::Value>)
    ensures
        model_of(r) == child(json_model(*v), Step::Key(key)),
{
    v.get(key)
}

/// `serde_json::Value::get` with an index. Not proved: that it hands out the
/// element at `index` where the value is an array that long, and `None`
/// otherwise.
#[verifier::external_body]
fn element(v: &serde_json::Value, index: usize) -> (r: Option<&serde_json::Value>)
    ensures
        model_of(r) == child(json_model(*v), Step::Index(index)),
{
    v.get(index)
}

/// A path that cannot be walked up to `k` cannot be walked beyond it.
pub proof fn lemma_follow_stops(m: JsonModel, path: Seq<Step>, k: int)
    requires
        0 <= k <= path.len(),
        follow(m, path.take(k)) is None,
    ensures
        follow(m, path) is None,
    decreases path.len() - k,
{
    if k < path.len() {
        assert(path.take(k + 1).drop_last() =~= path.take(k));
        lemma_follow_stops(m, path, k + 1);
    } else {
        assert(path.take(k) =~= path);
    }
}

/// Where the first `k` steps lead on and the next one does not, `reach` is
/// `k`.
pub proof fn lemma_reach(m: JsonModel, path: Seq<Step>, k: int)
    requires
        0 <= k < path.len(),
        follow(m, path.take(k)) is Some,
        follow(m, path.take(k + 1)) is None,
    ensures
        reach(m, path) == k,
        follow(m, path) is None,
    decreases path.len(),
{
    lemma_follow_stops(m, path, k + 1);
    let front = path.drop_last();
    if k + 1 == path.len() {
        assert(reach(m, front) == k);
    } else {
        assert(front.take(k) =~= path.take(k));
        assert(front.take(k + 1) =~= path.take(k + 1));
        lemma_reach(m, front, k);
    }
}

/// Parses `text` as a JSON document.
pub fn parse(text: &str) -> (r: Option<serde_json::Value>)
    ensures
        match r {
            Some(v) => json_parse(text@) == Some(json_model(v)),
            None => json_parse(text@) is None,
        },
{
    match parse_value(text) {
        Ok(v) => Some(v),
        Err(_) => None,
    }
}

/// Walks `path` down from `doc`. Gives the value at its end, or the number
/// of steps that led on before one did not.
pub fn locate<'a>(doc: &'a serde_json::Value, path: &Vec<Step>) -> (r: Result<
    &'a serde_json::Value,
    usize,
>)
    ensures
        match r {
            Ok(node) => follow(json_model(*doc), path@) == Some(json_model(*node)),
            Err(k) => follow(json_model(*doc), path@) is None && k == reach(
                json_model(*doc),
                path@,
            ) && k < path.len(),
        },
{
    let mut node: &serde_json::Value = doc;
    let mut i: usize = 0;
    while i < path.len()
        invariant
            i <= path.len(),
            follow(json_model(*doc), path@.take(i as int)) == Some(json_model(*node)),
        decreases path.len() - i,
    {
        let below = match path[i] {
            Step::Index(index) => element(node, index),
            Step::Key(key) => member(node, key),
        };
        proof {
            assert(path@.take(i + 1).drop_last() =~= path@.take(i as int));
        }
        match below {
            Some(next) => {
                node = next;
            },
            None => {
                proof {
                    lemma_reach(json_model(*doc), path@, i as int);
                }
                return Err(i);
            },
        }
        i = i + 1;
    }
    proof {
        assert(path@.take(i as int) =~= path@);
    }
    Ok(node)
}

/// Reads the text at the end of `path` below `doc`.
pub fn read_text(doc: &serde_json::Value, path: &Vec<Step>) -> (r: Result<String, usize>)
    ensures
        match r {
            Ok(t) => text_at(json_model(*doc), path@) == Ok::<Seq<char>, nat>(t@),
            Err(k) => text_at(json_model(*doc), path@) == Err::<Seq<char>, nat>(k as nat) && (k
                < path.len() || path.len() == 0),
        },
{
    match locate(doc, path) {
        Ok(node) => match node.as_str() {
            Some(t) => Ok(String::from_str(t)),
            None => Err(
                if path.len() == 0 {
                    0
                } else {
                    path.len() - 1
                },
            ),
        },
        Err(k) => Err(k),
    }
}

/// Writes out the first `upto` steps of `path`.
pub fn render_path(path: &Vec<Step>, upto: usize) -> (text: String)
    requires
        upto <= path.len(),
    ensures
        text@ == path_text(path@.take(upto as int)),
{
    let mut text = String::new();
    let mut i: usize = 0;
    while i < upto
        invariant
            i <= upto <= path.len(),
            text@ == path_text(path@.take(i as int)),
        decreases upto - i,
    {
        proof {
            assert(path@.take(i + 1).drop_last() =~= path@.take(i as int));
        }
        match path[i] {
            Step::Index(index) => {
                text.append("[");
                text.append(decimal(index as u64).as_str());
                text.append("]");
            },
            Step::Key(key) => {
                text.append(".");
                text.append(key);
            },
        }
        i = i + 1;
    }
    text
}

} // verus!
