//! Reading the members of a JSON object as optional fields of a record.
//!
//! A member that is missing reads as the field's default. A member that is
//! there and has the wrong type makes the whole record unreadable, which
//! each function here reports as `None`.

use crate::json;
use crate::json::{documents_of, json_of, Json};
use crate::message::member_or;
use vstd::prelude::*;

verus! {

/// An optional text: missing or `null` for none, a string for some.
pub open spec fn optional_text_at(members: Map<Seq<char>, Json>, key: Seq<char>) -> Option<
    Option<Seq<char>>,
> {
    match member_or(members, key, Json::Null) {
        Json::Null => Some(None),
        Json::Text(text) => Some(Some(text)),
        _ => None,
    }
}

/// An optional flag: missing or `null` for none, a boolean for some.
pub open spec fn optional_flag_at(members: Map<Seq<char>, Json>, key: Seq<char>) -> Option<
    Option<bool>,
> {
    match member_or(members, key, Json::Null) {
        Json::Null => Some(None),
        Json::Bool(flag) => Some(Some(flag)),
        _ => None,
    }
}

/// A text with a default: `absent` where the member is missing, else the
/// member, which must be a string.
pub open spec fn text_at(
    members: Map<Seq<char>, Json>,
    key: Seq<char>,
    absent: Seq<char>,
) -> Option<Seq<char>> {
    match member_or(members, key, Json::Text(absent)) {
        Json::Text(text) => Some(text),
        _ => None,
    }
}

/// The texts of a list of strings.
pub open spec fn texts_of(items: Seq<Json>) -> Option<Seq<Seq<char>>>
    decreases items.len(),
{
    if items.len() == 0 {
        Some(Seq::empty())
    } else {
        match (texts_of(items.drop_last()), items.last()) {
            (Some(front), Json::Text(text)) => Some(front.push(text)),
            _ => None,
        }
    }
}

/// A list of texts: empty where the member is missing, else the member,
/// which must be an array of strings.
pub open spec fn texts_at(members: Map<Seq<char>, Json>, key: Seq<char>) -> Option<
    Seq<Seq<char>>,
> {
    match member_or(members, key, Json::List(Seq::empty())) {
        Json::List(items) => texts_of(items),
        _ => None,
    }
}

/// A list is a list of strings only if each of its beginnings is.
proof fn lemma_texts_of_beginning(items: Seq<Json>, n: int)
    requires
        0 <= n <= items.len(),
        texts_of(items.take(n)) is None,
    ensures
        texts_of(items) is None,
    decreases items.len() - n,
{
    if n < items.len() {
        assert(items.take(n + 1).drop_last() =~= items.take(n));
        lemma_texts_of_beginning(items, n + 1);
    } else {
        assert(items.take(n) =~= items);
    }
}

/// Reads an optional text member of an object.
pub(crate) fn optional_text(doc: &serde_json::Value, key: &str) -> (r: Option<Option<String>>)
    requires
        json_of(*doc) is Object,
    ensures
        r.deep_view() == optional_text_at(json_of(*doc)->Object_0, key@),
{
    match json::member(doc, key) {
        Some(found) => {
            if json::is_null(found) {
                Some(None)
            } else {
                match json::as_text(found) {
                    Some(text) => Some(Some(text.to_owned())),
                    None => None,
                }
            }
        },
        None => Some(None),
    }
}

/// Reads an optional flag member of an object.
pub(crate) fn optional_flag(doc: &serde_json::Value, key: &str) -> (r: Option<Option<bool>>)
    requires
        json_of(*doc) is Object,
    ensures
        r == optional_flag_at(json_of(*doc)->Object_0, key@),
{
    match json::member(doc, key) {
        Some(found) => {
            if json::is_null(found) {
                Some(None)
            } else {
                match json::as_bool(found) {
                    Some(flag) => Some(Some(flag)),
                    None => None,
                }
            }
        },
        None => Some(None),
    }
}

/// Reads a text member of an object, or `absent` where it is missing.
pub(crate) fn text_or(doc: &serde_json::Value, key: &str, absent: &str) -> (r: Option<String>)
    requires
        json_of(*doc) is Object,
    ensures
        r.deep_view() == text_at(json_of(*doc)->Object_0, key@, absent@),
{
    match json::member(doc, key) {
        Some(found) => match json::as_text(found) {
            Some(text) => Some(text.to_owned()),
            None => None,
        },
        None => Some(absent.to_owned()),
    }
}

/// Reads a member of an object that is a list of texts.
pub(crate) fn texts(doc: &serde_json::Value, key: &str) -> (r: Option<Vec<String>>)
    requires
        json_of(*doc) is Object,
    ensures
        r.deep_view() == texts_at(json_of(*doc)->Object_0, key@),
{
    let mut out: Vec<String> = Vec::new();
    let found = match json::member(doc, key) {
        Some(found) => found,
        None => {
            return Some(out);
        },
    };
    let items = match json::as_list(found) {
        Some(items) => items,
        None => {
            return None;
        },
    };
    let ghost docs = documents_of(items@);
    let n: usize = items.len();
    let mut i: usize = 0;
    while i < n
        invariant
            i <= n,
            n == items@.len(),
            docs == documents_of(items@),
            texts_at(json_of(*doc)->Object_0, key@) == texts_of(docs),
            texts_of(docs.take(i as int)) == Some(out.deep_view()),
        decreases n - i,
    {
        proof {
            assert(docs.take(i + 1).drop_last() =~= docs.take(i as int));
        }
        match json::as_text(&items[i]) {
            Some(text) => {
                out.push(text.to_owned());
            },
            None => {
                proof {
                    lemma_texts_of_beginning(docs, i + 1);
                }
                return None;
            },
        }
        i += 1;
    }
    assert(docs.take(n as int) =~= docs);
    Some(out)
}

} // verus!
