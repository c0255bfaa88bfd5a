//! JSON values as the session readers see them, field lookup, and the text
//! carried by a message's content.
use vstd::prelude::*;

use crate::text::{chars_of, extend_str, joined, string_from, trim, trim_chars};

verus! {

/// A parsed JSON value. An object keeps its members in order, each key once.
/// A number is kept as an integer: exactly when it is one that fits in
/// `i64`, else its floating value truncated toward zero (saturating).
#[derive(Debug)]
pub enum JsonValue {
    Null,
    Bool(bool),
    Number(i64),
    Text(String),
    Array(Vec<JsonValue>),
    Object(Vec<(String, JsonValue)>),
}

/// The first position at or after `i` of a member named `key`.
pub open spec fn find_key_from(es: Seq<(String, JsonValue)>, key: Seq<char>, i: int) -> Option<int>
    decreases es.len() - i,
{
    if i < 0 || i >= es.len() {
        None
    } else if es[i].0@ == key {
        Some(i)
    } else {
        find_key_from(es, key, i + 1)
    }
}

/// The member of an object named `key`; `None` for a missing member or a
/// value that is not an object.
pub open spec fn json_get(v: JsonValue, key: Seq<char>) -> Option<JsonValue> {
    match v {
        JsonValue::Object(es) => match find_key_from(es@, key, 0) {
            Some(i) => Some(es@[i].1),
            None => None,
        },
        _ => None,
    }
}

/// The text of a value that is a JSON string.
pub open spec fn json_str(o: Option<JsonValue>) -> Option<Seq<char>> {
    match o {
        Some(JsonValue::Text(t)) => Some(t@),
        _ => None,
    }
}

/// The text of the string member `key`.
pub open spec fn str_member(v: JsonValue, key: Seq<char>) -> Option<Seq<char>> {
    json_str(json_get(v, key))
}

pub proof fn lemma_find_key_from(es: Seq<(String, JsonValue)>, key: Seq<char>, i: int)
    ensures
        find_key_from(es, key, i) matches Some(j) ==> 0 <= i <= j < es.len() && es[j].0@ == key,
    decreases es.len() - i,
{
    if 0 <= i < es.len() && es[i].0@ != key {
        lemma_find_key_from(es, key, i + 1);
    }
}

/// A member of an object is smaller than the object.
pub proof fn lemma_member_smaller(v: JsonValue, key: Seq<char>)
    ensures
        json_get(v, key) matches Some(c) ==> decreases_to!(v => c),
{
    if let JsonValue::Object(es) = v {
        lemma_find_key_from(es@, key, 0);
        if let Some(j) = find_key_from(es@, key, 0) {
            assert(decreases_to!(v => es));
            assert(decreases_to!(es => es@));
            assert(decreases_to!(es@ => es@[j]));
            assert(decreases_to!(es@[j] => es@[j].1));
        }
    }
}

/// The text held by a value: a string as it is; for an array, the texts of
/// its items that are not blank, joined by line breaks; for an object, its
/// `text`, `input_text` or `output_text` string (the first present);
/// otherwise nothing.
pub open spec fn extract_text(v: JsonValue) -> Seq<char>
    decreases v, 3int, 0int,
{
    match v {
        JsonValue::Text(t) => t@,
        JsonValue::Array(items) => joined(array_texts(v, items@.len() as int), "\n"@),
        JsonValue::Object(_) => match str_member(v, "text"@) {
            Some(t) => t,
            None => match str_member(v, "input_text"@) {
                Some(t) => t,
                None => match str_member(v, "output_text"@) {
                    Some(t) => t,
                    None => Seq::empty(),
                },
            },
        },
        _ => Seq::empty(),
    }
}

/// The non-blank texts of the first `n` items of an array.
pub open spec fn array_texts(v: JsonValue, n: int) -> Seq<Seq<char>>
    decreases v, 2int, n,
{
    match v {
        JsonValue::Array(items) => if n <= 0 || n > items@.len() {
            Seq::empty()
        } else {
            proof {
                assert(decreases_to!(v => items));
                assert(decreases_to!(items => items@));
                assert(decreases_to!(items@ => items@[n - 1]));
            }
            let prev = array_texts(v, n - 1);
            match item_text(items@[n - 1]) {
                Some(t) => if trim(t).len() > 0 {
                    prev.push(t)
                } else {
                    prev
                },
                None => prev,
            }
        },
        _ => Seq::empty(),
    }
}

/// The text of one content item: its `text`, `input_text` or
/// `output_text` string, else the non-blank text of its `content`.
pub open spec fn item_text(item: JsonValue) -> Option<Seq<char>>
    decreases item, 1int, 0int,
{
    match str_member(item, "text"@) {
        Some(t) => Some(t),
        None => match str_member(item, "input_text"@) {
            Some(t) => Some(t),
            None => match str_member(item, "output_text"@) {
                Some(t) => Some(t),
                None => match json_get(item, "content"@) {
                    Some(c) => {
                        proof {
                            lemma_member_smaller(item, "content"@);
                        }
                        let t = extract_text(c);
                        if trim(t).len() > 0 {
                            Some(t)
                        } else {
                            None
                        }
                    },
                    None => None,
                },
            },
        },
    }
}

/// The member of `v` named `key`.
pub fn get<'a>(v: &'a JsonValue, key: &str) -> (r: Option<&'a JsonValue>)
    ensures
        match r {
            Some(c) => json_get(*v, key@) == Some(*c),
            None => json_get(*v, key@) is None,
        },
{
    match v {
        JsonValue::Object(es) => {
            let k = key.to_owned();
            let mut i: usize = 0;
            while i < es.len()
                invariant
                    i <= es@.len(),
                    k@ == key@,
                    *v == JsonValue::Object(*es),
                    find_key_from(es@, key@, 0) == find_key_from(es@, key@, i as int),
                decreases es@.len() - i,
            {
                if es[i].0.eq(&k) {
                    assert(es@[i as int].0@ == key@);
                    assert(find_key_from(es@, key@, i as int) == Some(i as int));
                    return Some(&es[i].1);
                }
                i = i + 1;
            }
            None
        },
        _ => None,
    }
}

/// The text of the string member `key` of `v`.
pub fn get_str<'a>(v: &'a JsonValue, key: &str) -> (r: Option<&'a String>)
    ensures
        match r {
            Some(t) => str_member(*v, key@) == Some(t@),
            None => str_member(*v, key@) is None,
        },
{
    match get(v, key) {
        Some(JsonValue::Text(t)) => Some(t),
        _ => None,
    }
}

/// The text held by a content value (see `extract_text`).
pub fn content_text(v: &JsonValue) -> (r: String)
    ensures
        r@ == extract_text(*v),
    decreases *v, 3int, 0int,
{
    match v {
        JsonValue::Text(t) => t.clone(),
        JsonValue::Array(items) => {
            let mut out: Vec<char> = Vec::new();
            let mut count: usize = 0;
            let mut i: usize = 0;
            while i < items.len()
                invariant
                    i <= items@.len(),
                    *v == JsonValue::Array(*items),
                    count == array_texts(*v, i as int).len(),
                    count <= i,
                    out@ == joined(array_texts(*v, i as int), "\n"@),
                decreases items@.len() - i,
            {
                proof {
                    assert(decreases_to!(*v => *items));
                    assert(decreases_to!(*items => items@));
                    assert(decreases_to!(items@ => items@[i as int]));
                }
                let t = item_content_text(&items[i]);
                match t {
                    Some(t) => {
                        if trim_chars(t.as_str()).len() > 0 {
                            if count > 0 {
                                extend_str(&mut out, "\n");
                            }
                            extend_str(&mut out, t.as_str());
                            proof {
                                reveal_strlit("\n");
                                let prev = array_texts(*v, i as int);
                                assert(array_texts(*v, i + 1) == prev.push(t@));
                                assert(prev.push(t@).drop_last() =~= prev);
                            }
                            count = count + 1;
                        }
                    },
                    None => {},
                }
                i = i + 1;
            }
            string_from(out.as_slice())
        },
        JsonValue::Object(_) => {
            match get_str(v, "text") {
                Some(t) => t.clone(),
                None => match get_str(v, "input_text") {
                    Some(t) => t.clone(),
                    None => match get_str(v, "output_text") {
                        Some(t) => t.clone(),
                        None => String::new(),
                    },
                },
            }
        },
        _ => String::new(),
    }
}

/// The text of one content item (see `item_text`).
pub fn item_content_text(item: &JsonValue) -> (r: Option<String>)
    ensures
        match r {
            Some(t) => item_text(*item) == Some(t@),
            None => item_text(*item) is None,
        },
    decreases *item, 1int, 0int,
{
    if let Some(t) = get_str(item, "text") {
        return Some(t.clone());
    }
    if let Some(t) = get_str(item, "input_text") {
        return Some(t.clone());
    }
    if let Some(t) = get_str(item, "output_text") {
        return Some(t.clone());
    }
    match get(item, "content") {
        Some(c) => {
            proof {
                lemma_member_smaller(*item, "content"@);
            }
            let t = content_text(c);
            if trim_chars(t.as_str()).len() > 0 {
                Some(t)
            } else {
                None
            }
        },
        None => None,
    }
}

} // verus!
