//! Lists of plain strings out of JSON values.

use vstd::prelude::*;
use crate::text::{chars_of, push_char, views};

verus! {

/// A JSON value of serde_json. Nothing of its inside is visible here.
#[verifier::external_type_specification]
#[verifier::external_body]
pub struct ExJsonValue(serde_json::Value);

/// The elements of a JSON array, in their order, each in the compact text
/// that serde_json prints for it. A value that is no array has no elements.
pub uninterp spec fn json_elements(value: serde_json::Value) -> Seq<Seq<char>>;

/// Hands out the elements of `data`: `Value::as_array` of serde_json tells an
/// array from any other value, and `to_string` prints each element through
/// the `Display` of `Value`, which writes compact JSON.
#[verifier::external_body]
fn element_texts(data: &serde_json::Value) -> (r: Vec<String>)
    ensures
        views(r@) == json_elements(*data),
{
    match data.as_array() {
        Some(items) => items.iter().map(|item| item.to_string()).collect(),
        None => Vec::new(),
    }
}

/// `text` without its double quotes.
pub open spec fn without_quotes(text: Seq<char>) -> Seq<char> {
    text.filter(|c: char| c != '"')
}

/// Each of `texts` without its double quotes.
pub open spec fn all_without_quotes(texts: Seq<Seq<char>>) -> Seq<Seq<char>> {
    Seq::new(texts.len(), |i: int| without_quotes(texts[i]))
}

/// `text` without its double quotes.
pub fn strip_quotes(text: &str) -> (r: String)
    ensures
        r@ == without_quotes(text@),
{
    let chars = chars_of(text);
    let ghost pred = |c: char| c != '"';
    let mut out = String::new();
    let mut i: usize = 0;
    proof {
        assert(chars@.take(0) =~= Seq::<char>::empty());
        reveal(Seq::filter);
    }
    while i < chars.len()
        invariant
            i <= chars.len(),
            pred == (|c: char| c != '"'),
            out@ == chars@.take(i as int).filter(pred),
        decreases chars.len() - i,
    {
        proof {
            assert(chars@.take(i + 1) =~= chars@.take(i as int).push(chars[i as int]));
            chars@.take(i as int).lemma_filter_push(chars[i as int], pred);
        }
        if chars[i] != '"' {
            push_char(&mut out, chars[i]);
        }
        i = i + 1;
    }
    proof {
        assert(chars@.take(chars.len() as int) =~= chars@);
    }
    out
}

/// Each of `texts` without its double quotes.
pub fn strip_all_quotes(texts: &Vec<String>) -> (r: Vec<String>)
    ensures
        views(r@) == all_without_quotes(views(texts@)),
{
    let mut out: Vec<String> = Vec::new();
    let mut i: usize = 0;
    while i < texts.len()
        invariant
            i <= texts.len(),
            out.len() == i,
            forall|j: int| 0 <= j < i ==> out[j]@ == without_quotes(texts[j]@),
        decreases texts.len() - i,
    {
        out.push(strip_quotes(texts[i].as_str()));
        i = i + 1;
    }
    assert(views(out@) =~= all_without_quotes(views(texts@)));
    out
}

/// The elements of a JSON array as plain strings: each element as it is
/// printed, without any double quote. Anything but an array gives no strings.
pub fn format_to_vec_of_strings(data: &serde_json::Value) -> (r: Vec<String>)
    ensures
        views(r@) == all_without_quotes(json_elements(*data)),
{
    let texts = element_texts(data);
    strip_all_quotes(&texts)
}

} // verus!
