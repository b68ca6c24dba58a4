//! Small helpers on strings and on lists of strings.

use vstd::prelude::*;

verus! {

/// The views of the elements of `s`, in order.
pub open spec fn views<T: View>(s: Seq<T>) -> Seq<T::V> {
    Seq::new(s.len(), |i: int| s[i]@)
}

/// The characters of an optional string.
pub open spec fn option_text(o: Option<String>) -> Option<Seq<char>> {
    match o {
        Some(s) => Some(s@),
        None => None,
    }
}

/// `views` of a list with one more element.
pub proof fn lemma_views_push<T: View>(s: Seq<T>, x: T)
    ensures
        views(s.push(x)) == views(s).push(x@),
{
    assert(views(s.push(x)) =~= views(s).push(x@));
}

/// Appends one character: `String::push` of std, which adds `c` at the end
/// and touches nothing else.
#[verifier::external_body]
pub(crate) fn push_char(s: &mut String, c: char)
    ensures
        final(s)@ == old(s)@.push(c),
{
    s.push(c)
}

/// A copy of an optional string.
pub fn clone_option(o: &Option<String>) -> (r: Option<String>)
    ensures
        option_text(r) == option_text(*o),
{
    match o {
        Some(s) => Some(s.clone()),
        None => None,
    }
}

/// A copy of a list of strings.
pub fn clone_strings(list: &Vec<String>) -> (r: Vec<String>)
    ensures
        views(r@) == views(list@),
{
    let mut out: Vec<String> = Vec::new();
    let mut i: usize = 0;
    while i < list.len()
        invariant
            i <= list.len(),
            out.len() == i,
            forall|j: int| 0 <= j < i ==> out[j]@ == list[j]@,
        decreases list.len() - i,
    {
        out.push(list[i].clone());
        i = i + 1;
    }
    assert(views(out@) =~= views(list@));
    out
}

/// Whether one of the strings of `list` reads `needle`.
pub fn contains_text(list: &Vec<String>, needle: &String) -> (r: bool)
    ensures
        r == views(list@).contains(needle@),
{
    let mut i: usize = 0;
    while i < list.len()
        invariant
            i <= list.len(),
            forall|j: int| 0 <= j < i ==> list[j]@ != needle@,
        decreases list.len() - i,
    {
        if list[i] == *needle {
            assert(views(list@)[i as int] == needle@);
            return true;
        }
        i = i + 1;
    }
    assert(!views(list@).contains(needle@)) by {
        if views(list@).contains(needle@) {
            let j = choose|j: int| 0 <= j < views(list@).len() && views(list@)[j] == needle@;
            assert(list[j]@ == needle@);
        }
    }
    false
}

/// `a` followed by `b`.
pub fn joined(a: &str, b: &str) -> (r: String)
    ensures
        r@ == a@ + b@,
{
    let mut out = String::from_str(a);
    out.append(b);
    out
}

/// Whether two texts read the same.
pub fn same_text(a: &str, b: &str) -> (r: bool)
    ensures
        r == (a@ == b@),
{
    let x = String::from_str(a);
    let y = String::from_str(b);
    x == y
}

/// The characters of `text`, one by one.
pub fn chars_of(text: &str) -> (r: Vec<char>)
    ensures
        r@ == text@,
{
    let mut out: Vec<char> = Vec::new();
    for c in it: text.chars()
        invariant
            it.seq() == text@,
            out@ == text@.take(it.index() as int),
    {
        proof {
            assert(text@.take(it.index() + 1) =~= text@.take(it.index() as int).push(c));
        }
        out.push(c);
    }
    proof {
        assert(text@.take(text@.len() as int) =~= text@);
    }
    out
}

/// The text made of `chars[from..to]`.
pub fn text_of(chars: &Vec<char>, from: usize, to: usize) -> (r: String)
    requires
        from <= to <= chars.len(),
    ensures
        r@ == chars@.subrange(from as int, to as int),
{
    let mut out = String::new();
    let mut i: usize = from;
    while i < to
        invariant
            from <= i <= to <= chars.len(),
            out@ == chars@.subrange(from as int, i as int),
        decreases to - i,
    {
        push_char(&mut out, chars[i]);
        proof {
            assert(chars@.subrange(from as int, i + 1) =~= chars@.subrange(
                from as int,
                i as int,
            ).push(chars[i as int]));
        }
        i = i + 1;
    }
    out
}

/// The first element that meets `pred`, if any does.
pub open spec fn first_where<A>(s: Seq<A>, pred: spec_fn(A) -> bool) -> Option<A> {
    if s.filter(pred).len() > 0 {
        Some(s.filter(pred).first())
    } else {
        None
    }
}

/// `first_where` is the element before which nothing meets `pred`.
pub proof fn lemma_first_where<A>(s: Seq<A>, pred: spec_fn(A) -> bool, i: int)
    requires
        0 <= i <= s.len(),
        forall|j: int| 0 <= j < i ==> !pred(s[j]),
        i < s.len() ==> pred(s[i]),
    ensures
        first_where(s, pred) == if i < s.len() {
            Some(s[i])
        } else {
            None
        },
{
    let head = s.take(i);
    assert(head.filter(pred).len() == 0) by {
        if head.filter(pred).len() > 0 {
            head.lemma_filter_pred(pred, 0);
            head.lemma_filter_contains_rev(pred, head.filter(pred)[0]);
            let j = choose|j: int| 0 <= j < head.len() && head[j] == head.filter(pred)[0];
            assert(head[j] == s[j]);
        }
    }
    if i < s.len() {
        reveal(Seq::filter);
        head.lemma_filter_push(s[i], pred);
        assert(s =~= head.push(s[i]) + s.skip(i + 1));
        Seq::filter_distributes_over_add(head.push(s[i]), s.skip(i + 1), pred);
    } else {
        assert(head =~= s);
    }
}

/// A position as a mathematical integer.
pub open spec fn position(o: Option<usize>) -> Option<int> {
    match o {
        Some(i) => Some(i as int),
        None => None,
    }
}

} // verus!
