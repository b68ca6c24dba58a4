//! The `key=value` files in which the launcher keeps the settings of an
//! instance.

use vstd::prelude::*;
use crate::text::{chars_of, lemma_views_push, same_text, text_of, views};

verus! {

/// Where `c` first stands in `s`; the length of `s` where it does not occur.
pub open spec fn first_index(s: Seq<char>, c: char) -> nat
    decreases s.len(),
{
    if s.len() == 0 {
        0
    } else if s[0] == c {
        0
    } else {
        1 + first_index(s.drop_first(), c)
    }
}

/// The pieces of `s` between the occurrences of `sep`. There is always one
/// piece more than `sep` occurs, so a text without `sep` is its only piece,
/// and pieces may be empty.
pub open spec fn split(s: Seq<char>, sep: char) -> Seq<Seq<char>>
    decreases s.len(),
{
    let i = first_index(s, sep) as int;
    if i >= s.len() {
        seq![s]
    } else {
        seq![s.take(i)] + split(s.skip(i + 1), sep)
    }
}

/// `first_index` is the position before which `c` does not occur and at
/// which it does, or the end.
pub proof fn lemma_first_index(s: Seq<char>, c: char, k: int)
    requires
        0 <= k <= s.len(),
        forall|j: int| 0 <= j < k ==> s[j] != c,
        k < s.len() ==> s[k] == c,
    ensures
        first_index(s, c) == k,
    decreases k,
{
    if k > 0 {
        let rest = s.drop_first();
        assert forall|j: int| 0 <= j < k - 1 implies rest[j] != c by {
            assert(rest[j] == s[j + 1]);
        }
        lemma_first_index(rest, c, k - 1);
    }
}

/// The pieces of `chars` between the occurrences of `sep`.
pub fn split_chars(chars: &Vec<char>, sep: char) -> (r: Vec<String>)
    ensures
        views(r@) == split(chars@, sep),
{
    let mut out: Vec<String> = Vec::new();
    let mut from: usize = 0;
    proof {
        assert(chars@.skip(0) =~= chars@);
        assert(views(out@) + split(chars@, sep) =~= split(chars@, sep));
    }
    loop
        invariant
            from <= chars.len(),
            split(chars@, sep) == views(out@) + split(chars@.skip(from as int), sep),
        decreases chars.len() - from,
    {
        let mut i: usize = from;
        while i < chars.len() && chars[i] != sep
            invariant
                from <= i <= chars.len(),
                forall|j: int| from <= j < i ==> chars[j] != sep,
            decreases chars.len() - i,
        {
            i = i + 1;
        }
        let ghost tail = chars@.skip(from as int);
        let ghost done = views(out@);
        proof {
            lemma_first_index(tail, sep, i - from);
            assert(chars@.subrange(from as int, i as int) =~= tail.take(i - from));
        }
        let piece = text_of(chars, from, i);
        proof {
            lemma_views_push(out@, piece);
        }
        out.push(piece);
        if i == chars.len() {
            proof {
                assert(tail.take(i - from) =~= tail);
                assert(done + seq![tail] =~= done.push(tail));
            }
            return out;
        }
        proof {
            assert(tail.skip(i - from + 1) =~= chars@.skip(i + 1));
            assert(done + (seq![tail.take(i - from)] + split(chars@.skip(i + 1), sep))
                =~= done.push(tail.take(i - from)) + split(chars@.skip(i + 1), sep));
        }
        from = i + 1;
    }
}

/// The entry of one line: what stands before the first `=` is the key, and
/// what stands between the first `=` and the second, or the end, is the
/// value. A line without `=` has no entry.
pub open spec fn cfg_entry(line: Seq<char>) -> Option<(Seq<char>, Seq<char>)> {
    let fields = split(line, '=');
    if fields.len() >= 2 {
        Some((fields[0], fields[1]))
    } else {
        None
    }
}

/// The lines of `text` that hold anything.
pub open spec fn cfg_lines(text: Seq<char>) -> Seq<Seq<char>> {
    split(text, '\n').filter(|line: Seq<char>| line.len() > 0)
}

/// The entries of a settings file, line by line; `None` where a line that
/// holds anything holds no `=`.
pub open spec fn cfg_entries(text: Seq<char>) -> Option<Seq<(Seq<char>, Seq<char>)>> {
    let lines = cfg_lines(text);
    if forall|i: int| 0 <= i < lines.len() ==> cfg_entry(#[trigger] lines[i]) is Some {
        Some(Seq::new(lines.len(), |i: int| cfg_entry(lines[i])->0))
    } else {
        None
    }
}

/// The value of `key`: that of the last entry with this key, as a later line
/// overrides an earlier one.
pub open spec fn cfg_value(entries: Seq<(Seq<char>, Seq<char>)>, key: Seq<char>) -> Option<
    Seq<char>,
>
    decreases entries.len(),
{
    if entries.len() == 0 {
        None
    } else if entries.last().0 == key {
        Some(entries.last().1)
    } else {
        cfg_value(entries.drop_last(), key)
    }
}

/// Reads the text of a settings file into its entries, in the order of the
/// lines. Empty lines are skipped.
pub fn parse_cfg_file(contents: &str) -> (r: Option<Vec<(String, String)>>)
    ensures
        match r {
            Some(entries) => cfg_entries(contents@) == Some(views(entries@)),
            None => cfg_entries(contents@) is None,
        },
{
    let chars = chars_of(contents);
    let lines = split_chars(&chars, '\n');
    let ghost all = views(lines@);
    let ghost pred = |line: Seq<char>| line.len() > 0;
    let mut out: Vec<(String, String)> = Vec::new();
    let mut i: usize = 0;
    proof {
        assert(all.take(0) =~= Seq::<Seq<char>>::empty());
        reveal(Seq::filter);
    }
    while i < lines.len()
        invariant
            i <= lines.len(),
            all == views(lines@),
            all == split(contents@, '\n'),
            pred == (|line: Seq<char>| line.len() > 0),
            out.len() == all.take(i as int).filter(pred).len(),
            forall|k: int|
                0 <= k < out.len() ==> cfg_entry(#[trigger] all.take(i as int).filter(pred)[k])
                    == Some(out[k]@),
        decreases lines.len() - i,
    {
        let ghost before = all.take(i as int);
        let ghost kept = before.filter(pred);
        proof {
            assert(all.take(i + 1) =~= before.push(lines[i as int]@));
            before.lemma_filter_push(lines[i as int]@, pred);
        }
        if !lines[i].as_str().is_empty() {
            let fields = split_chars(&chars_of(lines[i].as_str()), '=');
            if fields.len() < 2 {
                proof {
                    let here = all.take(i + 1);
                    assert(all =~= here + all.skip(i + 1));
                    Seq::filter_distributes_over_add(here, all.skip(i + 1), pred);
                    let whole = cfg_lines(contents@);
                    assert(whole[kept.len() as int] == lines[i as int]@);
                    assert(cfg_entry(whole[kept.len() as int]) is None);
                }
                return None;
            }
            let entry = (fields[0].clone(), fields[1].clone());
            proof {
                assert(entry@ == (fields[0]@, fields[1]@));
                assert(views(fields@)[0] == fields[0]@);
                assert(views(fields@)[1] == fields[1]@);
            }
            out.push(entry);
        }
        i = i + 1;
    }
    proof {
        assert(all.take(lines.len() as int) =~= all);
        assert(views(out@) =~= cfg_entries(contents@)->0);
    }
    Some(out)
}

/// The value of `key` among `entries`.
pub fn cfg_get<'a>(entries: &'a Vec<(String, String)>, key: &str) -> (r: Option<&'a String>)
    ensures
        match r {
            Some(value) => cfg_value(views(entries@), key@) == Some(value@),
            None => cfg_value(views(entries@), key@) is None,
        },
{
    let ghost all = views(entries@);
    let mut i: usize = entries.len();
    proof {
        assert(all.take(i as int) =~= all);
    }
    while i > 0
        invariant
            i <= entries.len(),
            all == views(entries@),
            cfg_value(all, key@) == cfg_value(all.take(i as int), key@),
        decreases i,
    {
        i = i - 1;
        proof {
            let head = all.take(i + 1);
            assert(head.last() == entries[i as int]@);
            assert(head.drop_last() =~= all.take(i as int));
        }
        if same_text(entries[i].0.as_str(), key) {
            return Some(&entries[i].1);
        }
    }
    None
}

} // verus!
