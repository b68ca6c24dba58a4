//! The prompt that lets the user pick one of several releases: its numbered
//! lines, and the line that an answer names.

use vstd::prelude::*;
use crate::latest::latest_of;
use crate::modrinth::{ModVersion, ModVersionView};
use crate::text::{position, push_char, views};

verus! {

/// The character of one decimal digit.
pub open spec fn digit(d: nat) -> char {
    if d == 0 {
        '0'
    } else if d == 1 {
        '1'
    } else if d == 2 {
        '2'
    } else if d == 3 {
        '3'
    } else if d == 4 {
        '4'
    } else if d == 5 {
        '5'
    } else if d == 6 {
        '6'
    } else if d == 7 {
        '7'
    } else if d == 8 {
        '8'
    } else {
        '9'
    }
}

/// How `n` is written: decimal digits, most significant first, no padding.
pub open spec fn decimal(n: nat) -> Seq<char>
    decreases n,
{
    if n < 10 {
        seq![digit(n)]
    } else {
        decimal(n / 10).push(digit(n % 10))
    }
}

fn digit_char(d: usize) -> (r: char)
    requires
        d < 10,
    ensures
        r == digit(d as nat),
{
    if d == 0 {
        '0'
    } else if d == 1 {
        '1'
    } else if d == 2 {
        '2'
    } else if d == 3 {
        '3'
    } else if d == 4 {
        '4'
    } else if d == 5 {
        '5'
    } else if d == 6 {
        '6'
    } else if d == 7 {
        '7'
    } else if d == 8 {
        '8'
    } else {
        '9'
    }
}

/// Writes `n` in decimal.
pub fn decimal_text(n: usize) -> (r: String)
    ensures
        r@ == decimal(n as nat),
    decreases n,
{
    if n < 10 {
        let mut out = String::new();
        push_char(&mut out, digit_char(n));
        assert(out@ =~= seq![digit(n as nat)]);
        out
    } else {
        let mut out = decimal_text(n / 10);
        push_char(&mut out, digit_char(n % 10));
        out
    }
}

/// One line of a selection prompt.
#[derive(Debug, Clone, PartialEq)]
pub struct Choice {
    /// The number to answer with.
    pub number: usize,
    pub name: String,
    pub version_number: String,
    /// Whether this is the latest of the releases on offer.
    pub latest: bool,
}

/// What a `Choice` holds.
pub struct ChoiceView {
    pub number: nat,
    pub name: Seq<char>,
    pub version_number: Seq<char>,
    pub latest: bool,
}

impl View for Choice {
    type V = ChoiceView;

    open spec fn view(&self) -> ChoiceView {
        ChoiceView {
            number: self.number as nat,
            name: self.name@,
            version_number: self.version_number@,
            latest: self.latest,
        }
    }
}

/// The prompt for `candidates`: they are numbered from 1 in their order, and
/// the one at `latest` carries the mark.
pub open spec fn choices_of(candidates: Seq<ModVersionView>, latest: Option<int>) -> Seq<
    ChoiceView,
> {
    Seq::new(
        candidates.len(),
        |i: int|
            ChoiceView {
                number: (i + 1) as nat,
                name: candidates[i].name,
                version_number: candidates[i].version_number,
                latest: latest == Some(i),
            },
    )
}

/// The lines of the prompt that offers `candidates`.
pub fn choices(candidates: &Vec<ModVersion>, latest: Option<usize>) -> (r: Vec<Choice>)
    ensures
        views(r@) == choices_of(views(candidates@), position(latest)),
{
    let mut out: Vec<Choice> = Vec::new();
    let mut i: usize = 0;
    while i < candidates.len()
        invariant
            i <= candidates.len(),
            out.len() == i,
            forall|j: int|
                0 <= j < i ==> out[j]@ == choices_of(
                    views(candidates@),
                    position(latest),
                )[j],
        decreases candidates.len() - i,
    {
        let marked = match latest {
            Some(l) => l == i,
            None => false,
        };
        out.push(
            Choice {
                number: i + 1,
                name: candidates[i].name.clone(),
                version_number: candidates[i].version_number.clone(),
                latest: marked,
            },
        );
        i = i + 1;
    }
    assert(views(out@) =~= choices_of(views(candidates@), position(latest)));
    out
}

/// Whether `answer` is the number of the choice at position `i`, written in
/// decimal: choices are numbered from 1.
pub open spec fn names(answer: Seq<char>, i: int) -> bool {
    i >= 0 && decimal((i + 1) as nat) == answer
}

/// `i` is the position that `answer` names among `count` choices: the first
/// whose number the answer is.
pub open spec fn is_selection(answer: Seq<char>, count: nat, i: int) -> bool {
    &&& 0 <= i < count
    &&& names(answer, i)
    &&& forall|j: int| 0 <= j < i ==> !names(answer, j)
}

/// The position that `answer` names among `count` choices, if it names one.
pub open spec fn selection(answer: Seq<char>, count: nat) -> Option<int> {
    if exists|i: int| is_selection(answer, count, i) {
        Some(choose|i: int| is_selection(answer, count, i))
    } else {
        None
    }
}

/// Maps the answer to a prompt of `count` choices back to a position: the
/// first choice whose number the answer is, letter for letter.
pub fn selected(answer: &str, count: usize) -> (r: Option<usize>)
    ensures
        match r {
            Some(i) => is_selection(answer@, count as nat, i as int),
            None => forall|j: int| 0 <= j < count ==> !names(answer@, j),
        },
        position(r) == selection(answer@, count as nat),
{
    let wanted = String::from_str(answer);
    let mut i: usize = 0;
    while i < count
        invariant
            i <= count,
            wanted@ == answer@,
            forall|j: int| 0 <= j < i ==> !names(answer@, j),
        decreases count - i,
    {
        let written = decimal_text(i + 1);
        if written == wanted {
            proof {
                let other = selection(answer@, count as nat)->0;
                assert(is_selection(answer@, count as nat, i as int));
                assert(is_selection(answer@, count as nat, other));
            }
            return Some(i);
        }
        i = i + 1;
    }
    None
}

/// A number is written with at least one digit, and from 10 on with at
/// least two.
proof fn lemma_decimal_len(n: nat)
    ensures
        decimal(n).len() >= 1,
        n >= 10 ==> decimal(n).len() >= 2,
    decreases n,
{
    if n >= 10 {
        lemma_decimal_len(n / 10);
    }
}

/// Different numbers are written differently.
pub proof fn lemma_decimal_injective(a: nat, b: nat)
    requires
        decimal(a) == decimal(b),
    ensures
        a == b,
    decreases a,
{
    lemma_decimal_len(a);
    lemma_decimal_len(b);
    if a < 10 {
        assert(decimal(a)[0] == digit(a));
        assert(decimal(b)[0] == digit(b));
    } else {
        lemma_decimal_len(a / 10);
        lemma_decimal_len(b / 10);
        assert(decimal(a).drop_last() =~= decimal(a / 10));
        assert(decimal(b).drop_last() =~= decimal(b / 10));
        assert(decimal(a).last() == digit(a % 10));
        assert(decimal(b).last() == digit(b % 10));
        lemma_decimal_injective(a / 10, b / 10);
    }
}

/// An answer names at most one choice.
pub proof fn lemma_answer_names_one_choice(answer: Seq<char>, i: int, j: int)
    requires
        names(answer, i),
        names(answer, j),
    ensures
        i == j,
{
    lemma_decimal_injective((i + 1) as nat, (j + 1) as nat);
}

/// In the prompt the line of the latest candidate carries the mark, and no
/// other line does.
pub proof fn lemma_latest_is_marked(candidates: Seq<ModVersionView>, k: int)
    requires
        0 <= k < candidates.len(),
    ensures
        choices_of(candidates, latest_of(candidates))[k].latest <==> latest_of(candidates) == Some(
            k,
        ),
{
}

} // verus!
