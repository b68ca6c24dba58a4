//! Which of several releases is the latest.

use vstd::prelude::*;
use crate::modrinth::{ModVersion, ModVersionView};
use crate::text::{chars_of, position, views};

verus! {

/// The UNIX time, in seconds, of the date-and-time that `text` holds in the
/// format of RFC 3339, as chrono reads that format; `None` where chrono
/// rejects the text.
pub uninterp spec fn rfc3339_timestamp(text: Seq<char>) -> Option<i64>;

/// Reads an RFC 3339 date-and-time with `DateTime::parse_from_rfc3339` of
/// chrono and takes the UNIX seconds of what was parsed with
/// `DateTime::timestamp`. A text that chrono rejects gives `None`. The offset
/// comes from the text itself, so equal texts give equal results.
#[verifier::external_body]
fn parse_rfc3339(text: &str) -> (r: Option<i64>)
    ensures
        r == rfc3339_timestamp(text@),
{
    match chrono::DateTime::parse_from_rfc3339(text) {
        Ok(date) => Some(date.timestamp()),
        Err(_) => None,
    }
}

impl ModVersion {
    /// When the release was published, in UNIX seconds; `None` where
    /// `date_published` cannot be read as a date.
    pub fn time(&self) -> (r: Option<i64>)
        ensures
            r == rfc3339_timestamp(self.date_published@),
    {
        parse_rfc3339(self.date_published.as_str())
    }
}

/// When each release of `candidates` was published.
pub open spec fn times_of(candidates: Seq<ModVersionView>) -> Seq<Option<i64>> {
    Seq::new(candidates.len(), |i: int| rfc3339_timestamp(candidates[i].date_published))
}

/// When each release of `candidates` was published.
pub fn published_times(candidates: &Vec<ModVersion>) -> (r: Vec<Option<i64>>)
    ensures
        r@ == times_of(views(candidates@)),
{
    let mut out: Vec<Option<i64>> = Vec::new();
    let mut i: usize = 0;
    while i < candidates.len()
        invariant
            i <= candidates.len(),
            out.len() == i,
            forall|j: int| 0 <= j < i ==> out[j] == rfc3339_timestamp(candidates[j].date_published@),
        decreases candidates.len() - i,
    {
        out.push(candidates[i].time());
        i = i + 1;
    }
    assert(out@ =~= times_of(views(candidates@)));
    out
}

/// `a` stands before `b` in the order of a dictionary: at the first place
/// where they differ `a` has the character of the smaller code, or `a` ends
/// there and `b` goes on.
pub open spec fn text_before(a: Seq<char>, b: Seq<char>) -> bool
    decreases a.len(),
{
    if b.len() == 0 {
        false
    } else if a.len() == 0 {
        true
    } else if a[0] != b[0] {
        (a[0] as u32) < (b[0] as u32)
    } else {
        text_before(a.drop_first(), b.drop_first())
    }
}

/// No text stands before itself.
pub proof fn lemma_text_before_irreflexive(a: Seq<char>)
    ensures
        !text_before(a, a),
    decreases a.len(),
{
    if a.len() > 0 {
        lemma_text_before_irreflexive(a.drop_first());
    }
}

/// Of two different texts one stands before the other.
pub proof fn lemma_text_before_total(a: Seq<char>, b: Seq<char>)
    requires
        a != b,
    ensures
        text_before(a, b) || text_before(b, a),
    decreases a.len(),
{
    if a.len() > 0 && b.len() > 0 && a[0] == b[0] {
        if a.drop_first() == b.drop_first() {
            assert(a =~= seq![a[0]] + a.drop_first());
            assert(b =~= seq![b[0]] + b.drop_first());
        }
        lemma_text_before_total(a.drop_first(), b.drop_first());
    } else if a.len() == 0 && b.len() == 0 {
        assert(a =~= b);
    } else if a.len() > 0 && b.len() > 0 {
        vstd::utf8::char_u32_cast(a[0], a[0] as u32);
        vstd::utf8::char_u32_cast(b[0], b[0] as u32);
    }
}

/// What stands before a text stands before all that the text stands before.
pub proof fn lemma_text_before_transitive(a: Seq<char>, b: Seq<char>, c: Seq<char>)
    requires
        text_before(a, b),
        text_before(b, c),
    ensures
        text_before(a, c),
    decreases a.len(),
{
    if a.len() > 0 && a[0] == b[0] && b[0] == c[0] {
        lemma_text_before_transitive(a.drop_first(), b.drop_first(), c.drop_first());
    }
}

/// Whether `a` stands before `b` in the order of a dictionary.
pub fn text_less(a: &str, b: &str) -> (r: bool)
    ensures
        r == text_before(a@, b@),
{
    let x = chars_of(a);
    let y = chars_of(b);
    let mut i: usize = 0;
    proof {
        assert(x@.skip(0) =~= x@);
        assert(y@.skip(0) =~= y@);
    }
    while i < x.len() && i < y.len() && x[i] == y[i]
        invariant
            i <= x.len(),
            i <= y.len(),
            text_before(x@, y@) == text_before(x@.skip(i as int), y@.skip(i as int)),
        decreases x.len() - i,
    {
        proof {
            assert(x@.skip(i as int).drop_first() =~= x@.skip(i + 1));
            assert(y@.skip(i as int).drop_first() =~= y@.skip(i + 1));
        }
        i = i + 1;
    }
    if i == y.len() {
        false
    } else if i == x.len() {
        true
    } else {
        (x[i] as u32) < (y[i] as u32)
    }
}

/// Candidate `i` ranks above candidate `j`: both have a time, and `i` was
/// published later, or at the same time under the id that stands first.
pub open spec fn outranks(
    candidates: Seq<ModVersionView>,
    times: Seq<Option<i64>>,
    i: int,
    j: int,
) -> bool {
    &&& times[i] is Some
    &&& times[j] is Some
    &&& times[i]->0 > times[j]->0 || (times[i]->0 == times[j]->0 && text_before(
        candidates[i].id,
        candidates[j].id,
    ))
}

/// `i` is the latest of the first `n` candidates: it has a time, none of
/// them ranks above it, and it ranks above every dated one that is listed
/// before it.
pub open spec fn is_latest_among(
    candidates: Seq<ModVersionView>,
    times: Seq<Option<i64>>,
    n: int,
    i: int,
) -> bool {
    &&& 0 <= i < n
    &&& times[i] is Some
    &&& forall|j: int| 0 <= j < n ==> !outranks(candidates, times, j, i)
    &&& forall|j: int| 0 <= j < i && times[j] is Some ==> outranks(candidates, times, i, j)
}

/// `i` is the latest of the candidates, whose times are `times`: the one
/// that was published last. Of several that were published at the same time
/// it is the one whose id stands first in the order of a dictionary, and of
/// several that share the id as well, the one that is listed first.
pub open spec fn is_latest(candidates: Seq<ModVersionView>, times: Seq<Option<i64>>, i: int) -> bool {
    times.len() == candidates.len() && is_latest_among(
        candidates,
        times,
        candidates.len() as int,
        i,
    )
}

/// The position of the latest of the candidates, if any of them has a time.
pub open spec fn latest_among(candidates: Seq<ModVersionView>, times: Seq<Option<i64>>) -> Option<
    int,
> {
    if exists|i: int| is_latest(candidates, times, i) {
        Some(choose|i: int| is_latest(candidates, times, i))
    } else {
        None
    }
}

/// The position of the latest of the candidates, by their dates of
/// publication.
pub open spec fn latest_of(candidates: Seq<ModVersionView>) -> Option<int> {
    latest_among(candidates, times_of(candidates))
}

/// Ranking above is one-sided.
pub proof fn lemma_outranks_one_sided(
    candidates: Seq<ModVersionView>,
    times: Seq<Option<i64>>,
    i: int,
    j: int,
)
    requires
        outranks(candidates, times, i, j),
    ensures
        !outranks(candidates, times, j, i),
{
    if text_before(candidates[i].id, candidates[j].id) && text_before(
        candidates[j].id,
        candidates[i].id,
    ) {
        lemma_text_before_transitive(candidates[i].id, candidates[j].id, candidates[i].id);
        lemma_text_before_irreflexive(candidates[i].id);
    }
}

/// What ranks above `b` ranks above all that does not.
pub proof fn lemma_outranks_chain(
    candidates: Seq<ModVersionView>,
    times: Seq<Option<i64>>,
    i: int,
    b: int,
    k: int,
)
    requires
        outranks(candidates, times, i, b),
        times[k] is Some,
        !outranks(candidates, times, k, b),
    ensures
        outranks(candidates, times, i, k),
{
    if times[k]->0 == times[b]->0 && times[i]->0 == times[b]->0 {
        if candidates[k].id != candidates[b].id {
            lemma_text_before_total(candidates[k].id, candidates[b].id);
            lemma_text_before_transitive(candidates[i].id, candidates[b].id, candidates[k].id);
        }
    }
}

/// At most one position is the latest.
pub proof fn lemma_latest_unique(
    candidates: Seq<ModVersionView>,
    times: Seq<Option<i64>>,
    i: int,
    j: int,
)
    requires
        is_latest(candidates, times, i),
        is_latest(candidates, times, j),
    ensures
        i == j,
{
    if i < j {
        assert(outranks(candidates, times, j, i));
    } else if j < i {
        assert(outranks(candidates, times, i, j));
    }
}

/// The position of the latest of `candidates`, whose times of publication
/// are `times`. Candidates without a time are never the latest.
pub fn latest_index(candidates: &Vec<ModVersion>, times: &Vec<Option<i64>>) -> (r: Option<usize>)
    requires
        times.len() == candidates.len(),
    ensures
        match r {
            Some(i) => is_latest(views(candidates@), times@, i as int),
            None => forall|j: int| 0 <= j < times.len() ==> times[j] is None,
        },
        position(r) == latest_among(views(candidates@), times@),
{
    let ghost all = views(candidates@);
    let mut best: Option<usize> = None;
    let mut best_time: i64 = 0;
    let mut i: usize = 0;
    while i < times.len()
        invariant
            i <= times.len(),
            times.len() == candidates.len(),
            all == views(candidates@),
            match best {
                Some(b) => is_latest_among(all, times@, i as int, b as int) && times[b as int]
                    == Some(best_time),
                None => forall|j: int| 0 <= j < i ==> times[j] is None,
            },
        decreases times.len() - i,
    {
        match times[i] {
            Some(t) => {
                let better = match best {
                    None => true,
                    Some(b) => {
                        assert(all[i as int].id == candidates[i as int].id@);
                        assert(all[b as int].id == candidates[b as int].id@);
                        t > best_time || (t == best_time && text_less(
                            candidates[i].id.as_str(),
                            candidates[b].id.as_str(),
                        ))
                    },
                };
                if better {
                    proof {
                        lemma_text_before_irreflexive(all[i as int].id);
                        match best {
                            Some(b) => {
                                assert(outranks(all, times@, i as int, b as int));
                                assert forall|j: int| 0 <= j < i && times[j] is Some implies outranks(
                                    all,
                                    times@,
                                    i as int,
                                    j,
                                ) by {
                                    lemma_outranks_chain(all, times@, i as int, b as int, j);
                                }
                                assert forall|j: int| 0 <= j < i + 1 implies !outranks(
                                    all,
                                    times@,
                                    j,
                                    i as int,
                                ) by {
                                    if j < i && times[j] is Some {
                                        lemma_outranks_one_sided(all, times@, i as int, j);
                                    }
                                }
                            },
                            None => {},
                        }
                    }
                    best = Some(i);
                    best_time = t;
                }
            },
            None => {},
        }
        i = i + 1;
    }
    proof {
        match best {
            Some(b) => {
                assert(is_latest(all, times@, b as int));
                lemma_latest_unique(all, times@, b as int, latest_among(all, times@)->0);
            },
            None => {
                assert forall|k: int| !is_latest(all, times@, k) by {}
            },
        }
    }
    best
}

/// Where any candidate has a time, one is the latest. No candidate was
/// published after it, none at the same time under an id that stands before
/// its own, and of the candidates that share its time and its id it is
/// listed first.
pub proof fn lemma_latest_is_greatest(candidates: Seq<ModVersionView>, k: int)
    requires
        0 <= k < candidates.len(),
    ensures
        times_of(candidates)[k] is Some ==> latest_of(candidates) is Some,
        latest_of(candidates) matches Some(i) ==> {
            &&& is_latest(candidates, times_of(candidates), i)
            &&& times_of(candidates)[k] is Some ==> times_of(candidates)[k]->0 <= times_of(
                candidates,
            )[i]->0
            &&& times_of(candidates)[k] == times_of(candidates)[i] ==> !text_before(
                candidates[k].id,
                candidates[i].id,
            )
            &&& times_of(candidates)[k] == times_of(candidates)[i] && candidates[k].id
                == candidates[i].id ==> i <= k
        },
{
    let times = times_of(candidates);
    if times[k] is Some {
        lemma_latest_exists(candidates, times, candidates.len() as int, k);
        let w = choose|i: int| is_latest_among(candidates, times, candidates.len() as int, i);
        assert(is_latest(candidates, times, w));
    }
    if latest_of(candidates) is Some {
        let i = latest_of(candidates)->0;
        assert(!outranks(candidates, times, k, i));
        if k < i && times[k] is Some {
            assert(outranks(candidates, times, i, k));
            lemma_text_before_irreflexive(candidates[i].id);
        }
    }
}

/// Among the first `n` candidates, of which candidate `k` has a time, one is
/// the latest.
proof fn lemma_latest_exists(
    candidates: Seq<ModVersionView>,
    times: Seq<Option<i64>>,
    n: int,
    k: int,
)
    requires
        0 <= k < n <= candidates.len(),
        times.len() == candidates.len(),
        times[k] is Some,
    ensures
        exists|i: int| is_latest_among(candidates, times, n, i),
    decreases n,
{
    let last = n - 1;
    lemma_text_before_irreflexive(candidates[last].id);
    if exists|j: int| 0 <= j < last && times[j] is Some {
        let j = choose|j: int| 0 <= j < last && times[j] is Some;
        lemma_latest_exists(candidates, times, last, j);
        let b = choose|i: int| is_latest_among(candidates, times, last, i);
        if outranks(candidates, times, last, b) {
            assert forall|m: int| 0 <= m < last && times[m] is Some implies outranks(
                candidates,
                times,
                last,
                m,
            ) by {
                lemma_outranks_chain(candidates, times, last, b, m);
            }
            assert forall|m: int| 0 <= m < n implies !outranks(candidates, times, m, last) by {
                if m < last && times[m] is Some {
                    lemma_outranks_one_sided(candidates, times, last, m);
                }
            }
            assert(is_latest_among(candidates, times, n, last));
        } else {
            assert(is_latest_among(candidates, times, n, b));
        }
    } else {
        assert(k == last);
        assert(is_latest_among(candidates, times, n, last));
    }
}

} // verus!
