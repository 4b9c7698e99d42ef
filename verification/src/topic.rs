//! Topics, topic filters and wildcard matching.
//!
//! A topic is a byte string whose levels are separated by `/`.  A filter is
//! a pattern over such topics: each level is either a literal, the
//! single-level wildcard `+`, or the multi-level wildcard `#`, which matches
//! every remaining level (including none).  Matching is defined level by
//! level; the topic is matched as given, no level is rewritten.

use vstd::prelude::*;

verus! {

/// The byte separating topic levels: `/`.
pub const LEVEL_SEP: u8 = 47;

/// The single-level wildcard byte: `+`.
pub const WILD_ONE: u8 = 43;

/// The multi-level wildcard byte: `#`.
pub const WILD_REST: u8 = 35;

/// Number of bytes before the first level separator of `t` (all of `t` when
/// it has none).
pub open spec fn lead_len(t: Seq<u8>) -> nat
    decreases t.len(),
{
    if t.len() == 0 {
        0
    } else if t[0] == LEVEL_SEP {
        0
    } else {
        1 + lead_len(t.subrange(1, t.len() as int))
    }
}

/// The levels of topic `t`: the maximal `/`-free pieces, in order.  The
/// empty topic has one empty level, and a separator at either end or two in
/// a row contribute empty levels, as the wire format has it.
pub open spec fn split_levels(t: Seq<u8>) -> Seq<Seq<u8>>
    decreases t.len(),
{
    let p = lead_len(t);
    if p >= t.len() {
        seq![t]
    } else {
        seq![t.subrange(0, p as int)] + split_levels(t.subrange(p as int + 1, t.len() as int))
    }
}

/// `lead_len(t)` is exactly the position of the first separator: no
/// separator lies before it, and one stands at it unless it is `t.len()`.
pub proof fn lemma_lead_len_at(t: Seq<u8>, p: int)
    requires
        0 <= p <= t.len(),
        forall|j: int| 0 <= j < p ==> t[j] != LEVEL_SEP,
        p < t.len() ==> t[p] == LEVEL_SEP,
    ensures
        lead_len(t) == p,
    decreases p,
{
    if p > 0 {
        let rest = t.subrange(1, t.len() as int);
        assert forall|j: int| 0 <= j < p - 1 implies rest[j] != LEVEL_SEP by {
            assert(t[j + 1] != LEVEL_SEP);
        }
        assert(p - 1 < rest.len() ==> rest[p - 1] == LEVEL_SEP);
        lemma_lead_len_at(rest, p - 1);
    }
}

/// One level of a topic filter.
pub enum FilterSeg {
    /// Matches exactly this level.
    Literal(Vec<u8>),
    /// `+`: matches any one level.
    SingleLevel,
    /// `#`: matches all remaining levels, including none.
    MultiLevel,
}

/// A compiled topic filter: one `FilterSeg` per level of the pattern.
pub struct TopicFilter {
    pub segs: Vec<FilterSeg>,
}

/// The level views of a sequence of level byte vectors.
pub open spec fn seg_views(t: Seq<Vec<u8>>) -> Seq<Seq<u8>> {
    Seq::new(t.len(), |i: int| t[i]@)
}

/// Whether filter levels `f[fi..]` match topic levels `t[ti..]`.
pub open spec fn seg_match_at(f: Seq<FilterSeg>, t: Seq<Seq<u8>>, fi: int, ti: int) -> bool
    decreases f.len() - fi,
{
    if fi < 0 || fi >= f.len() {
        ti >= t.len()
    } else {
        match f[fi] {
            FilterSeg::MultiLevel => true,
            FilterSeg::SingleLevel => ti < t.len() && seg_match_at(f, t, fi + 1, ti + 1),
            FilterSeg::Literal(l) => ti < t.len() && l@ == t[ti] && seg_match_at(
                f,
                t,
                fi + 1,
                ti + 1,
            ),
        }
    }
}

/// Whether the filter levels `f` match the topic levels `t`.
pub open spec fn seg_match(f: Seq<FilterSeg>, t: Seq<Seq<u8>>) -> bool {
    seg_match_at(f, t, 0, 0)
}

/// Whether filter `f` matches the raw topic `topic`.
pub open spec fn filter_matches(f: TopicFilter, topic: Seq<u8>) -> bool {
    seg_match(f.segs@, split_levels(topic))
}

/// Whether `seg` is the compiled form of the pattern level `s`.
pub open spec fn seg_compiles(seg: FilterSeg, s: Seq<u8>) -> bool {
    match seg {
        FilterSeg::SingleLevel => s == seq![WILD_ONE],
        FilterSeg::MultiLevel => s == seq![WILD_REST],
        FilterSeg::Literal(l) => l@ == s && s != seq![WILD_ONE] && s != seq![WILD_REST],
    }
}

/// Whether `f` is the compiled form of the raw pattern `pattern`: one
/// compiled level per pattern level.
pub open spec fn filter_compiles(f: TopicFilter, pattern: Seq<u8>) -> bool {
    &&& f.segs@.len() == split_levels(pattern).len()
    &&& forall|k: int|
        0 <= k < f.segs@.len() ==> seg_compiles(#[trigger] f.segs@[k], split_levels(pattern)[k])
}

/// Byte-wise equality of two levels.
fn bytes_eq(a: &[u8], b: &[u8]) -> (r: bool)
    ensures
        r == (a@ == b@),
{
    if a.len() != b.len() {
        return false;
    }
    let mut i: usize = 0;
    while i < a.len()
        invariant
            i <= a.len(),
            a@.len() == b@.len(),
            forall|j: int| 0 <= j < i ==> a@[j] == b@[j],
        decreases a.len() - i,
    {
        if a[i] != b[i] {
            return false;
        }
        i = i + 1;
    }
    proof {
        assert(a@ =~= b@);
    }
    true
}

/// Splits a raw topic into its levels.
pub fn split_topic(t: &[u8]) -> (segs: Vec<Vec<u8>>)
    ensures
        segs@.len() == split_levels(t@).len(),
        forall|k: int| 0 <= k < segs@.len() ==> #[trigger] segs@[k]@ == split_levels(t@)[k],
{
    let mut segs: Vec<Vec<u8>> = Vec::new();
    let mut cur: Vec<u8> = Vec::new();
    let ghost mut done: Seq<Seq<u8>> = Seq::empty();
    let ghost mut start: int = 0;
    let mut i: usize = 0;
    proof {
        assert(t@.subrange(0, t@.len() as int) =~= t@);
        assert(done + split_levels(t@) =~= split_levels(t@));
    }
    while i < t.len()
        invariant
            0 <= start <= i <= t@.len(),
            forall|j: int| start <= j < i ==> t@[j] != LEVEL_SEP,
            cur@ == t@.subrange(start, i as int),
            segs@.len() == done.len(),
            forall|k: int| 0 <= k < segs@.len() ==> #[trigger] segs@[k]@ == done[k],
            split_levels(t@) == done + split_levels(t@.subrange(start, t@.len() as int)),
        decreases t@.len() - i,
    {
        if t[i] == LEVEL_SEP {
            proof {
                let sub = t@.subrange(start, t@.len() as int);
                assert forall|j: int| 0 <= j < i - start implies sub[j] != LEVEL_SEP by {
                    assert(t@[start + j] != LEVEL_SEP);
                }
                lemma_lead_len_at(sub, i - start);
                assert(sub.subrange(0, i - start) =~= t@.subrange(start, i as int));
                assert(sub.subrange(i - start + 1, sub.len() as int) =~= t@.subrange(
                    i + 1,
                    t@.len() as int,
                ));
                assert(split_levels(t@) =~= done.push(cur@) + split_levels(
                    t@.subrange(i + 1, t@.len() as int),
                ));
            }
            segs.push(cur);
            cur = Vec::new();
            proof {
                done = done.push(t@.subrange(start, i as int));
                start = i + 1;
            }
            assert(cur@ =~= t@.subrange(start, i + 1));
        }
        if i < t.len() && t[i] != LEVEL_SEP {
            cur.push(t[i]);
            assert(cur@ =~= t@.subrange(start, i + 1));
        }
        i = i + 1;
    }
    proof {
        let sub = t@.subrange(start, t@.len() as int);
        lemma_lead_len_at(sub, sub.len() as int);
        assert(cur@ == sub);
        assert(split_levels(t@) =~= done.push(cur@));
    }
    segs.push(cur);
    segs
}

impl TopicFilter {
    /// Compiles a raw pattern: each level `+` becomes the single-level
    /// wildcard, each level `#` the multi-level wildcard, every other level
    /// a literal.
    pub fn compile(pattern: &[u8]) -> (f: TopicFilter)
        ensures
            filter_compiles(f, pattern@),
    {
        let levels = split_topic(pattern);
        let mut segs: Vec<FilterSeg> = Vec::new();
        let mut i: usize = 0;
        while i < levels.len()
            invariant
                i <= levels@.len(),
                segs@.len() == i,
                levels@.len() == split_levels(pattern@).len(),
                forall|k: int|
                    0 <= k < levels@.len() ==> #[trigger] levels@[k]@ == split_levels(pattern@)[k],
                forall|k: int|
                    0 <= k < i ==> seg_compiles(#[trigger] segs@[k], split_levels(pattern@)[k]),
            decreases levels@.len() - i,
        {
            let level = &levels[i];
            if level.len() == 1 && level[0] == WILD_ONE {
                proof {
                    assert(level@ =~= seq![WILD_ONE]);
                }
                segs.push(FilterSeg::SingleLevel);
            } else if level.len() == 1 && level[0] == WILD_REST {
                proof {
                    assert(level@ =~= seq![WILD_REST]);
                }
                segs.push(FilterSeg::MultiLevel);
            } else {
                proof {
                    if level@.len() == 1 {
                        assert(level@ != seq![WILD_ONE]) by {
                            assert(seq![WILD_ONE][0] == WILD_ONE);
                        }
                        assert(level@ != seq![WILD_REST]) by {
                            assert(seq![WILD_REST][0] == WILD_REST);
                        }
                    } else {
                        assert(seq![WILD_ONE].len() == 1);
                        assert(seq![WILD_REST].len() == 1);
                    }
                }
                segs.push(FilterSeg::Literal(level.clone()));
            }
            i = i + 1;
        }
        TopicFilter { segs }
    }

    /// Whether this filter matches the raw topic `topic`.
    pub fn matches(&self, topic: &[u8]) -> (r: bool)
        ensures
            r == filter_matches(*self, topic@),
    {
        let levels = split_topic(topic);
        proof {
            assert(seg_views(levels@) =~= split_levels(topic@));
        }
        match_at(&self.segs, &levels, 0, 0)
    }
}

/// Whether filter levels `f[fi..]` match topic levels `t[ti..]`, by
/// recursion on the filter.
fn match_at(f: &Vec<FilterSeg>, t: &Vec<Vec<u8>>, fi: usize, ti: usize) -> (r: bool)
    requires
        fi <= f@.len(),
        ti <= t@.len(),
    ensures
        r == seg_match_at(f@, seg_views(t@), fi as int, ti as int),
    decreases f@.len() - fi,
{
    if fi == f.len() {
        ti == t.len()
    } else {
        match &f[fi] {
            FilterSeg::MultiLevel => true,
            FilterSeg::SingleLevel => ti < t.len() && match_at(f, t, fi + 1, ti + 1),
            FilterSeg::Literal(l) => ti < t.len() && bytes_eq(l.as_slice(), t[ti].as_slice())
                && match_at(f, t, fi + 1, ti + 1),
        }
    }
}

} // verus!
