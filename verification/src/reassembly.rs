//! Reassembly of out-of-order per-chunk transcripts into one ordered text.
//!
//! Results arrive keyed by chunk index, in any completion order; each is
//! stored in its slot.  Once the expected chunk count is known (after end of
//! stream) and every slot below it is filled, the final transcript is the
//! concatenation of the per-chunk texts in index order, with the duplicated
//! leading text of every chunk after the first trimmed away.
//!
//! The trimming heuristic is character-prefix based and fully determined:
//! between consecutive chunks, the longest prefix of the later chunk's text
//! that equals a suffix of the earlier chunk's text is dropped.  Because a
//! slot assignment does not depend on the order of earlier assignments, the
//! final transcript is independent of completion order and depends only on
//! the indices.

use vstd::prelude::*;
use vstd::math::min;
use vstd::pervasive::unreached;

verus! {

/// The spec-level slot table after storing `text` at `index`: the table is
/// padded with empty slots up to `index`, then the slot is filled.
pub open spec fn spec_store(
    slots: Seq<Option<Seq<char>>>,
    index: int,
    text: Seq<char>,
) -> Seq<Option<Seq<char>>> {
    let padded = if index < slots.len() {
        slots
    } else {
        slots + Seq::new((index + 1 - slots.len()) as nat, |k: int| Option::None)
    };
    padded.update(index, Option::Some(text))
}

/// The text of slot `i` (empty for a vacant slot).
pub open spec fn text_at(slots: Seq<Option<Seq<char>>>, i: int) -> Seq<char> {
    match slots[i] {
        Option::Some(t) => t,
        Option::None => Seq::empty(),
    }
}

/// Whether the last `k` characters of `prev` equal the first `k` of `cur`.
pub open spec fn overlap_at(prev: Seq<char>, cur: Seq<char>, k: int) -> bool {
    prev.subrange(prev.len() - k, prev.len() as int) == cur.subrange(0, k)
}

/// The largest `k' <= k` at which `prev` and `cur` overlap (0 if none).
pub open spec fn spec_largest_overlap(prev: Seq<char>, cur: Seq<char>, k: int) -> int
    decreases k,
{
    if k <= 0 {
        0
    } else if overlap_at(prev, cur, k) {
        k
    } else {
        spec_largest_overlap(prev, cur, k - 1)
    }
}

/// `cur` with its duplicated leading overlap (relative to `prev`) removed.
pub open spec fn spec_trimmed(prev: Seq<char>, cur: Seq<char>) -> Seq<char> {
    cur.subrange(
        spec_largest_overlap(prev, cur, min(prev.len() as int, cur.len() as int)),
        cur.len() as int,
    )
}

/// The final transcript of the first `n` slots: chunk texts in index order,
/// each after the first trimmed against its predecessor.
pub open spec fn spec_transcript(slots: Seq<Option<Seq<char>>>, n: int) -> Seq<char>
    decreases n,
{
    if n <= 0 {
        Seq::empty()
    } else if n == 1 {
        text_at(slots, 0)
    } else {
        spec_transcript(slots, n - 1) + spec_trimmed(text_at(slots, n - 2), text_at(slots, n - 1))
    }
}

/// The largest overlap is never larger than its bound.
proof fn lemma_largest_overlap_le(prev: Seq<char>, cur: Seq<char>, k: int)
    requires
        0 <= k,
    ensures
        spec_largest_overlap(prev, cur, k) <= k,
        0 <= spec_largest_overlap(prev, cur, k),
    decreases k,
{
    if k > 0 && !overlap_at(prev, cur, k) {
        lemma_largest_overlap_le(prev, cur, k - 1);
    }
}

/// Law: storing two results with distinct indices yields the same slot
/// table in either order.  Since every permutation of a result set is a
/// product of such swaps and the final transcript reads only the table,
/// reassembly is independent of completion order: identical per-chunk
/// results fed in reverse completion order produce the same transcript.
pub proof fn lemma_store_commutes(
    slots: Seq<Option<Seq<char>>>,
    i: int,
    ti: Seq<char>,
    j: int,
    tj: Seq<char>,
)
    requires
        0 <= i,
        0 <= j,
        i != j,
    ensures
        spec_store(spec_store(slots, i, ti), j, tj) == spec_store(spec_store(slots, j, tj), i, ti),
{
    let a = spec_store(spec_store(slots, i, ti), j, tj);
    let b = spec_store(spec_store(slots, j, tj), i, ti);
    assert(a =~= b);
}

/// Collects per-chunk transcripts by index and produces the ordered final
/// transcript once all expected chunks are present.
pub struct Reassembler {
    /// One slot per chunk index seen or expected so far.
    pub slots: Vec<Option<String>>,
    /// The total number of chunks, known once the stream has ended.
    pub expected: Option<usize>,
}

impl Reassembler {
    /// The mathematical slot table.
    pub open spec fn slot_view(self) -> Seq<Option<Seq<char>>> {
        Seq::new(
            self.slots@.len(),
            |i: int|
                match self.slots@[i] {
                    Option::Some(t) => Option::Some(t@),
                    Option::None => Option::None,
                },
        )
    }

    /// Whether slot `index` is unfilled (or beyond the table so far).
    pub open spec fn vacant(self, index: int) -> bool {
        index >= self.slot_view().len() || self.slot_view()[index] is None
    }

    /// Whether the expected count is known and every slot below it is
    /// filled.
    pub open spec fn spec_complete(self) -> bool {
        match self.expected {
            Option::Some(n) => n <= self.slot_view().len() && (forall|i: int|
                0 <= i < n ==> !self.vacant(i)),
            Option::None => false,
        }
    }

    /// An empty reassembler: no results, total not yet known.
    pub fn new() -> (r: Self)
        ensures
            r.slot_view() == Seq::<Option<Seq<char>>>::empty(),
            r.expected is None,
    {
        let r = Reassembler { slots: Vec::new(), expected: Option::None };
        proof {
            assert(r.slot_view() =~= Seq::<Option<Seq<char>>>::empty());
        }
        r
    }

    /// Store the transcript of chunk `index`.  Each chunk resolves exactly
    /// once, so the slot must be vacant; indices at or above a known
    /// expected count are refused by precondition.
    #[verifier::loop_isolation(false)]
    pub fn insert(&mut self, index: usize, text: String)
        requires
            old(self).vacant(index as int),
            index < usize::MAX,
            old(self).expected matches Option::Some(n) ==> index < n,
        ensures
            final(self).expected == old(self).expected,
            final(self).slot_view() == spec_store(old(self).slot_view(), index as int, text@),
    {
        while self.slots.len() <= index
            invariant
                self.expected == old(self).expected,
                old(self).slots@.len() <= self.slots@.len(),
                self.slots@.len() <= vstd::math::max(old(self).slots@.len() as int, index + 1),
                forall|i: int|
                    0 <= i < old(self).slots@.len() ==> self.slots@[i] == old(self).slots@[i],
                forall|i: int|
                    old(self).slots@.len() <= i < self.slots@.len() ==> self.slots@[i] is None,
            decreases index + 1 - self.slots@.len(),
        {
            self.slots.push(Option::None);
        }
        self.slots.set(index, Option::Some(text));
        proof {
            assert(self.slot_view() =~= spec_store(old(self).slot_view(), index as int, text@));
        }
    }

    /// Record the total number of chunks, once the stream has ended.
    pub fn set_expected(&mut self, n: usize)
        requires
            old(self).expected is None,
        ensures
            final(self).expected == Option::Some(n),
            final(self).slot_view() == old(self).slot_view(),
    {
        self.expected = Option::Some(n);
        proof {
            assert(self.slot_view() =~= old(self).slot_view());
        }
    }

    /// Whether the final transcript can be produced.
    #[verifier::loop_isolation(false)]
    pub fn is_complete(&self) -> (r: bool)
        ensures
            r == self.spec_complete(),
    {
        match self.expected {
            Option::None => false,
            Option::Some(n) => {
                if self.slots.len() < n {
                    proof {
                        assert(self.vacant(self.slot_view().len() as int));
                    }
                    return false;
                }
                let mut i: usize = 0;
                while i < n
                    invariant
                        i <= n,
                        n <= self.slots@.len(),
                        self.expected == Option::Some(n),
                        forall|j: int| 0 <= j < i ==> !self.vacant(j),
                    decreases n - i,
                {
                    if self.slots[i].is_none() {
                        proof {
                            assert(self.vacant(i as int));
                        }
                        return false;
                    }
                    i = i + 1;
                }
                true
            },
        }
    }

    /// Produce the ordered final transcript: per-chunk texts concatenated in
    /// index order, with each later chunk's duplicated leading overlap
    /// trimmed against its predecessor.
    #[verifier::loop_isolation(false)]
    pub fn finalize(&self) -> (r: String)
        requires
            self.spec_complete(),
        ensures
            r@ == spec_transcript(self.slot_view(), self.expected->0 as int),
    {
        let n = match self.expected {
            Option::Some(n) => n,
            Option::None => unreached(),
        };
        let mut acc = String::new();
        let mut i: usize = 0;
        while i < n
            invariant
                i <= n,
                self.spec_complete(),
                self.expected == Option::Some(n),
                acc@ == spec_transcript(self.slot_view(), i as int),
            decreases n - i,
        {
            proof {
                assert(!self.vacant(i as int));
            }
            let cur: &String = match &self.slots[i] {
                Option::Some(t) => t,
                Option::None => unreached(),
            };
            if i == 0 {
                acc.append(cur.as_str());
                proof {
                    assert(acc@ =~= text_at(self.slot_view(), 0));
                }
            } else {
                proof {
                    assert(!self.vacant(i - 1));
                }
                let prev: &String = match &self.slots[i - 1] {
                    Option::Some(t) => t,
                    Option::None => unreached(),
                };
                let k = largest_overlap(prev.as_str(), cur.as_str());
                let clen = cur.as_str().unicode_len();
                proof {
                    lemma_largest_overlap_le(
                        prev@,
                        cur@,
                        min(prev@.len() as int, cur@.len() as int),
                    );
                }
                let rest = cur.as_str().substring_char(k, clen);
                acc.append(rest);
                proof {
                    assert(text_at(self.slot_view(), i as int) == cur@);
                    assert(text_at(self.slot_view(), i - 1) == prev@);
                    assert(rest@ == spec_trimmed(prev@, cur@));
                }
            }
            i = i + 1;
        }
        acc
    }
}

/// Whether the last `k` characters of `prev` equal the first `k` of `cur`.
#[verifier::loop_isolation(false)]
fn overlap_matches(prev: &str, cur: &str, k: usize) -> (r: bool)
    requires
        k <= prev@.len(),
        k <= cur@.len(),
    ensures
        r == overlap_at(prev@, cur@, k as int),
{
    let plen = prev.unicode_len();
    let mut j: usize = 0;
    while j < k
        invariant
            j <= k,
            k <= prev@.len(),
            k <= cur@.len(),
            plen == prev@.len(),
            forall|m: int| 0 <= m < j ==> prev@[plen - k + m] == cur@[m],
        decreases k - j,
    {
        if prev.get_char(plen - k + j) != cur.get_char(j) {
            proof {
                assert(prev@.subrange(plen - k, plen as int)[j as int] != cur@.subrange(
                    0,
                    k as int,
                )[j as int]);
            }
            return false;
        }
        j = j + 1;
    }
    proof {
        assert(prev@.subrange(plen - k, plen as int) =~= cur@.subrange(0, k as int));
    }
    true
}

/// The length of the longest prefix of `cur` that equals a suffix of
/// `prev`.
#[verifier::loop_isolation(false)]
fn largest_overlap(prev: &str, cur: &str) -> (k: usize)
    ensures
        k == spec_largest_overlap(prev@, cur@, min(prev@.len() as int, cur@.len() as int)),
{
    let plen = prev.unicode_len();
    let clen = cur.unicode_len();
    let kmax = if plen < clen {
        plen
    } else {
        clen
    };
    let mut k = kmax;
    while k > 0
        invariant
            k <= kmax,
            kmax == min(prev@.len() as int, cur@.len() as int),
            spec_largest_overlap(prev@, cur@, kmax as int) == spec_largest_overlap(
                prev@,
                cur@,
                k as int,
            ),
        decreases k,
    {
        if overlap_matches(prev, cur, k) {
            return k;
        }
        k = k - 1;
    }
    0
}


/// The indices below `n` whose slots are still vacant, in increasing
/// order, starting the scan at `i`.
pub open spec fn spec_missing_from(slots: Seq<Option<Seq<char>>>, n: int, i: int) -> Seq<usize>
    decreases n - i,
{
    if i < 0 || i >= n {
        Seq::empty()
    } else if i >= slots.len() || slots[i] is None {
        seq![i as usize] + spec_missing_from(slots, n, i + 1)
    } else {
        spec_missing_from(slots, n, i + 1)
    }
}

/// The transcript of whatever chunks below `n` are present, in index
/// order, each trimmed against the nearest present chunk before it
/// (`prev`), starting the scan at `i`.
pub open spec fn spec_partial_from(
    slots: Seq<Option<Seq<char>>>,
    n: int,
    i: int,
    prev: Option<Seq<char>>,
) -> Seq<char>
    decreases n - i,
{
    if i < 0 || i >= n {
        Seq::empty()
    } else if i >= slots.len() || slots[i] is None {
        spec_partial_from(slots, n, i + 1, prev)
    } else {
        let text = text_at(slots, i);
        let piece = match prev {
            Option::Some(p) => spec_trimmed(p, text),
            Option::None => text,
        };
        piece + spec_partial_from(slots, n, i + 1, Option::Some(text))
    }
}

impl Reassembler {
    /// Produce what can be produced when a session ends early: the
    /// transcript of the chunks that did resolve, in index order with the
    /// usual overlap trimming between adjacent present chunks, together
    /// with the indices of the chunks that were abandoned.  Abandoned
    /// chunks contribute nothing; an empty second component means the
    /// transcript is the complete one.
    #[verifier::loop_isolation(false)]
    pub fn finalize_partial(&self) -> (r: (String, Vec<usize>))
        requires
            self.expected is Some,
        ensures
            r.0@ == spec_partial_from(
                self.slot_view(),
                self.expected->0 as int,
                0,
                Option::None,
            ),
            r.1@ == spec_missing_from(self.slot_view(), self.expected->0 as int, 0),
    {
        let n = match self.expected {
            Option::Some(n) => n,
            Option::None => unreached(),
        };
        let mut acc = String::new();
        let mut missing: Vec<usize> = Vec::new();
        let mut prev: Option<&String> = Option::None;
        let ghost view = self.slot_view();
        let mut i: usize = 0;
        while i < n
            invariant
                i <= n,
                view == self.slot_view(),
                self.expected == Option::Some(n),
                ({
                    let pview = match prev {
                        Option::Some(p) => Option::Some(p@),
                        Option::None => Option::<Seq<char>>::None,
                    };
                    &&& spec_partial_from(view, n as int, 0, Option::None) == acc@
                        + spec_partial_from(view, n as int, i as int, pview)
                    &&& spec_missing_from(view, n as int, 0) == missing@ + spec_missing_from(
                        view,
                        n as int,
                        i as int,
                    )
                }),
            decreases n - i,
        {
            let present = i < self.slots.len() && self.slots[i].is_some();
            if !present {
                missing.push(i);
                proof {
                    assert(missing@.drop_last() + seq![i as usize] + spec_missing_from(
                        view,
                        n as int,
                        i + 1,
                    ) =~= missing@ + spec_missing_from(view, n as int, i + 1));
                }
            } else {
                let cur: &String = match &self.slots[i] {
                    Option::Some(t) => t,
                    Option::None => unreached(),
                };
                match prev {
                    Option::None => {
                        acc.append(cur.as_str());
                    },
                    Option::Some(p) => {
                        let k = largest_overlap(p.as_str(), cur.as_str());
                        let clen = cur.as_str().unicode_len();
                        proof {
                            lemma_largest_overlap_le(
                                p@,
                                cur@,
                                min(p@.len() as int, cur@.len() as int),
                            );
                        }
                        let piece = cur.as_str().substring_char(k, clen);
                        acc.append(piece);
                    },
                }
                prev = Option::Some(cur);
            }
            i = i + 1;
        }
        (acc, missing)
    }
}

} // verus!

