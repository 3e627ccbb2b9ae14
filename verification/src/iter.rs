use vstd::prelude::*;
use crate::hooks::{CallerFns, Observer};
use crate::item::Item;
use crate::thin::{Adapter, BoxedThinIterator};

verus! {

/// The stable handle: the one fixed-size value a caller manipulates.  It
/// owns a thin dynamic object and carries an auxiliary size word that
/// collection-style terminals use to report a cardinality.
///
/// Every combinator and terminal operation consumes the handles it is
/// given; the handle is deliberately not copyable, so a consumed handle
/// cannot be driven or destroyed twice, and a handle cannot be chained
/// or zipped with itself.  Dropping a handle destroys the whole pipeline
/// it owns, nested sequences included.
pub struct RawIterator {
    /// The erased pipeline this handle owns.
    pub obj: BoxedThinIterator,
    /// Auxiliary size word, written by collection-style terminals.
    pub size: usize,
}

/// Wrap a concrete sequence of items into a fresh stable handle whose
/// view, under every caller table, is exactly that sequence.
pub fn make_raw_iterator<H: CallerFns>(items: Vec<Item>) -> (r: RawIterator)
    ensures
        forall|h: H| #[trigger] r.items(h) == items@,
        r.size == 0,
        forall|g: u64| !(#[trigger] r.notes_with(g)),
{
    let ghost orig = items@;
    let mut src = items;
    let mut rev: Vec<Item> = Vec::new();
    while src.len() > 0
        invariant
            src@.len() <= orig.len(),
            src@ =~= orig.take(src@.len() as int),
            rev@ =~= orig.skip(src@.len() as int).reverse(),
        decreases src.len(),
    {
        let x = src.pop().unwrap();
        rev.push(x);
    }
    proof {
        assert(rev@ =~= orig.reverse());
        assert(rev@.reverse() =~= orig);
    }
    let r = RawIterator { obj: BoxedThinIterator::new(Adapter::Source { items: rev }), size: 0 };
    r
}

/// Pull the next item out of the sequence, or learn that it is exhausted.
/// Exhaustion is permanent: after a "no item" answer every later call on
/// the same handle answers "no item" again.
pub fn iter_next<H: CallerFns, O: Observer>(s: &mut RawIterator, h: &H, obs: &mut O) -> (r:
    Option<Item>)
    ensures
        final(s).height() == old(s).height(),
        match r {
            Some(x) => old(s).items(*h).len() > 0 && x == old(s).items(*h)[0]
                && final(s).items(*h) == old(s).items(*h).drop_first(),
            None => old(s).items(*h).len() == 0 && final(s).items(*h).len() == 0,
        },
        forall|g: u64|
            #![trigger old(s).notes_with(g)]
            #![trigger final(s).notes_with(g)]
            old(s).notes_with(g) == final(s).notes_with(g),
        final(s).inspect_obs() == old(s).inspect_obs(),
        forall|g: u64|
            !old(s).notes_with(g) ==> #[trigger] final(obs).observed(g) == old(obs).observed(g),
        (match old(s).inspect_obs() {
            Some(f) => match r {
                Some(x) => final(obs).observed(f) == old(obs).observed(f).push(x),
                None => final(obs).observed(f) == old(obs).observed(f),
            },
            None => true,
        }),
{
    s.advance(h, obs)
}

/// Concatenate two sequences: the result yields everything of `s`, then
/// everything of `other`.  Both input handles are consumed; a handle can
/// never be chained with itself.
pub fn iter_chain<H: CallerFns>(s: RawIterator, other: RawIterator) -> (r: RawIterator)
    ensures
        forall|h: H| #[trigger] r.items(h) == s.items(h) + other.items(h),
        r.size == 0,
        forall|g: u64| #[trigger] r.notes_with(g) == (s.notes_with(g) || other.notes_with(g)),
{
    RawIterator { obj: BoxedThinIterator::new(Adapter::Chain { a: s, b: other }), size: 0 }
}

/// Map every item through the caller function named by the word `f`.
pub fn iter_map<H: CallerFns>(s: RawIterator, f: u64) -> (r: RawIterator)
    ensures
        forall|h: H| #[trigger] r.items(h) == crate::thin::map_view(h, f, s.items(h)),
        r.size == 0,
        forall|g: u64| #[trigger] r.notes_with(g) == s.notes_with(g),
{
    RawIterator { obj: BoxedThinIterator::new(Adapter::Mapped { inner: s, f }), size: 0 }
}

/// Keep only the items the caller predicate named by `f` accepts.
pub fn iter_filter<H: CallerFns>(s: RawIterator, f: u64) -> (r: RawIterator)
    ensures
        forall|h: H| #[trigger] r.items(h) == crate::thin::filter_view(h, f, s.items(h)),
        r.size == 0,
        forall|g: u64| #[trigger] r.notes_with(g) == s.notes_with(g),
{
    RawIterator { obj: BoxedThinIterator::new(Adapter::Filter { inner: s, f }), size: 0 }
}

/// Apply the caller partial function named by `f`, skipping every item it
/// declines and continuing with the rest.
pub fn iter_filter_map<H: CallerFns>(s: RawIterator, f: u64) -> (r: RawIterator)
    ensures
        forall|h: H| #[trigger] r.items(h) == crate::thin::filter_map_view(h, f, s.items(h)),
        r.size == 0,
        forall|g: u64| #[trigger] r.notes_with(g) == s.notes_with(g),
{
    RawIterator { obj: BoxedThinIterator::new(Adapter::FilterMap { inner: s, f }), size: 0 }
}

/// Yield items while the caller predicate named by `f` accepts them, then
/// stop for good.
pub fn iter_take_while<H: CallerFns>(s: RawIterator, f: u64) -> (r: RawIterator)
    ensures
        forall|h: H| #[trigger] r.items(h) == crate::thin::take_while_view(h, f, s.items(h)),
        r.size == 0,
        forall|g: u64| #[trigger] r.notes_with(g) == s.notes_with(g),
{
    RawIterator {
        obj: BoxedThinIterator::new(Adapter::TakeWhile { inner: s, f, done: false }),
        size: 0,
    }
}

/// Apply the caller partial function named by `f` until its first declined
/// item, which ends the whole sequence; later items are never visited.
pub fn iter_map_while<H: CallerFns>(s: RawIterator, f: u64) -> (r: RawIterator)
    ensures
        forall|h: H| #[trigger] r.items(h) == crate::thin::map_while_view(h, f, s.items(h)),
        r.size == 0,
        forall|g: u64| #[trigger] r.notes_with(g) == s.notes_with(g),
{
    RawIterator {
        obj: BoxedThinIterator::new(Adapter::MapWhile { inner: s, f, done: false }),
        size: 0,
    }
}

/// Drop items while the caller predicate named by `f` accepts them, then
/// yield everything that follows.
pub fn iter_skip_while<H: CallerFns>(s: RawIterator, f: u64) -> (r: RawIterator)
    ensures
        forall|h: H| #[trigger] r.items(h) == crate::thin::skip_while_view(h, f, s.items(h)),
        r.size == 0,
        forall|g: u64| #[trigger] r.notes_with(g) == s.notes_with(g),
{
    RawIterator {
        obj: BoxedThinIterator::new(Adapter::SkipWhile { inner: s, f, done: false }),
        size: 0,
    }
}

/// Thread the opaque state `initial_state` through the caller function
/// named by `f`; its first declined item ends the sequence.
pub fn iter_scan<H: CallerFns>(s: RawIterator, initial_state: Item, f: u64) -> (r: RawIterator)
    ensures
        forall|h: H| #[trigger] r.items(h) == crate::thin::scan_view(h, f, initial_state, s.items(h)),
        r.size == 0,
        forall|g: u64| #[trigger] r.notes_with(g) == s.notes_with(g),
{
    RawIterator {
        obj: BoxedThinIterator::new(Adapter::Scan { inner: s, f, state: initial_state, done: false }),
        size: 0,
    }
}

/// Pair up two sequences; the shorter operand bounds the result.  Both
/// input handles are consumed; a handle can never be zipped with itself.
pub fn iter_zip<H: CallerFns>(s: RawIterator, other: RawIterator) -> (r: RawIterator)
    ensures
        forall|h: H| #[trigger] r.items(h) == crate::thin::zip_view(s.items(h), other.items(h)),
        r.size == 0,
        forall|g: u64| #[trigger] r.notes_with(g) == (s.notes_with(g) || other.notes_with(g)),
{
    RawIterator { obj: BoxedThinIterator::new(Adapter::Zip { a: s, b: other }), size: 0 }
}

/// Attach a running position to every item, starting at zero.
pub fn iter_enumerate<H: CallerFns>(s: RawIterator) -> (r: RawIterator)
    ensures
        forall|h: H| #[trigger] r.items(h) == crate::thin::enumerate_view(0, s.items(h)),
        r.size == 0,
        forall|g: u64| #[trigger] r.notes_with(g) == s.notes_with(g),
{
    RawIterator { obj: BoxedThinIterator::new(Adapter::Enumerate { inner: s, idx: 0 }), size: 0 }
}

/// Drop the first `n` items and yield the rest.
pub fn iter_skip<H: CallerFns>(s: RawIterator, n: usize) -> (r: RawIterator)
    ensures
        forall|h: H| #[trigger] r.items(h) == crate::thin::skip_up_to(s.items(h), n as int),
        r.size == 0,
        forall|g: u64| #[trigger] r.notes_with(g) == s.notes_with(g),
{
    RawIterator { obj: BoxedThinIterator::new(Adapter::Skip { inner: s, n }), size: 0 }
}

/// Yield at most the first `n` items.
pub fn iter_take<H: CallerFns>(s: RawIterator, n: usize) -> (r: RawIterator)
    ensures
        forall|h: H| #[trigger] r.items(h) == crate::thin::take_up_to(s.items(h), n as int),
        r.size == 0,
        forall|g: u64| #[trigger] r.notes_with(g) == s.notes_with(g),
{
    RawIterator { obj: BoxedThinIterator::new(Adapter::Take { inner: s, n }), size: 0 }
}

/// Yield every `step`-th item, starting with the first.  A zero step is a
/// caller error and is not accepted.
pub fn iter_step_by<H: CallerFns>(s: RawIterator, step: usize) -> (r: RawIterator)
    requires
        step >= 1,
    ensures
        forall|h: H| #[trigger] r.items(h) == crate::thin::step_view(s.items(h), step),
        r.size == 0,
        forall|g: u64| #[trigger] r.notes_with(g) == s.notes_with(g),
{
    RawIterator { obj: BoxedThinIterator::new(Adapter::StepBy { inner: s, step }), size: 0 }
}

/// Fuse the sequence.  Every handle of this bridge already reports
/// exhaustion permanently, so the result yields exactly the same items.
pub fn iter_fuse<H: CallerFns>(s: RawIterator) -> (r: RawIterator)
    ensures
        forall|h: H| #[trigger] r.items(h) == s.items(h),
        r.size == 0,
        forall|g: u64| #[trigger] r.notes_with(g) == s.notes_with(g),
{
    RawIterator { obj: BoxedThinIterator::new(Adapter::Fuse { inner: s }), size: 0 }
}

/// Make the sequence peekable.  No peeking operation crosses the
/// boundary, so the result yields exactly the same items.
pub fn iter_peekable<H: CallerFns>(s: RawIterator) -> (r: RawIterator)
    ensures
        forall|h: H| #[trigger] r.items(h) == s.items(h),
        r.size == 0,
        forall|g: u64| #[trigger] r.notes_with(g) == s.notes_with(g),
{
    RawIterator { obj: BoxedThinIterator::new(Adapter::Peekable { inner: s }), size: 0 }
}

/// Hand every item to the caller observation function named by `f`,
/// yielding it unchanged afterwards.  When nothing beneath shares the
/// word `f`, each step of the result that yields an item also appends
/// exactly that item to the observation log of `f` (the per-step law of
/// `advance`).
pub fn iter_inspect<H: CallerFns>(s: RawIterator, f: u64) -> (r: RawIterator)
    ensures
        forall|h: H| #[trigger] r.items(h) == s.items(h),
        r.size == 0,
        forall|g: u64| #[trigger] r.notes_with(g) == (g == f || s.notes_with(g)),
        !s.notes_with(f) ==> r.inspect_obs() == Some(f),
{
    RawIterator { obj: BoxedThinIterator::new(Adapter::Inspect { inner: s, f }), size: 0 }
}

/// Re-wrap an already-erased sequence into a fresh handle yielding the
/// same items.  The input handle is consumed, so the underlying object
/// still has exactly one owner.
pub fn iter_by_ref<H: CallerFns>(s: RawIterator) -> (r: RawIterator)
    ensures
        forall|h: H| #[trigger] r.items(h) == s.items(h),
        r.size == 0,
        forall|g: u64| #[trigger] r.notes_with(g) == s.notes_with(g),
{
    RawIterator { obj: BoxedThinIterator::new(Adapter::Rewrap { inner: s }), size: 0 }
}

/// Replace every item by the expansion the caller function named by `f`
/// supplies for it, splicing the expansions together in order.
pub fn iter_flat_map<H: CallerFns>(s: RawIterator, f: u64) -> (r: RawIterator)
    ensures
        forall|h: H| #[trigger] r.items(h) == crate::thin::flat_map_view(h, f, s.items(h)),
        r.size == 0,
        forall|g: u64| #[trigger] r.notes_with(g) == s.notes_with(g),
{
    let r = RawIterator {
        obj: BoxedThinIterator::new(Adapter::FlatMap { inner: s, f, buf: Vec::new() }),
        size: 0,
    };
    proof {
        assert forall|h: H| #[trigger] r.items(h) == crate::thin::flat_map_view(h, f, s.items(h)) by {
            assert(r.items(h) =~= crate::thin::flat_map_view(h, f, s.items(h)));
        }
    }
    r
}

/// The result of folding a caller function over a sequence, left to
/// right, starting from `init`.
pub open spec fn fold_view<H: CallerFns>(h: H, f: u64, init: Item, s: Seq<Item>) -> Item
    decreases s.len(),
{
    if s.len() == 0 {
        init
    } else {
        fold_view(h, f, h.fold_spec(f, init, s[0]), s.drop_first())
    }
}

/// Count the items and consume the handle.
#[verifier::loop_isolation(false)]
pub fn iter_count<H: CallerFns, O: Observer>(s: RawIterator, h: &H, obs: &mut O) -> (r: usize)
    requires
        s.items(*h).len() <= usize::MAX,
    ensures
        r as int == s.items(*h).len(),
{
    let mut it = s;
    let ghost orig = it.items(*h);
    let mut count: usize = 0;
    loop
        invariant
            count + it.items(*h).len() == orig.len(),
        decreases it.items(*h).len(),
    {
        match it.advance(h, obs) {
            None => {
                return count;
            },
            Some(_discard) => {
                count = count + 1;
            },
        }
    }
}

/// Yield the last item of the sequence, or nothing when it is empty,
/// consuming the handle.
#[verifier::loop_isolation(false)]
pub fn iter_last<H: CallerFns, O: Observer>(s: RawIterator, h: &H, obs: &mut O) -> (r: Option<Item>)
    ensures
        match r {
            Some(x) => s.items(*h).len() > 0 && x == s.items(*h).last(),
            None => s.items(*h).len() == 0,
        },
{
    let mut it = s;
    let ghost orig = it.items(*h);
    let ghost mut k: int = 0;
    let mut best: Option<Item> = None;
    loop
        invariant
            0 <= k <= orig.len(),
            it.items(*h) =~= orig.skip(k),
            best == (if k == 0 {
                Option::<Item>::None
            } else {
                Some(orig[k - 1])
            }),
        decreases it.items(*h).len(),
    {
        match it.advance(h, obs) {
            None => {
                return best;
            },
            Some(x) => {
                best = Some(x);
                proof {
                    k = k + 1;
                    assert(it.items(*h) =~= orig.skip(k));
                }
            },
        }
    }
}

/// Yield the item at position `n`, consuming it and everything before
/// it; nothing when fewer than `n + 1` items remain.
#[verifier::loop_isolation(false)]
pub fn iter_nth<H: CallerFns, O: Observer>(s: &mut RawIterator, n: usize, h: &H, obs: &mut O) -> (r: Option<Item>)
    ensures
        r == (if n < old(s).items(*h).len() {
            Some(old(s).items(*h)[n as int])
        } else {
            Option::<Item>::None
        }),
        final(s).items(*h) == crate::thin::skip_up_to(old(s).items(*h), n + 1),
{
    let ghost orig = s.items(*h);
    let mut i: usize = 0;
    loop
        invariant
            0 <= i <= n,
            s.items(*h) == crate::thin::skip_up_to(orig, i as int),
        decreases n - i,
    {
        let ghost pre = s.items(*h);
        match s.advance(h, obs) {
            None => {
                proof {
                    assert(s.items(*h) =~= crate::thin::skip_up_to(orig, n + 1));
                }
                return None;
            },
            Some(x) => {
                if i == n {
                    proof {
                        assert(x == orig[n as int]);
                        assert(s.items(*h) =~= crate::thin::skip_up_to(orig, n + 1));
                    }
                    return Some(x);
                }
                i = i + 1;
                proof {
                    assert(s.items(*h) =~= crate::thin::skip_up_to(orig, i as int));
                }
            },
        }
    }
}

/// Collect every remaining item into an array, in order.  The handle is
/// drained, and its auxiliary size word reports the cardinality.
#[verifier::loop_isolation(false)]
pub fn iter_collect<H: CallerFns, O: Observer>(s: &mut RawIterator, h: &H, obs: &mut O) -> (r: Vec<Item>)
    requires
        old(s).items(*h).len() <= usize::MAX,
    ensures
        r@ == old(s).items(*h),
        final(s).size == r@.len(),
        final(s).items(*h).len() == 0,
{
    let ghost orig = s.items(*h);
    let mut out: Vec<Item> = Vec::new();
    loop
        invariant
            out@ + s.items(*h) =~= orig,
        decreases s.items(*h).len(),
    {
        match s.advance(h, obs) {
            None => {
                proof {
                    assert(out@ =~= orig);
                }
                s.size = out.len();
                return out;
            },
            Some(x) => {
                out.push(x);
            },
        }
    }
}

/// Fold the caller function named by `f` over the sequence, left to
/// right, starting from `init`, consuming the handle.
#[verifier::loop_isolation(false)]
pub fn iter_fold<H: CallerFns, O: Observer>(s: RawIterator, init: Item, f: u64, h: &H, obs: &mut O) -> (r: Item)
    ensures
        r == fold_view(*h, f, init, s.items(*h)),
{
    let mut it = s;
    let ghost orig = it.items(*h);
    let mut acc = init;
    loop
        invariant
            fold_view(*h, f, acc, it.items(*h)) == fold_view(*h, f, init, orig),
        decreases it.items(*h).len(),
    {
        match it.advance(h, obs) {
            None => {
                return acc;
            },
            Some(x) => {
                acc = h.call_fold(f, acc, x);
            },
        }
    }
}

/// Fold the caller function named by `f` over the sequence with its
/// first item as the starting accumulator; nothing when the sequence is
/// empty.  The handle is consumed.
#[verifier::loop_isolation(false)]
pub fn iter_reduce<H: CallerFns, O: Observer>(s: RawIterator, f: u64, h: &H, obs: &mut O) -> (r: Option<Item>)
    ensures
        match r {
            Some(v) => s.items(*h).len() > 0 && v == fold_view(
                *h,
                f,
                s.items(*h)[0],
                s.items(*h).drop_first(),
            ),
            None => s.items(*h).len() == 0,
        },
{
    let mut it = s;
    match it.advance(h, obs) {
        None => None,
        Some(first) => Some(iter_fold(it, first, f, h, obs)),
    }
}

/// The first item a caller predicate accepts, if any.
pub open spec fn find_view<H: CallerFns>(h: H, f: u64, s: Seq<Item>) -> Option<Item>
    decreases s.len(),
{
    if s.len() == 0 {
        None
    } else if h.pred_spec(f, s[0]) {
        Some(s[0])
    } else {
        find_view(h, f, s.drop_first())
    }
}

/// The first accepted answer of a caller partial function, if any.
pub open spec fn find_map_view<H: CallerFns>(h: H, f: u64, s: Seq<Item>) -> Option<Item>
    decreases s.len(),
{
    if s.len() == 0 {
        None
    } else {
        match h.opt_spec(f, s[0]) {
            Some(y) => Some(y),
            None => find_map_view(h, f, s.drop_first()),
        }
    }
}

/// The position of the first item a caller predicate accepts, if any.
pub open spec fn position_view<H: CallerFns>(h: H, f: u64, s: Seq<Item>) -> Option<int>
    decreases s.len(),
{
    if s.len() == 0 {
        None
    } else if h.pred_spec(f, s[0]) {
        Some(0)
    } else {
        match position_view(h, f, s.drop_first()) {
            Some(i) => Some(i + 1),
            None => None,
        }
    }
}

/// The running maximum of `acc` and a sequence, taken left to right in
/// the natural order on opaque items; among equal maxima the latest one
/// wins.
pub open spec fn max_from(acc: Item, s: Seq<Item>) -> Item
    decreases s.len(),
{
    if s.len() == 0 {
        acc
    } else {
        max_from(
            if crate::item::spec_item_cmp(s[0], acc) == Ordering::ORDERING_LESS {
                acc
            } else {
                s[0]
            },
            s.drop_first(),
        )
    }
}

/// The running minimum of `acc` and a sequence, taken left to right in
/// the natural order on opaque items; among equal minima the earliest
/// one wins.
pub open spec fn min_from(acc: Item, s: Seq<Item>) -> Item
    decreases s.len(),
{
    if s.len() == 0 {
        acc
    } else {
        min_from(
            if crate::item::spec_item_cmp(s[0], acc) == Ordering::ORDERING_LESS {
                s[0]
            } else {
                acc
            },
            s.drop_first(),
        )
    }
}

/// Decide whether the caller predicate named by `f` accepts every item,
/// consuming the handle.  True on an empty sequence.
#[verifier::loop_isolation(false)]
pub fn iter_all<H: CallerFns, O: Observer>(s: RawIterator, f: u64, h: &H, obs: &mut O) -> (r: bool)
    ensures
        r == (forall|i: int|
            0 <= i < s.items(*h).len() ==> h.pred_spec(f, #[trigger] s.items(*h)[i])),
{
    let mut it = s;
    let ghost orig = it.items(*h);
    let ghost mut k: int = 0;
    loop
        invariant
            0 <= k <= orig.len(),
            it.items(*h) =~= orig.skip(k),
            forall|i: int| 0 <= i < k ==> h.pred_spec(f, #[trigger] orig[i]),
        decreases it.items(*h).len(),
    {
        match it.advance(h, obs) {
            None => {
                return true;
            },
            Some(x) => {
                proof {
                    assert(x == orig[k]);
                }
                if !h.call_pred(f, &x) {
                    return false;
                }
                proof {
                    k = k + 1;
                    assert(it.items(*h) =~= orig.skip(k));
                }
            },
        }
    }
}

/// Decide whether the caller predicate named by `f` accepts at least one
/// item, consuming the handle.  False on an empty sequence.
#[verifier::loop_isolation(false)]
pub fn iter_any<H: CallerFns, O: Observer>(s: RawIterator, f: u64, h: &H, obs: &mut O) -> (r: bool)
    ensures
        r == (exists|i: int|
            0 <= i < s.items(*h).len() && h.pred_spec(f, #[trigger] s.items(*h)[i])),
{
    let mut it = s;
    let ghost orig = it.items(*h);
    let ghost mut k: int = 0;
    loop
        invariant
            0 <= k <= orig.len(),
            it.items(*h) =~= orig.skip(k),
            forall|i: int| 0 <= i < k ==> !h.pred_spec(f, #[trigger] orig[i]),
        decreases it.items(*h).len(),
    {
        match it.advance(h, obs) {
            None => {
                return false;
            },
            Some(x) => {
                proof {
                    assert(x == orig[k]);
                }
                if h.call_pred(f, &x) {
                    return true;
                }
                proof {
                    k = k + 1;
                    assert(it.items(*h) =~= orig.skip(k));
                }
            },
        }
    }
}

/// Yield the first item the caller predicate named by `f` accepts, or
/// nothing when it declines them all, consuming the handle.
#[verifier::loop_isolation(false)]
pub fn iter_find<H: CallerFns, O: Observer>(s: RawIterator, f: u64, h: &H, obs: &mut O) -> (r:
    Option<Item>)
    ensures
        r == find_view(*h, f, s.items(*h)),
{
    let mut it = s;
    let ghost orig = it.items(*h);
    loop
        invariant
            find_view(*h, f, it.items(*h)) == find_view(*h, f, orig),
        decreases it.items(*h).len(),
    {
        match it.advance(h, obs) {
            None => {
                return None;
            },
            Some(x) => {
                if h.call_pred(f, &x) {
                    return Some(x);
                }
            },
        }
    }
}

/// Yield the first accepted answer of the caller partial function named
/// by `f`, or nothing when it declines every item, consuming the handle.
#[verifier::loop_isolation(false)]
pub fn iter_find_map<H: CallerFns, O: Observer>(s: RawIterator, f: u64, h: &H, obs: &mut O) -> (r:
    Option<Item>)
    ensures
        r == find_map_view(*h, f, s.items(*h)),
{
    let mut it = s;
    let ghost orig = it.items(*h);
    loop
        invariant
            find_map_view(*h, f, it.items(*h)) == find_map_view(*h, f, orig),
        decreases it.items(*h).len(),
    {
        match it.advance(h, obs) {
            None => {
                return None;
            },
            Some(x) => {
                match h.call_opt(f, x) {
                    Some(y) => {
                        return Some(y);
                    },
                    None => {},
                }
            },
        }
    }
}

/// Yield the position of the first item the caller predicate named by
/// `f` accepts, or nothing when it declines them all, consuming the
/// handle.
#[verifier::loop_isolation(false)]
pub fn iter_position<H: CallerFns, O: Observer>(s: RawIterator, f: u64, h: &H, obs: &mut O) -> (r:
    Option<usize>)
    requires
        s.items(*h).len() <= usize::MAX,
    ensures
        match r {
            Some(i) => position_view(*h, f, s.items(*h)) == Some(i as int),
            None => position_view(*h, f, s.items(*h)) is None,
        },
{
    let mut it = s;
    let ghost orig = it.items(*h);
    let mut i: usize = 0;
    loop
        invariant
            i + it.items(*h).len() == orig.len(),
            position_view(*h, f, orig) == (match position_view(*h, f, it.items(*h)) {
                Some(j) => Some(j + i),
                None => None::<int>,
            }),
        decreases it.items(*h).len(),
    {
        match it.advance(h, obs) {
            None => {
                return None;
            },
            Some(x) => {
                if h.call_pred(f, &x) {
                    return Some(i);
                }
                i = i + 1;
            },
        }
    }
}

/// Yield the maximum item in the natural order on opaque items, or
/// nothing when the sequence is empty, consuming the handle.  Among
/// equal maxima the latest one is yielded.
#[verifier::loop_isolation(false)]
pub fn iter_max<H: CallerFns, O: Observer>(s: RawIterator, h: &H, obs: &mut O) -> (r: Option<Item>)
    ensures
        match r {
            Some(m) => s.items(*h).len() > 0 && m == max_from(
                s.items(*h)[0],
                s.items(*h).drop_first(),
            ),
            None => s.items(*h).len() == 0,
        },
{
    let mut it = s;
    let ghost orig = it.items(*h);
    match it.advance(h, obs) {
        None => None,
        Some(first) => {
            let mut acc = first;
            loop
                invariant
                    max_from(acc, it.items(*h)) == max_from(orig[0], orig.drop_first()),
                decreases it.items(*h).len(),
            {
                match it.advance(h, obs) {
                    None => {
                        return Some(acc);
                    },
                    Some(x) => {
                        match crate::item::item_cmp(&x, &acc) {
                            Ordering::ORDERING_LESS => {},
                            _ => {
                                acc = x;
                            },
                        }
                    },
                }
            }
        },
    }
}

/// Yield the minimum item in the natural order on opaque items, or
/// nothing when the sequence is empty, consuming the handle.  Among
/// equal minima the earliest one is yielded.
#[verifier::loop_isolation(false)]
pub fn iter_min<H: CallerFns, O: Observer>(s: RawIterator, h: &H, obs: &mut O) -> (r: Option<Item>)
    ensures
        match r {
            Some(m) => s.items(*h).len() > 0 && m == min_from(
                s.items(*h)[0],
                s.items(*h).drop_first(),
            ),
            None => s.items(*h).len() == 0,
        },
{
    let mut it = s;
    let ghost orig = it.items(*h);
    match it.advance(h, obs) {
        None => None,
        Some(first) => {
            let mut acc = first;
            loop
                invariant
                    min_from(acc, it.items(*h)) == min_from(orig[0], orig.drop_first()),
                decreases it.items(*h).len(),
            {
                match it.advance(h, obs) {
                    None => {
                        return Some(acc);
                    },
                    Some(x) => {
                        match crate::item::item_cmp(&x, &acc) {
                            Ordering::ORDERING_LESS => {
                                acc = x;
                            },
                            _ => {},
                        }
                    },
                }
            }
        },
    }
}

/// Hand every item to the caller observation function named by `f`, in
/// order, draining the handle.  When no adapter inside the pipeline
/// observes with the same word, the observation log of `f` afterwards is
/// exactly the old log followed by every item the handle still held.
#[verifier::loop_isolation(false)]
pub fn iter_for_each<H: CallerFns, O: Observer>(s: &mut RawIterator, f: u64, h: &H, obs: &mut O)
    ensures
        final(s).items(*h).len() == 0,
        !old(s).notes_with(f) ==> final(obs).observed(f) == old(obs).observed(f) + old(s).items(
            *h,
        ),
{
    let ghost orig = s.items(*h);
    let ghost s0 = *s;
    let ghost ob0 = *obs;
    let ghost mut k: int = 0;
    loop
        invariant
            0 <= k <= orig.len(),
            s.items(*h) =~= orig.skip(k),
            forall|g: u64| #[trigger] s.notes_with(g) == s0.notes_with(g),
            !s0.notes_with(f) ==> obs.observed(f) =~= ob0.observed(f) + orig.take(k),
        decreases s.items(*h).len(),
    {
        match s.advance(h, obs) {
            None => {
                proof {
                    if !s0.notes_with(f) {
                        assert(orig.take(k) =~= orig);
                    }
                }
                return ;
            },
            Some(x) => {
                proof {
                    assert(x == orig[k]);
                }
                obs.observe(f, &x);
                proof {
                    k = k + 1;
                    assert(s.items(*h) =~= orig.skip(k));
                    if !s0.notes_with(f) {
                        assert(obs.observed(f) =~= ob0.observed(f) + orig.take(k));
                    }
                }
            },
        }
    }
}

/// A bound on how many items a handle may still yield: a guaranteed
/// lower bound, and an upper bound when one is known.
#[derive(Clone, Copy, Debug, PartialEq, Eq)]
pub struct SizeHint {
    /// At least this many items remain.
    pub lhs: usize,
    /// At most this many items remain, when an upper bound is known.
    pub rhs: Option<usize>,
}

fn usize_min(a: usize, b: usize) -> (r: usize)
    ensures
        r as int == if a < b {
            a as int
        } else {
            b as int
        },
{
    if a < b {
        a
    } else {
        b
    }
}

/// The hint `r` is sound for the handle `s`: whatever caller table
/// drives it, at least `lhs` and at most `rhs` items remain.
pub open spec fn hint_ok<H: CallerFns>(s: RawIterator, r: SizeHint) -> bool {
    forall|h: H| #![trigger s.items(h)]
        r.lhs as int <= s.items(h).len() && (match r.rhs {
            Some(u) => s.items(h).len() <= u as int,
            None => true,
        })
}

/// Bound the number of items the handle may still yield, without
/// consuming anything.  The lower bound never exceeds the true count and
/// the upper bound, when given, is never below it, whatever caller table
/// drives the pipeline.
pub fn iter_size_hint<H: CallerFns>(s: &RawIterator) -> (r: SizeHint)
    ensures
        hint_ok::<H>(*s, r),
    decreases s.height(),
{
    match &*s.obj.state {
        Adapter::Source { items } => {
            let r = SizeHint { lhs: items.len(), rhs: Some(items.len()) };
            proof {
                assert(hint_ok::<H>(*s, r));
            }
            return r;
        },
        Adapter::Chain { a, b } => {
            let ra = iter_size_hint::<H>(a);
            let rb = iter_size_hint::<H>(b);
            let lhs = if ra.lhs <= usize::MAX - rb.lhs {
                ra.lhs + rb.lhs
            } else {
                usize::MAX
            };
            let rhs = match (ra.rhs, rb.rhs) {
                (Some(x), Some(y)) => if x <= usize::MAX - y {
                    Some(x + y)
                } else {
                    None
                },
                _ => None,
            };
            let r = SizeHint { lhs, rhs };
            proof {
                assert forall|h: H| #![trigger s.items(h)]
                    r.lhs as int <= s.items(h).len() && (match r.rhs {
                        Some(u) => s.items(h).len() <= u as int,
                        None => true,
                    }) by {
                    assert(s.items(h) == a.items(h) + b.items(h));
                }
                assert(hint_ok::<H>(*s, r));
            }
            return r;
        },
        Adapter::Mapped { inner, f } => {
            let r = iter_size_hint::<H>(inner);
            proof {
                assert forall|h: H| #![trigger s.items(h)]
                    r.lhs as int <= s.items(h).len() && (match r.rhs {
                        Some(u) => s.items(h).len() <= u as int,
                        None => true,
                    }) by {
                    assert(s.items(h) == crate::thin::map_view(h, *f, inner.items(h)));
                    assert(s.items(h).len() == inner.items(h).len());
                }
                assert(hint_ok::<H>(*s, r));
            }
            return r;
        },
        Adapter::Filter { inner, f } => {
            let ri = iter_size_hint::<H>(inner);
            let r = SizeHint { lhs: 0, rhs: ri.rhs };
            proof {
                assert forall|h: H| #[trigger] s.items(h).len() <= inner.items(h).len() by {
                    crate::thin::lemma_filter_view_len(h, *f, inner.items(h));
                }
                assert(hint_ok::<H>(*s, r));
            }
            return r;
        },
        Adapter::FilterMap { inner, f } => {
            let ri = iter_size_hint::<H>(inner);
            let r = SizeHint { lhs: 0, rhs: ri.rhs };
            proof {
                assert forall|h: H| #[trigger] s.items(h).len() <= inner.items(h).len() by {
                    crate::thin::lemma_filter_map_view_len(h, *f, inner.items(h));
                }
                assert(hint_ok::<H>(*s, r));
            }
            return r;
        },
        Adapter::TakeWhile { inner, f, done } => {
            if *done {
                let r = SizeHint { lhs: 0, rhs: Some(0) };
                proof {
                    assert(hint_ok::<H>(*s, r));
                }
                return r;
            }
            let ri = iter_size_hint::<H>(inner);
            let r = SizeHint { lhs: 0, rhs: ri.rhs };
            proof {
                assert forall|h: H| #[trigger] s.items(h).len() <= inner.items(h).len() by {
                    crate::thin::lemma_take_while_view_len(h, *f, inner.items(h));
                }
                assert(hint_ok::<H>(*s, r));
            }
            return r;
        },
        Adapter::MapWhile { inner, f, done } => {
            if *done {
                let r = SizeHint { lhs: 0, rhs: Some(0) };
                proof {
                    assert(hint_ok::<H>(*s, r));
                }
                return r;
            }
            let ri = iter_size_hint::<H>(inner);
            let r = SizeHint { lhs: 0, rhs: ri.rhs };
            proof {
                assert forall|h: H| #[trigger] s.items(h).len() <= inner.items(h).len() by {
                    crate::thin::lemma_map_while_view_len(h, *f, inner.items(h));
                }
                assert(hint_ok::<H>(*s, r));
            }
            return r;
        },
        Adapter::SkipWhile { inner, f, done } => {
            if *done {
                let r = iter_size_hint::<H>(inner);
                proof {
                    assert forall|h: H| #![trigger s.items(h)]
                    r.lhs as int <= s.items(h).len() && (match r.rhs {
                        Some(u) => s.items(h).len() <= u as int,
                        None => true,
                    }) by {
                    assert(s.items(h) == inner.items(h));
                }
                assert(hint_ok::<H>(*s, r));
                }
                return r;
            }
            let ri = iter_size_hint::<H>(inner);
            let r = SizeHint { lhs: 0, rhs: ri.rhs };
            proof {
                assert forall|h: H| #[trigger] s.items(h).len() <= inner.items(h).len() by {
                    crate::thin::lemma_skip_while_view_len(h, *f, inner.items(h));
                }
                assert(hint_ok::<H>(*s, r));
            }
            return r;
        },
        Adapter::Scan { inner, f, state, done } => {
            if *done {
                let r = SizeHint { lhs: 0, rhs: Some(0) };
                proof {
                    assert(hint_ok::<H>(*s, r));
                }
                return r;
            }
            let ri = iter_size_hint::<H>(inner);
            let r = SizeHint { lhs: 0, rhs: ri.rhs };
            proof {
                assert forall|h: H| #[trigger] s.items(h).len() <= inner.items(h).len() by {
                    crate::thin::lemma_scan_view_len(h, *f, *state, inner.items(h));
                }
                assert(hint_ok::<H>(*s, r));
            }
            return r;
        },
        Adapter::Zip { a, b } => {
            let ra = iter_size_hint::<H>(a);
            let rb = iter_size_hint::<H>(b);
            proof {
                assert forall|h: H| #[trigger] s.items(h).len() == (if a.items(h).len() < b.items(
                    h,
                ).len() {
                    a.items(h).len()
                } else {
                    b.items(h).len()
                }) by {
                    crate::thin::lemma_zip_view_len(a.items(h), b.items(h));
                }
            }
            let lhs = usize_min(ra.lhs, rb.lhs);
            let rhs = match (ra.rhs, rb.rhs) {
                (Some(x), Some(y)) => Some(usize_min(x, y)),
                (Some(x), None) => Some(x),
                (None, Some(y)) => Some(y),
                (None, None) => None,
            };
            let r = SizeHint { lhs, rhs };
            proof {
                assert(hint_ok::<H>(*s, r));
            }
            return r;
        },
        Adapter::Enumerate { inner, idx } => {
            let r = iter_size_hint::<H>(inner);
            proof {
                assert forall|h: H| #[trigger] s.items(h).len() == inner.items(h).len() by {
                    crate::thin::lemma_enumerate_view_len(*idx, inner.items(h));
                }
                assert(hint_ok::<H>(*s, r));
            }
            return r;
        },
        Adapter::Skip { inner, n } => {
            let ri = iter_size_hint::<H>(inner);
            let lhs = if ri.lhs >= *n {
                ri.lhs - *n
            } else {
                0
            };
            let rhs = match ri.rhs {
                Some(u) => if u >= *n {
                    Some(u - *n)
                } else {
                    Some(0)
                },
                None => None,
            };
            let r = SizeHint { lhs, rhs };
            proof {
                assert forall|h: H| #![trigger s.items(h)]
                    r.lhs as int <= s.items(h).len() && (match r.rhs {
                        Some(u) => s.items(h).len() <= u as int,
                        None => true,
                    }) by {
                    assert(s.items(h) == crate::thin::skip_up_to(inner.items(h), *n as int));
                }
                assert(hint_ok::<H>(*s, r));
            }
            return r;
        },
        Adapter::Take { inner, n } => {
            let ri = iter_size_hint::<H>(inner);
            let lhs = usize_min(ri.lhs, *n);
            let rhs = match ri.rhs {
                Some(u) => Some(usize_min(u, *n)),
                None => Some(*n),
            };
            let r = SizeHint { lhs, rhs };
            proof {
                assert forall|h: H| #![trigger s.items(h)]
                    r.lhs as int <= s.items(h).len() && (match r.rhs {
                        Some(u) => s.items(h).len() <= u as int,
                        None => true,
                    }) by {
                    assert(s.items(h) == crate::thin::take_up_to(inner.items(h), *n as int));
                }
                assert(hint_ok::<H>(*s, r));
            }
            return r;
        },
        Adapter::StepBy { inner, step } => {
            if *step <= 1 {
                let r = iter_size_hint::<H>(inner);
                proof {
                    assert forall|h: H| #![trigger s.items(h)]
                    r.lhs as int <= s.items(h).len() && (match r.rhs {
                        Some(u) => s.items(h).len() <= u as int,
                        None => true,
                    }) by {
                    assert(s.items(h) == crate::thin::step_view(inner.items(h), *step));
                    assert(s.items(h) == inner.items(h));
                }
                assert(hint_ok::<H>(*s, r));
                }
                return r;
            }
            let ri = iter_size_hint::<H>(inner);
            let r = SizeHint { lhs: 0, rhs: ri.rhs };
            proof {
                assert forall|h: H| #[trigger] s.items(h).len() <= inner.items(h).len() by {
                    crate::thin::lemma_step_view_len(inner.items(h), *step);
                }
                assert(hint_ok::<H>(*s, r));
            }
            return r;
        },
        Adapter::Fuse { inner } => {
            let r = iter_size_hint::<H>(inner);
            proof {
                assert forall|h: H| #![trigger s.items(h)]
                    r.lhs as int <= s.items(h).len() && (match r.rhs {
                        Some(u) => s.items(h).len() <= u as int,
                        None => true,
                    }) by {
                    assert(s.items(h) == inner.items(h));
                }
                assert(hint_ok::<H>(*s, r));
            }
            return r;
        },
        Adapter::Peekable { inner } => {
            let r = iter_size_hint::<H>(inner);
            proof {
                assert forall|h: H| #![trigger s.items(h)]
                    r.lhs as int <= s.items(h).len() && (match r.rhs {
                        Some(u) => s.items(h).len() <= u as int,
                        None => true,
                    }) by {
                    assert(s.items(h) == inner.items(h));
                }
                assert(hint_ok::<H>(*s, r));
            }
            return r;
        },
        Adapter::Inspect { inner, f } => {
            let r = iter_size_hint::<H>(inner);
            proof {
                assert forall|h: H| #![trigger s.items(h)]
                    r.lhs as int <= s.items(h).len() && (match r.rhs {
                        Some(u) => s.items(h).len() <= u as int,
                        None => true,
                    }) by {
                    assert(s.items(h) == inner.items(h));
                }
                assert(hint_ok::<H>(*s, r));
            }
            return r;
        },
        Adapter::Rewrap { inner } => {
            let r = iter_size_hint::<H>(inner);
            proof {
                assert forall|h: H| #![trigger s.items(h)]
                    r.lhs as int <= s.items(h).len() && (match r.rhs {
                        Some(u) => s.items(h).len() <= u as int,
                        None => true,
                    }) by {
                    assert(s.items(h) == inner.items(h));
                }
                assert(hint_ok::<H>(*s, r));
            }
            return r;
        },
        Adapter::FlatMap { inner, f, buf } => {
            let r = SizeHint { lhs: buf.len(), rhs: None };
            proof {
                assert forall|h: H| #![trigger s.items(h)]
                    r.lhs as int <= s.items(h).len() && (match r.rhs {
                        Some(u) => s.items(h).len() <= u as int,
                        None => true,
                    }) by {
                    assert(s.items(h) == buf@.reverse() + crate::thin::flat_map_view(h, *f, inner.items(h)));
                }
                assert(hint_ok::<H>(*s, r));
            }
            return r;
        },
    }
}

/// Three-way comparison result crossing the stable boundary.
#[derive(Clone, Copy, PartialEq, Eq, Structural, Debug)]
#[allow(non_camel_case_types)]
pub enum Ordering {
    ORDERING_LESS,
    ORDERING_EQUAL,
    ORDERING_GREATER,
}

/// Standard lexicographic comparison of two sequences of opaque items:
/// corresponding items are compared in order, the first difference
/// decides, and when one sequence is a strict prefix of the other the
/// shorter one is the lesser.
pub open spec fn lex_cmp(a: Seq<Item>, b: Seq<Item>) -> Ordering
    decreases a.len(),
{
    if a.len() == 0 && b.len() == 0 {
        Ordering::ORDERING_EQUAL
    } else if a.len() == 0 {
        Ordering::ORDERING_LESS
    } else if b.len() == 0 {
        Ordering::ORDERING_GREATER
    } else if crate::item::spec_item_cmp(a[0], b[0]) == Ordering::ORDERING_EQUAL {
        lex_cmp(a.drop_first(), b.drop_first())
    } else {
        crate::item::spec_item_cmp(a[0], b[0])
    }
}

/// Two sequences compare equal exactly when they are the same sequence.
pub proof fn lemma_lex_cmp_equal(a: Seq<Item>, b: Seq<Item>)
    ensures
        (lex_cmp(a, b) == Ordering::ORDERING_EQUAL) <==> a == b,
    decreases a.len(),
{
    if a.len() == 0 && b.len() == 0 {
        assert(a =~= b);
    } else if a.len() > 0 && b.len() > 0 {
        crate::item::lemma_item_cmp_equal(a[0], b[0]);
        lemma_lex_cmp_equal(a.drop_first(), b.drop_first());
        if a[0] == b[0] && a.drop_first() == b.drop_first() {
            assert forall|i: int| 0 <= i < a.len() implies a[i] == b[i] by {
                if i > 0 {
                    assert(a[i] == a.drop_first()[i - 1]);
                    assert(b[i] == b.drop_first()[i - 1]);
                }
            }
            assert(a =~= b);
        }
        if a == b {
            assert(a.drop_first() =~= b.drop_first());
        }
    }
}

/// Extending a sequence moves it later in the lexicographic order: a
/// sequence compares equal to itself, and strictly before itself with
/// anything appended, so a shorter sequence with an equal prefix is
/// always the lesser one.
pub proof fn lemma_lex_cmp_prefix(a: Seq<Item>, c: Seq<Item>)
    ensures
        lex_cmp(a, a + c) == (if c.len() == 0 {
            Ordering::ORDERING_EQUAL
        } else {
            Ordering::ORDERING_LESS
        }),
    decreases a.len(),
{
    if a.len() == 0 {
        assert(a + c =~= c);
    } else {
        crate::item::lemma_item_cmp_equal(a[0], (a + c)[0]);
        assert((a + c).drop_first() =~= a.drop_first() + c);
        lemma_lex_cmp_prefix(a.drop_first(), c);
    }
}

/// Compare two sequences lexicographically, consuming both handles.
#[verifier::loop_isolation(false)]
pub fn iter_cmp<H: CallerFns, O: Observer>(s: RawIterator, other: RawIterator, h: &H, obs: &mut O) -> (r: Ordering)
    ensures
        r == lex_cmp(s.items(*h), other.items(*h)),
{
    let mut a = s;
    let mut b = other;
    let ghost origa = a.items(*h);
    let ghost origb = b.items(*h);
    loop
        invariant
            lex_cmp(a.items(*h), b.items(*h)) == lex_cmp(origa, origb),
        decreases a.items(*h).len(),
    {
        match (a.advance(h, obs), b.advance(h, obs)) {
            (None, None) => {
                return Ordering::ORDERING_EQUAL;
            },
            (None, Some(_discard)) => {
                return Ordering::ORDERING_LESS;
            },
            (Some(_discard), None) => {
                return Ordering::ORDERING_GREATER;
            },
            (Some(x), Some(y)) => {
                match crate::item::item_cmp(&x, &y) {
                    Ordering::ORDERING_EQUAL => {},
                    o => {
                        return o;
                    },
                }
            },
        }
    }
}

/// Compare two sequences lexicographically; the natural order on opaque
/// items is total, so an answer always exists.  Both handles are
/// consumed.
pub fn iter_partial_cmp<H: CallerFns, O: Observer>(s: RawIterator, other: RawIterator, h: &H, obs: &mut O) -> (r: Option<
    Ordering,
>)
    ensures
        r == Some(lex_cmp(s.items(*h), other.items(*h))),
{
    Some(iter_cmp(s, other, h, obs))
}

/// Decide whether two sequences yield exactly the same items, consuming
/// both handles.
pub fn iter_eq<H: CallerFns, O: Observer>(s: RawIterator, other: RawIterator, h: &H, obs: &mut O) -> (r: bool)
    ensures
        r == (s.items(*h) == other.items(*h)),
{
    let ghost origa = s.items(*h);
    let ghost origb = other.items(*h);
    let c = iter_cmp(s, other, h, obs);
    proof {
        lemma_lex_cmp_equal(origa, origb);
    }
    c == Ordering::ORDERING_EQUAL
}

/// Decide whether two sequences differ anywhere, consuming both handles.
pub fn iter_ne<H: CallerFns, O: Observer>(s: RawIterator, other: RawIterator, h: &H, obs: &mut O) -> (r: bool)
    ensures
        r == (s.items(*h) != other.items(*h)),
{
    !iter_eq(s, other, h, obs)
}

/// Decide whether `s` is lexicographically before `other`, consuming
/// both handles.
pub fn iter_lt<H: CallerFns, O: Observer>(s: RawIterator, other: RawIterator, h: &H, obs: &mut O) -> (r: bool)
    ensures
        r == (lex_cmp(s.items(*h), other.items(*h)) == Ordering::ORDERING_LESS),
{
    let c = iter_cmp(s, other, h, obs);
    c == Ordering::ORDERING_LESS
}

/// Decide whether `s` is lexicographically before `other` or the same,
/// consuming both handles.
pub fn iter_le<H: CallerFns, O: Observer>(s: RawIterator, other: RawIterator, h: &H, obs: &mut O) -> (r: bool)
    ensures
        r == (lex_cmp(s.items(*h), other.items(*h)) != Ordering::ORDERING_GREATER),
{
    let c = iter_cmp(s, other, h, obs);
    !(c == Ordering::ORDERING_GREATER)
}

/// Decide whether `s` is lexicographically after `other`, consuming
/// both handles.
pub fn iter_gt<H: CallerFns, O: Observer>(s: RawIterator, other: RawIterator, h: &H, obs: &mut O) -> (r: bool)
    ensures
        r == (lex_cmp(s.items(*h), other.items(*h)) == Ordering::ORDERING_GREATER),
{
    let c = iter_cmp(s, other, h, obs);
    c == Ordering::ORDERING_GREATER
}

/// Decide whether `s` is lexicographically after `other` or the same,
/// consuming both handles.
pub fn iter_ge<H: CallerFns, O: Observer>(s: RawIterator, other: RawIterator, h: &H, obs: &mut O) -> (r: bool)
    ensures
        r == (lex_cmp(s.items(*h), other.items(*h)) != Ordering::ORDERING_LESS),
{
    let c = iter_cmp(s, other, h, obs);
    !(c == Ordering::ORDERING_LESS)
}

impl Ordering {
    /// Translate the standard library's ordering into the boundary's own.
    pub fn from_std(o: std::cmp::Ordering) -> (r: Ordering)
        ensures
            r == (match o {
                std::cmp::Ordering::Less => Ordering::ORDERING_LESS,
                std::cmp::Ordering::Equal => Ordering::ORDERING_EQUAL,
                std::cmp::Ordering::Greater => Ordering::ORDERING_GREATER,
            }),
    {
        match o {
            std::cmp::Ordering::Less => Ordering::ORDERING_LESS,
            std::cmp::Ordering::Equal => Ordering::ORDERING_EQUAL,
            std::cmp::Ordering::Greater => Ordering::ORDERING_GREATER,
        }
    }
}

} // verus!
