use vstd::prelude::*;
use crate::hooks::{CallerFns, Observer};
use crate::item::Item;
use crate::iter::RawIterator;

verus! {

/// The closed set of concrete adapter shapes.  Each variant stores exactly
/// the state the corresponding statically-typed combinator would store:
/// the wrapped erased sequence(s) plus any caller function words.
pub enum Adapter {
    /// A terminal source: the remaining items, kept in reverse so the next
    /// item can be popped off the end.
    Source { items: Vec<Item> },
    /// Concatenation of two sequences.
    Chain { a: RawIterator, b: RawIterator },
    /// Apply a caller mapping function to every item.
    Mapped { inner: RawIterator, f: u64 },
    /// Keep only the items a caller predicate accepts.
    Filter { inner: RawIterator, f: u64 },
    /// Apply a caller partial function, skipping the items it declines;
    /// a declined item does not end the sequence.
    FilterMap { inner: RawIterator, f: u64 },
    /// Yield items while a caller predicate accepts them, then stop for
    /// good; `done` records that the stop was reached.
    TakeWhile { inner: RawIterator, f: u64, done: bool },
    /// Apply a caller partial function until its first declined item,
    /// which ends the whole sequence; `done` records that end.
    MapWhile { inner: RawIterator, f: u64, done: bool },
    /// Drop items while a caller predicate accepts them, then yield the
    /// rest unfiltered; `done` records that the dropping phase is over.
    SkipWhile { inner: RawIterator, f: u64, done: bool },
    /// Thread an opaque state through a caller function; a declined item
    /// ends the sequence.  The bridge never rewrites the state word
    /// itself; the caller owns whatever it stands for.
    Scan { inner: RawIterator, f: u64, state: Item, done: bool },
    /// Pair up two sequences; the shorter operand bounds the result.
    Zip { a: RawIterator, b: RawIterator },
    /// Attach a running position to every item.  The position saturates
    /// at the largest machine word rather than wrap.
    Enumerate { inner: RawIterator, idx: usize },
    /// Drop the first `n` items; `n` counts down as they are dropped.
    Skip { inner: RawIterator, n: usize },
    /// Yield at most `n` items; `n` counts down as they are yielded.
    Take { inner: RawIterator, n: usize },
    /// Yield every `step`-th item, starting with the first.
    StepBy { inner: RawIterator, step: usize },
    /// Plain delegation; every adapter of this bridge already reports
    /// exhaustion permanently, so fusing changes nothing and only keeps
    /// the combinator surface complete.
    Fuse { inner: RawIterator },
    /// Plain delegation; no peeking operation crosses the boundary, so
    /// the adapter only keeps the combinator surface complete.
    Peekable { inner: RawIterator },
    /// Hand every item to a caller function for observation, then yield
    /// it unchanged.
    Inspect { inner: RawIterator, f: u64 },
    /// Re-wrap an already-erased sequence into a fresh handle.
    Rewrap { inner: RawIterator },
    /// Replace every item by a caller-supplied expansion, splicing the
    /// expansions together.  The pending expansion is buffered in
    /// reverse so its next item can be popped off the end.
    FlatMap { inner: RawIterator, f: u64, buf: Vec<Item> },
}

/// The thin dynamic object: one heap allocation holding a concrete
/// adapter, driven through the uniform `next` operation alone.
pub struct BoxedThinIterator {
    pub state: Box<Adapter>,
}

impl BoxedThinIterator {
    /// Box a concrete adapter into a thin dynamic object.
    pub fn new(state: Adapter) -> (r: BoxedThinIterator)
        ensures
            r.adapter() == state,
    {
        BoxedThinIterator { state: Box::new(state) }
    }

    /// The concrete adapter behind the object.
    pub open spec fn adapter(self) -> Adapter {
        *self.state
    }
}

/// Structural height of a handle; the termination measure for stepping a
/// pipeline, unchanged by every `next`.
impl RawIterator {
    pub open spec fn height(self) -> nat
        decreases self,
    {
        1 + self.obj.height()
    }

    /// The mathematical sequence of items this handle will yield when
    /// driven with the caller table `h`.
    pub open spec fn items<H: CallerFns>(self, h: H) -> Seq<Item>
        decreases self,
    {
        self.obj.items(h)
    }
}

impl BoxedThinIterator {
    pub open spec fn height(self) -> nat
        decreases self,
    {
        1 + self.adapter().height()
    }

    pub open spec fn items<H: CallerFns>(self, h: H) -> Seq<Item>
        decreases self,
    {
        self.adapter().items(h)
    }
}

impl Adapter {
    pub open spec fn height(self) -> nat
        decreases self,
    {
        match self {
            Adapter::Source { items } => 0,
            Adapter::Chain { a, b } => 1 + if a.height() > b.height() {
                a.height()
            } else {
                b.height()
            },
            Adapter::Mapped { inner, f } => 1 + inner.height(),
            Adapter::Filter { inner, f } => 1 + inner.height(),
            Adapter::FilterMap { inner, f } => 1 + inner.height(),
            Adapter::TakeWhile { inner, f, done } => 1 + inner.height(),
            Adapter::MapWhile { inner, f, done } => 1 + inner.height(),
            Adapter::SkipWhile { inner, f, done } => 1 + inner.height(),
            Adapter::Scan { inner, f, state, done } => 1 + inner.height(),
            Adapter::Zip { a, b } => 1 + if a.height() > b.height() {
                a.height()
            } else {
                b.height()
            },
            Adapter::Enumerate { inner, idx } => 1 + inner.height(),
            Adapter::Skip { inner, n } => 1 + inner.height(),
            Adapter::Take { inner, n } => 1 + inner.height(),
            Adapter::StepBy { inner, step } => 1 + inner.height(),
            Adapter::Fuse { inner } => 1 + inner.height(),
            Adapter::Peekable { inner } => 1 + inner.height(),
            Adapter::Inspect { inner, f } => 1 + inner.height(),
            Adapter::Rewrap { inner } => 1 + inner.height(),
            Adapter::FlatMap { inner, f, buf } => 1 + inner.height(),
        }
    }

    pub open spec fn items<H: CallerFns>(self, h: H) -> Seq<Item>
        decreases self,
    {
        match self {
            Adapter::Source { items } => items@.reverse(),
            Adapter::Chain { a, b } => a.items(h) + b.items(h),
            Adapter::Mapped { inner, f } => map_view(h, f, inner.items(h)),
            Adapter::Filter { inner, f } => filter_view(h, f, inner.items(h)),
            Adapter::FilterMap { inner, f } => filter_map_view(h, f, inner.items(h)),
            Adapter::TakeWhile { inner, f, done } => if done {
                Seq::empty()
            } else {
                take_while_view(h, f, inner.items(h))
            },
            Adapter::MapWhile { inner, f, done } => if done {
                Seq::empty()
            } else {
                map_while_view(h, f, inner.items(h))
            },
            Adapter::SkipWhile { inner, f, done } => if done {
                inner.items(h)
            } else {
                skip_while_view(h, f, inner.items(h))
            },
            Adapter::Scan { inner, f, state, done } => if done {
                Seq::empty()
            } else {
                scan_view(h, f, state, inner.items(h))
            },
            Adapter::Zip { a, b } => zip_view(a.items(h), b.items(h)),
            Adapter::Enumerate { inner, idx } => enumerate_view(idx, inner.items(h)),
            Adapter::Skip { inner, n } => skip_up_to(inner.items(h), n as int),
            Adapter::Take { inner, n } => take_up_to(inner.items(h), n as int),
            Adapter::StepBy { inner, step } => step_view(inner.items(h), step),
            Adapter::Fuse { inner } => inner.items(h),
            Adapter::Peekable { inner } => inner.items(h),
            Adapter::Inspect { inner, f } => inner.items(h),
            Adapter::Rewrap { inner } => inner.items(h),
            Adapter::FlatMap { inner, f, buf } => buf@.reverse() + flat_map_view(
                h,
                f,
                inner.items(h),
            ),
        }
    }
}

impl RawIterator {
    /// Whether any adapter in this pipeline hands items to the
    /// observation function named `g`.
    pub open spec fn notes_with(self, g: u64) -> bool
        decreases self,
    {
        self.obj.notes_with(g)
    }

    /// The observation word of this handle's outermost adapter, when that
    /// adapter observes items and nothing beneath it shares its word; the
    /// per-step observation law of `advance` speaks of exactly this case.
    pub open spec fn inspect_obs(self) -> Option<u64> {
        match self.obj.adapter() {
            Adapter::Inspect { inner, f } => if inner.notes_with(f) {
                None
            } else {
                Some(f)
            },
            _ => None,
        }
    }
}

impl BoxedThinIterator {
    pub open spec fn notes_with(self, g: u64) -> bool
        decreases self,
    {
        self.adapter().notes_with(g)
    }
}

impl Adapter {
    pub open spec fn notes_with(self, g: u64) -> bool
        decreases self,
    {
        match self {
            Adapter::Source { items } => false,
            Adapter::Chain { a, b } => a.notes_with(g) || b.notes_with(g),
            Adapter::Mapped { inner, f } => inner.notes_with(g),
            Adapter::Filter { inner, f } => inner.notes_with(g),
            Adapter::FilterMap { inner, f } => inner.notes_with(g),
            Adapter::TakeWhile { inner, f, done } => inner.notes_with(g),
            Adapter::MapWhile { inner, f, done } => inner.notes_with(g),
            Adapter::SkipWhile { inner, f, done } => inner.notes_with(g),
            Adapter::Scan { inner, f, state, done } => inner.notes_with(g),
            Adapter::Zip { a, b } => a.notes_with(g) || b.notes_with(g),
            Adapter::Enumerate { inner, idx } => inner.notes_with(g),
            Adapter::Skip { inner, n } => inner.notes_with(g),
            Adapter::Take { inner, n } => inner.notes_with(g),
            Adapter::StepBy { inner, step } => inner.notes_with(g),
            Adapter::Fuse { inner } => inner.notes_with(g),
            Adapter::Peekable { inner } => inner.notes_with(g),
            Adapter::Inspect { inner, f } => f == g || inner.notes_with(g),
            Adapter::Rewrap { inner } => inner.notes_with(g),
            Adapter::FlatMap { inner, f, buf } => inner.notes_with(g),
        }
    }
}

/// The sequence a mapping adapter yields: every item replaced by the
/// caller function's answer.
pub open spec fn map_view<H: CallerFns>(h: H, f: u64, s: Seq<Item>) -> Seq<Item> {
    s.map_values(|x: Item| h.map_spec(f, x))
}

/// The sequence a filtering adapter yields: the items the caller
/// predicate accepts, in their original order.
pub open spec fn filter_view<H: CallerFns>(h: H, f: u64, s: Seq<Item>) -> Seq<Item>
    decreases s.len(),
{
    if s.len() == 0 {
        Seq::empty()
    } else if h.pred_spec(f, s[0]) {
        seq![s[0]] + filter_view(h, f, s.drop_first())
    } else {
        filter_view(h, f, s.drop_first())
    }
}

/// The sequence a filter-map adapter yields: the caller function's
/// answers for the items it accepts; a declined item is skipped and the
/// rest of the sequence still follows.
pub open spec fn filter_map_view<H: CallerFns>(h: H, f: u64, s: Seq<Item>) -> Seq<Item>
    decreases s.len(),
{
    if s.len() == 0 {
        Seq::empty()
    } else {
        match h.opt_spec(f, s[0]) {
            Some(y) => seq![y] + filter_map_view(h, f, s.drop_first()),
            None => filter_map_view(h, f, s.drop_first()),
        }
    }
}

/// The longest prefix the caller predicate accepts.
pub open spec fn take_while_view<H: CallerFns>(h: H, f: u64, s: Seq<Item>) -> Seq<Item>
    decreases s.len(),
{
    if s.len() == 0 {
        Seq::empty()
    } else if h.pred_spec(f, s[0]) {
        seq![s[0]] + take_while_view(h, f, s.drop_first())
    } else {
        Seq::empty()
    }
}

/// The caller function's answers up to but not including its first
/// declined item, which ends the whole sequence.
pub open spec fn map_while_view<H: CallerFns>(h: H, f: u64, s: Seq<Item>) -> Seq<Item>
    decreases s.len(),
{
    if s.len() == 0 {
        Seq::empty()
    } else {
        match h.opt_spec(f, s[0]) {
            Some(y) => seq![y] + map_while_view(h, f, s.drop_first()),
            None => Seq::empty(),
        }
    }
}

/// Everything after the longest prefix the caller predicate accepts.
pub open spec fn skip_while_view<H: CallerFns>(h: H, f: u64, s: Seq<Item>) -> Seq<Item>
    decreases s.len(),
{
    if s.len() == 0 {
        Seq::empty()
    } else if h.pred_spec(f, s[0]) {
        skip_while_view(h, f, s.drop_first())
    } else {
        s
    }
}

/// The pairs a zip adapter yields: corresponding items of the two
/// operands, stopping with the shorter one.
pub open spec fn zip_view(a: Seq<Item>, b: Seq<Item>) -> Seq<Item>
    decreases a.len(),
{
    if a.len() == 0 || b.len() == 0 {
        Seq::empty()
    } else {
        seq![Item::Pair(Box::new(a[0]), Box::new(b[0]))] + zip_view(
            a.drop_first(),
            b.drop_first(),
        )
    }
}

/// The next position an enumerating adapter will hand out after `i`;
/// it saturates at the largest machine word.
pub open spec fn sat_inc(i: usize) -> usize {
    if i == usize::MAX {
        i
    } else {
        (i + 1) as usize
    }
}

/// The counted items an enumerating adapter yields, starting at
/// position `i`.
pub open spec fn enumerate_view(i: usize, s: Seq<Item>) -> Seq<Item>
    decreases s.len(),
{
    if s.len() == 0 {
        Seq::empty()
    } else {
        seq![Item::Indexed(i, Box::new(s[0]))] + enumerate_view(sat_inc(i), s.drop_first())
    }
}

/// The sequence after dropping its first `n` items, or nothing when
/// fewer than `n` remain.
pub open spec fn skip_up_to(s: Seq<Item>, n: int) -> Seq<Item> {
    if n <= s.len() {
        s.skip(n)
    } else {
        Seq::empty()
    }
}

/// The first `n` items of the sequence, or all of it when fewer than
/// `n` remain.
pub open spec fn take_up_to(s: Seq<Item>, n: int) -> Seq<Item> {
    if n <= s.len() {
        s.take(n)
    } else {
        s
    }
}

/// Every `step`-th item of the sequence, starting with the first.  A
/// step below two keeps every item.
pub open spec fn step_view(s: Seq<Item>, step: usize) -> Seq<Item>
    decreases s.len(),
{
    if step <= 1 {
        s
    } else if s.len() == 0 {
        Seq::empty()
    } else if s.len() <= step {
        seq![s[0]]
    } else {
        seq![s[0]] + step_view(s.skip(step as int), step)
    }
}

/// The splice of the caller-supplied expansions of every item.
pub open spec fn flat_map_view<H: CallerFns>(h: H, f: u64, s: Seq<Item>) -> Seq<Item>
    decreases s.len(),
{
    if s.len() == 0 {
        Seq::empty()
    } else {
        h.seq_spec(f, s[0]) + flat_map_view(h, f, s.drop_first())
    }
}

/// The answers of the stateful caller function, stopping at its first
/// declined item.  The state word itself is never rewritten by the
/// bridge, so it is the same for every call.
pub open spec fn scan_view<H: CallerFns>(h: H, f: u64, st: Item, s: Seq<Item>) -> Seq<Item>
    decreases s.len(),
{
    if s.len() == 0 {
        Seq::empty()
    } else {
        match h.scan_spec(f, st, s[0]) {
            Some(y) => seq![y] + scan_view(h, f, st, s.drop_first()),
            None => Seq::empty(),
        }
    }
}

/// Filtering never yields more items than it was given.
pub proof fn lemma_filter_view_len<H: CallerFns>(h: H, f: u64, s: Seq<Item>)
    ensures
        filter_view(h, f, s).len() <= s.len(),
    decreases s.len(),
{
    if s.len() > 0 {
        lemma_filter_view_len(h, f, s.drop_first());
    }
}

/// A filter-map never yields more items than it was given.
pub proof fn lemma_filter_map_view_len<H: CallerFns>(h: H, f: u64, s: Seq<Item>)
    ensures
        filter_map_view(h, f, s).len() <= s.len(),
    decreases s.len(),
{
    if s.len() > 0 {
        lemma_filter_map_view_len(h, f, s.drop_first());
    }
}

/// An accepted prefix is never longer than the whole sequence.
pub proof fn lemma_take_while_view_len<H: CallerFns>(h: H, f: u64, s: Seq<Item>)
    ensures
        take_while_view(h, f, s).len() <= s.len(),
    decreases s.len(),
{
    if s.len() > 0 {
        lemma_take_while_view_len(h, f, s.drop_first());
    }
}

/// A map-while never yields more items than it was given.
pub proof fn lemma_map_while_view_len<H: CallerFns>(h: H, f: u64, s: Seq<Item>)
    ensures
        map_while_view(h, f, s).len() <= s.len(),
    decreases s.len(),
{
    if s.len() > 0 {
        lemma_map_while_view_len(h, f, s.drop_first());
    }
}

/// A scan never yields more items than it was given.
pub proof fn lemma_scan_view_len<H: CallerFns>(h: H, f: u64, st: Item, s: Seq<Item>)
    ensures
        scan_view(h, f, st, s).len() <= s.len(),
    decreases s.len(),
{
    if s.len() > 0 {
        lemma_scan_view_len(h, f, st, s.drop_first());
    }
}

/// What is left after a skipped prefix is never longer than the whole
/// sequence.
pub proof fn lemma_skip_while_view_len<H: CallerFns>(h: H, f: u64, s: Seq<Item>)
    ensures
        skip_while_view(h, f, s).len() <= s.len(),
    decreases s.len(),
{
    if s.len() > 0 {
        lemma_skip_while_view_len(h, f, s.drop_first());
    }
}

/// Stepping through a sequence never yields more items than it holds.
pub proof fn lemma_step_view_len(s: Seq<Item>, step: usize)
    ensures
        step_view(s, step).len() <= s.len(),
    decreases s.len(),
{
    if step > 1 && s.len() > step {
        lemma_step_view_len(s.skip(step as int), step);
    }
}

/// A zip yields exactly as many pairs as the shorter operand has items.
pub proof fn lemma_zip_view_len(a: Seq<Item>, b: Seq<Item>)
    ensures
        zip_view(a, b).len() == if a.len() < b.len() {
            a.len()
        } else {
            b.len()
        },
    decreases a.len(),
{
    if a.len() > 0 && b.len() > 0 {
        lemma_zip_view_len(a.drop_first(), b.drop_first());
    }
}

/// Enumerating keeps the number of items unchanged.
pub proof fn lemma_enumerate_view_len(i: usize, s: Seq<Item>)
    ensures
        enumerate_view(i, s).len() == s.len(),
    decreases s.len(),
{
    if s.len() > 0 {
        lemma_enumerate_view_len(sat_inc(i), s.drop_first());
    }
}

impl RawIterator {
    /// Advance the pipeline one step: yield the next item, or learn that
    /// the sequence is exhausted.  Exhaustion is permanent: once the view
    /// is empty it stays empty, so a later call keeps answering "no item".
    #[verifier::loop_isolation(false)]
    #[verifier::rlimit(100)]
    pub fn advance<H: CallerFns, O: Observer>(&mut self, h: &H, obs: &mut O) -> (r: Option<Item>)
        ensures
            final(self).height() == old(self).height(),
            match r {
                Some(x) => old(self).items(*h).len() > 0 && x == old(self).items(*h)[0]
                    && final(self).items(*h) == old(self).items(*h).drop_first(),
                None => old(self).items(*h).len() == 0 && final(self).items(*h).len() == 0,
            },
            forall|g: u64|
                #![trigger old(self).notes_with(g)]
                #![trigger final(self).notes_with(g)]
                old(self).notes_with(g) == final(self).notes_with(g),
            final(self).inspect_obs() == old(self).inspect_obs(),
            forall|g: u64|
                !old(self).notes_with(g) ==> #[trigger] final(obs).observed(g) == old(obs).observed(
                    g,
                ),
            (match old(self).inspect_obs() {
                Some(f) => match r {
                    Some(x) => final(obs).observed(f) == old(obs).observed(f).push(x),
                    None => final(obs).observed(f) == old(obs).observed(f),
                },
                None => true,
            }),
        decreases old(self).height(),
    {
        match &mut *self.obj.state {
            Adapter::Source { items } => {
                let r = {
                    let ghost pre = items@;
                    let r = items.pop();
                    proof {
                        if pre.len() > 0 {
                            assert(pre.drop_last().reverse() =~= pre.reverse().drop_first());
                        }
                    }
                    r
                };
                proof {
                    assert(forall|g: u64| !(#[trigger] old(self).notes_with(g)));
                }
                r
            },
            Adapter::Chain { a, b } => {
                let r = {
                    let ghost va = a.items(*h);
                    let ghost vb = b.items(*h);
                    match a.advance(h, obs) {
                        Some(x) => {
                            proof {
                                assert(a.items(*h) + vb =~= (va + vb).drop_first());
                            }
                            Some(x)
                        },
                        None => {
                            proof {
                                assert(va + vb =~= vb);
                            }
                            let r = b.advance(h, obs);
                            proof {
                                if r is Some {
                                    assert(a.items(*h) + b.items(*h) =~= (va + vb).drop_first());
                                }
                            }
                            r
                        },
                    }
                };
                proof {
                    assert(forall|g: u64| #[trigger] old(self).notes_with(g) == (a.notes_with(g) || b.notes_with(g)));
                }
                r
            },
            Adapter::Mapped { inner, f } => {
                let r = {
                    let ghost vi = inner.items(*h);
                    match inner.advance(h, obs) {
                        Some(x) => {
                            proof {
                                assert(map_view(*h, *f, vi)[0] == h.map_spec(*f, vi[0]));
                                assert(map_view(*h, *f, inner.items(*h)) =~= map_view(*h, *f, vi).drop_first());
                            }
                            Some(h.call_map(*f, x))
                        },
                        None => None,
                    }
                };
                proof {
                    assert(forall|g: u64| #[trigger] old(self).notes_with(g) == inner.notes_with(g));
                }
                r
            },
            Adapter::Filter { inner, f } => {
                let ghost gf = *f;
                let ghost ih0 = inner.height();
                let ghost orig = filter_view(*h, gf, inner.items(*h));
                let ghost nb0 = *inner;
                let ghost ob0 = *obs;
                loop
                    invariant
                        *f == gf,
                        forall|g: u64| #[trigger] inner.notes_with(g) == nb0.notes_with(g),
                        forall|g: u64|
                            #[trigger] old(self).notes_with(g) == nb0.notes_with(g),
                        forall|g: u64|
                            !nb0.notes_with(g) ==> #[trigger] obs.observed(g) == ob0.observed(g),
                        inner.height() == ih0,
                        old(self).height() == 3 + ih0,
                        filter_view(*h, gf, inner.items(*h)) == orig,
                        orig == old(self).items(*h),
                    decreases inner.items(*h).len(),
                {
                    let ghost pre = inner.items(*h);
                    match inner.advance(h, obs) {
                        None => {
                            proof {
                                assert(forall|g: u64| #[trigger] inner.notes_with(g) == nb0.notes_with(g));
                                assert(forall|g: u64| #[trigger] old(self).notes_with(g) == inner.notes_with(g));
                            }
                            return None;
                        },
                        Some(x) => {
                            if h.call_pred(*f, &x) {
                                proof {
                                    assert((seq![x] + filter_view(*h, gf, pre.drop_first()))
                                        .drop_first() =~= filter_view(*h, gf, pre.drop_first()));
                                    assert(forall|g: u64| #[trigger] inner.notes_with(g) == nb0.notes_with(g));
                                    assert(forall|g: u64| #[trigger] old(self).notes_with(g) == inner.notes_with(g));
                                }
                                return Some(x);
                            }
                        },
                    }
                }
            },
            Adapter::FilterMap { inner, f } => {
                let ghost gf = *f;
                let ghost ih0 = inner.height();
                let ghost orig = filter_map_view(*h, gf, inner.items(*h));
                let ghost nb0 = *inner;
                let ghost ob0 = *obs;
                loop
                    invariant
                        *f == gf,
                        forall|g: u64| #[trigger] inner.notes_with(g) == nb0.notes_with(g),
                        forall|g: u64|
                            #[trigger] old(self).notes_with(g) == nb0.notes_with(g),
                        forall|g: u64|
                            !nb0.notes_with(g) ==> #[trigger] obs.observed(g) == ob0.observed(g),
                        inner.height() == ih0,
                        old(self).height() == 3 + ih0,
                        filter_map_view(*h, gf, inner.items(*h)) == orig,
                        orig == old(self).items(*h),
                    decreases inner.items(*h).len(),
                {
                    let ghost pre = inner.items(*h);
                    match inner.advance(h, obs) {
                        None => {
                            proof {
                                assert(forall|g: u64| #[trigger] inner.notes_with(g) == nb0.notes_with(g));
                                assert(forall|g: u64| #[trigger] old(self).notes_with(g) == inner.notes_with(g));
                            }
                            return None;
                        },
                        Some(x) => {
                            match h.call_opt(*f, x) {
                                Some(y) => {
                                    proof {
                                        assert((seq![y] + filter_map_view(*h, gf, pre.drop_first()))
                                            .drop_first() =~= filter_map_view(*h, gf, pre.drop_first()));
                                        assert(forall|g: u64| #[trigger] inner.notes_with(g) == nb0.notes_with(g));
                                        assert(forall|g: u64| #[trigger] old(self).notes_with(g) == inner.notes_with(g));
                                    }
                                    return Some(y);
                                },
                                None => {},
                            }
                        },
                    }
                }
            },
            Adapter::TakeWhile { inner, f, done } => {
                let r = {
                    if *done {
                        return None;
                    }
                    let ghost pre = inner.items(*h);
                    match inner.advance(h, obs) {
                        None => {
                            *done = true;
                            None
                        },
                        Some(x) => {
                            if h.call_pred(*f, &x) {
                                proof {
                                    assert((seq![x] + take_while_view(*h, *f, pre.drop_first()))
                                        .drop_first() =~= take_while_view(*h, *f, pre.drop_first()));
                                }
                                Some(x)
                            } else {
                                *done = true;
                                None
                            }
                        },
                    }
                };
                proof {
                    assert(forall|g: u64| #[trigger] old(self).notes_with(g) == inner.notes_with(g));
                }
                r
            },
            Adapter::MapWhile { inner, f, done } => {
                let r = {
                    if *done {
                        return None;
                    }
                    let ghost pre = inner.items(*h);
                    match inner.advance(h, obs) {
                        None => {
                            *done = true;
                            None
                        },
                        Some(x) => {
                            match h.call_opt(*f, x) {
                                Some(y) => {
                                    proof {
                                        assert((seq![y] + map_while_view(*h, *f, pre.drop_first()))
                                            .drop_first() =~= map_while_view(*h, *f, pre.drop_first()));
                                    }
                                    Some(y)
                                },
                                None => {
                                    *done = true;
                                    None
                                },
                            }
                        },
                    }
                };
                proof {
                    assert(forall|g: u64| #[trigger] old(self).notes_with(g) == inner.notes_with(g));
                }
                r
            },
            Adapter::SkipWhile { inner, f, done } => {
                if *done {
                    let r = inner.advance(h, obs);
                    proof {
                        assert(forall|g: u64| #[trigger] old(self).notes_with(g) == inner.notes_with(
                            g,
                        ));
                    }
                    return r;
                }
                let ghost gf = *f;
                let ghost ih0 = inner.height();
                let ghost orig = skip_while_view(*h, gf, inner.items(*h));
                let ghost nb0 = *inner;
                let ghost ob0 = *obs;
                loop
                    invariant
                        *f == gf,
                        forall|g: u64| #[trigger] inner.notes_with(g) == nb0.notes_with(g),
                        forall|g: u64|
                            #[trigger] old(self).notes_with(g) == nb0.notes_with(g),
                        forall|g: u64|
                            !nb0.notes_with(g) ==> #[trigger] obs.observed(g) == ob0.observed(g),
                        !*done,
                        inner.height() == ih0,
                        old(self).height() == 3 + ih0,
                        skip_while_view(*h, gf, inner.items(*h)) == orig,
                        orig == old(self).items(*h),
                    decreases inner.items(*h).len(),
                {
                    let ghost pre = inner.items(*h);
                    match inner.advance(h, obs) {
                        None => {
                            proof {
                                assert(forall|g: u64| #[trigger] inner.notes_with(g) == nb0.notes_with(g));
                                assert(forall|g: u64| #[trigger] old(self).notes_with(g) == inner.notes_with(g));
                            }
                            return None;
                        },
                        Some(x) => {
                            if !h.call_pred(*f, &x) {
                                *done = true;
                                proof {
                                    assert(pre.drop_first() =~= orig.drop_first());
                                    assert(forall|g: u64| #[trigger] inner.notes_with(g) == nb0.notes_with(g));
                                    assert(forall|g: u64| #[trigger] old(self).notes_with(g) == inner.notes_with(g));
                                }
                                return Some(x);
                            }
                        },
                    }
                }
            },
            Adapter::Scan { inner, f, state, done } => {
                let r = {
                    if *done {
                        return None;
                    }
                    let ghost pre = inner.items(*h);
                    match inner.advance(h, obs) {
                        None => None,
                        Some(x) => {
                            match h.call_scan(*f, state, x) {
                                Some(y) => {
                                    proof {
                                        assert((seq![y] + scan_view(*h, *f, *state, pre.drop_first()))
                                            .drop_first() =~= scan_view(*h, *f, *state, pre.drop_first()));
                                    }
                                    Some(y)
                                },
                                None => {
                                    *done = true;
                                    None
                                },
                            }
                        },
                    }
                };
                proof {
                    assert(forall|g: u64| #[trigger] old(self).notes_with(g) == inner.notes_with(g));
                }
                r
            },
            Adapter::Zip { a, b } => {
                let r = {
                    let ghost va = a.items(*h);
                    let ghost vb = b.items(*h);
                    match a.advance(h, obs) {
                        None => None,
                        Some(x) => {
                            match b.advance(h, obs) {
                                None => None,
                                Some(y) => {
                                    let r = Item::Pair(Box::new(x), Box::new(y));
                                    proof {
                                        assert(zip_view(va, vb)[0] == Item::Pair(
                                            Box::new(va[0]),
                                            Box::new(vb[0]),
                                        ));
                                        assert(zip_view(a.items(*h), b.items(*h)) =~= zip_view(va, vb)
                                            .drop_first());
                                    }
                                    Some(r)
                                },
                            }
                        },
                    }
                };
                proof {
                    assert(forall|g: u64| #[trigger] old(self).notes_with(g) == (a.notes_with(g) || b.notes_with(g)));
                }
                r
            },
            Adapter::Enumerate { inner, idx } => {
                let r = {
                    let ghost pre = inner.items(*h);
                    match inner.advance(h, obs) {
                        None => None,
                        Some(x) => {
                            let i = *idx;
                            if *idx < usize::MAX {
                                *idx = *idx + 1;
                            }
                            proof {
                                assert(enumerate_view(i, pre)[0] == Item::Indexed(i, Box::new(pre[0])));
                                assert(enumerate_view(sat_inc(i), inner.items(*h)) =~= enumerate_view(
                                    i,
                                    pre,
                                ).drop_first());
                            }
                            Some(Item::Indexed(i, Box::new(x)))
                        },
                    }
                };
                proof {
                    assert(forall|g: u64| #[trigger] old(self).notes_with(g) == inner.notes_with(g));
                }
                r
            },
            Adapter::Skip { inner, n } => {
                let ghost ih0 = inner.height();
                let ghost orig = skip_up_to(inner.items(*h), *n as int);
                let ghost nb0 = *inner;
                let ghost ob0 = *obs;
                loop
                    invariant
                        inner.height() == ih0,
                        forall|g: u64| #[trigger] inner.notes_with(g) == nb0.notes_with(g),
                        forall|g: u64|
                            #[trigger] old(self).notes_with(g) == nb0.notes_with(g),
                        forall|g: u64|
                            !nb0.notes_with(g) ==> #[trigger] obs.observed(g) == ob0.observed(g),
                        old(self).height() == 3 + ih0,
                        skip_up_to(inner.items(*h), *n as int) == orig,
                        orig == old(self).items(*h),
                    decreases *n,
                {
                    if *n == 0 {
                        let ghost pre = inner.items(*h);
                        let r = inner.advance(h, obs);
                        proof {
                            assert(skip_up_to(pre, 0) =~= pre);
                            assert(skip_up_to(inner.items(*h), 0) =~= inner.items(*h));
                            assert(forall|g: u64| #[trigger] inner.notes_with(g) == nb0.notes_with(g));
                            assert(forall|g: u64| #[trigger] old(self).notes_with(g) == inner.notes_with(g));
                        }
                        return r;
                    }
                    let ghost pre = inner.items(*h);
                    match inner.advance(h, obs) {
                        None => {
                            proof {
                                assert(forall|g: u64| #[trigger] inner.notes_with(g) == nb0.notes_with(g));
                                assert(forall|g: u64| #[trigger] old(self).notes_with(g) == inner.notes_with(g));
                            }
                            return None;
                        },
                        Some(_discard) => {
                            *n = *n - 1;
                            proof {
                                assert(skip_up_to(inner.items(*h), *n as int) =~= orig);
                            }
                        },
                    }
                }
            },
            Adapter::Take { inner, n } => {
                let r = {
                    if *n == 0 {
                        return None;
                    }
                    let ghost gn = *n;
                    let ghost pre = inner.items(*h);
                    match inner.advance(h, obs) {
                        None => None,
                        Some(x) => {
                            *n = *n - 1;
                            proof {
                                assert(take_up_to(pre, gn as int)[0] == pre[0]);
                                assert(take_up_to(inner.items(*h), *n as int) =~= take_up_to(
                                    pre,
                                    gn as int,
                                ).drop_first());
                            }
                            Some(x)
                        },
                    }
                };
                proof {
                    assert(forall|g: u64| #[trigger] old(self).notes_with(g) == inner.notes_with(g));
                }
                r
            },
            Adapter::StepBy { inner, step } => {
                let r = {
                    let ghost gstep = *step;
                    let ghost ih0 = inner.height();
                    let ghost pre = inner.items(*h);
                    match inner.advance(h, obs) {
                        None => None,
                        Some(x) => {
                            if *step > 1 {
                                let ghost nb0 = *inner;
                                let ghost ob0 = *obs;
                                let mut i: usize = 1;
                                while i < *step
                                    invariant
                                        1 <= i <= gstep,
                                        forall|g: u64| #[trigger] inner.notes_with(g) == nb0.notes_with(g),
                                        forall|g: u64|
                                            #[trigger] old(self).notes_with(g) == nb0.notes_with(g),
                            forall|g: u64|
                                #[trigger] old(self).notes_with(g) == nb0.notes_with(g),
                                        forall|g: u64|
                                            !nb0.notes_with(g) ==> #[trigger] obs.observed(g) == ob0.observed(g),
                                        *step == gstep,
                                        inner.height() == ih0,
                                        old(self).height() == 3 + ih0,
                                        inner.items(*h) == skip_up_to(pre, i as int),
                                    decreases gstep - i,
                                {
                                    let _discard = inner.advance(h, obs);
                                    i = i + 1;
                                    proof {
                                        assert(inner.items(*h) =~= skip_up_to(pre, i as int));
                                    }
                                }
                            }
                            proof {
                                if gstep <= 1 {
                                } else if pre.len() <= gstep {
                                    assert(inner.items(*h).len() == 0);
                                    assert(step_view(inner.items(*h), gstep) =~= step_view(pre, gstep)
                                        .drop_first());
                                } else {
                                    assert(inner.items(*h) =~= pre.skip(gstep as int));
                                    assert((seq![pre[0]] + step_view(pre.skip(gstep as int), gstep))
                                        .drop_first() =~= step_view(pre.skip(gstep as int), gstep));
                                }
                            }
                            Some(x)
                        },
                    }
                };
                proof {
                    assert(forall|g: u64| #[trigger] old(self).notes_with(g) == inner.notes_with(g));
                }
                r
            },
            Adapter::Fuse { inner } => {
                let r = inner.advance(h, obs);
                proof {
                    assert(forall|g: u64| #[trigger] old(self).notes_with(g) == inner.notes_with(g));
                }
                r
            },
            Adapter::Peekable { inner } => {
                let r = inner.advance(h, obs);
                proof {
                    assert(forall|g: u64| #[trigger] old(self).notes_with(g) == inner.notes_with(g));
                }
                r
            },
            Adapter::Inspect { inner, f } => {
                let r = {
                    match inner.advance(h, obs) {
                        None => None,
                        Some(x) => {
                            obs.observe(*f, &x);
                            Some(x)
                        },
                    }
                };
                proof {
                    assert(forall|g: u64| #[trigger] old(self).notes_with(g) == (*f == g || inner.notes_with(g)));
                }
                r
            },
            Adapter::Rewrap { inner } => {
                let r = inner.advance(h, obs);
                proof {
                    assert(forall|g: u64| #[trigger] old(self).notes_with(g) == inner.notes_with(g));
                }
                r
            },
            Adapter::FlatMap { inner, f, buf } => {
                let ghost gf = *f;
                let ghost ih0 = inner.height();
                let ghost orig = buf@.reverse() + flat_map_view(*h, gf, inner.items(*h));
                let ghost nb0 = *inner;
                let ghost ob0 = *obs;
                loop
                    invariant
                        *f == gf,
                        forall|g: u64| #[trigger] inner.notes_with(g) == nb0.notes_with(g),
                        forall|g: u64|
                            #[trigger] old(self).notes_with(g) == nb0.notes_with(g),
                        forall|g: u64|
                            !nb0.notes_with(g) ==> #[trigger] obs.observed(g) == ob0.observed(g),
                        inner.height() == ih0,
                        old(self).height() == 3 + ih0,
                        buf@.reverse() + flat_map_view(*h, gf, inner.items(*h)) == orig,
                        orig == old(self).items(*h),
                    decreases inner.items(*h).len(),
                {
                    if buf.len() > 0 {
                        let ghost bpre = buf@;
                        let x = buf.pop().unwrap();
                        proof {
                            assert(bpre.reverse()[0] == bpre[bpre.len() - 1]);
                            assert(orig[0] == bpre[bpre.len() - 1]);
                            assert(buf@.reverse() + flat_map_view(*h, gf, inner.items(*h))
                                =~= orig.drop_first());
                            assert(forall|g: u64| #[trigger] inner.notes_with(g) == nb0.notes_with(g));
                            assert(forall|g: u64| #[trigger] old(self).notes_with(g) == inner.notes_with(g));
                        }
                        return Some(x);
                    }
                    let ghost pre = inner.items(*h);
                    match inner.advance(h, obs) {
                        None => {
                            proof {
                                assert(orig.len() == 0);
                                assert(forall|g: u64| #[trigger] inner.notes_with(g) == nb0.notes_with(g));
                                assert(forall|g: u64| #[trigger] old(self).notes_with(g) == inner.notes_with(g));
                            }
                            return None;
                        },
                        Some(x) => {
                            let mut ex = h.call_seq(*f, x);
                            let ghost exv = ex@;
                            proof {
                                assert(orig =~= exv + flat_map_view(*h, gf, pre.drop_first()));
                            }
                            while ex.len() > 0
                                invariant
                                    ex@.len() <= exv.len(),
                                    ex@ =~= exv.take(ex@.len() as int),
                                    buf@ =~= exv.skip(ex@.len() as int).reverse(),
                                decreases ex.len(),
                            {
                                let y = ex.pop().unwrap();
                                buf.push(y);
                            }
                            proof {
                                assert(buf@.reverse() =~= exv);
                                assert(buf@.reverse() + flat_map_view(*h, gf, inner.items(*h))
                                    =~= orig);
                            }
                        },
                    }
                }
            },
        }
    }
}

} // verus!
