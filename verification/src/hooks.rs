use vstd::prelude::*;
use crate::item::Item;

verus! {

/// The caller-object abstraction: a table of caller-supplied functions,
/// each selected by an opaque function word, exactly as a function pointer
/// selects code across a C boundary.  The bridge stores only the word; an
/// implementation of this trait interprets it when a function-driven
/// adapter needs the caller's answer.
///
/// Each exec method is pinned to a spec-level function of the same
/// arguments, so that the sequence a pipeline yields is a mathematical
/// function of the source items and the caller table.
pub trait CallerFns: Sized {
    /// The item that the mapping function `f` produces from `x`.
    spec fn map_spec(&self, f: u64, x: Item) -> Item;

    /// The verdict of the predicate function `f` on `x`.
    spec fn pred_spec(&self, f: u64, x: Item) -> bool;

    /// The item-or-nothing answer of the partial function `f` on `x`.
    spec fn opt_spec(&self, f: u64, x: Item) -> Option<Item>;

    /// The accumulator that the folding function `f` builds from `acc` and `x`.
    spec fn fold_spec(&self, f: u64, acc: Item, x: Item) -> Item;

    /// The answer of the stateful function `f` given state `st` and item `x`.
    spec fn scan_spec(&self, f: u64, st: Item, x: Item) -> Option<Item>;

    /// The expansion that the sequence-valued function `f` produces from `x`.
    spec fn seq_spec(&self, f: u64, x: Item) -> Seq<Item>;

    /// Apply the mapping function selected by `f`.
    fn call_map(&self, f: u64, x: Item) -> (r: Item)
        ensures
            r == self.map_spec(f, x),
    ;

    /// Apply the predicate selected by `f`.
    fn call_pred(&self, f: u64, x: &Item) -> (r: bool)
        ensures
            r == self.pred_spec(f, *x),
    ;

    /// Apply the partial function selected by `f`.
    fn call_opt(&self, f: u64, x: Item) -> (r: Option<Item>)
        ensures
            r == self.opt_spec(f, x),
    ;

    /// Apply the folding function selected by `f`.
    fn call_fold(&self, f: u64, acc: Item, x: Item) -> (r: Item)
        ensures
            r == self.fold_spec(f, acc, x),
    ;

    /// Apply the stateful function selected by `f` to the threaded state
    /// and the next item.
    fn call_scan(&self, f: u64, st: &Item, x: Item) -> (r: Option<Item>)
        ensures
            r == self.scan_spec(f, *st, x),
    ;

    /// Apply the sequence-valued function selected by `f`; the caller
    /// returns the whole expansion of `x`.
    fn call_seq(&self, f: u64, x: Item) -> (r: Vec<Item>)
        ensures
            r@ == self.seq_spec(f, x),
    ;

}

/// The observation channel: where the bridge hands items that a caller
/// asked to see, again keyed by an opaque function word.  The log
/// `observed` records, per function word, every item handed over, oldest
/// first, so a contract can say not only what a pipeline yields but also
/// what its observation functions were shown.
pub trait Observer: Sized {
    /// Everything handed so far to the observation function named `f`,
    /// oldest first.
    spec fn observed(&self, f: u64) -> Seq<Item>;

    /// Hand `x` to the observation function named `f`.  Exactly that
    /// function's log grows, by exactly this item.
    fn observe(&mut self, f: u64, x: &Item)
        ensures
            final(self).observed(f) == old(self).observed(f).push(*x),
            forall|g: u64| g != f ==> final(self).observed(g) == old(self).observed(g),
    ;
}

/// Operation selector of a [`WordFns`] function word: add the operand,
/// saturating at the largest word.
pub const WORD_FN_ADD: u32 = 0;

/// Operation selector: exclusive-or with the operand.
pub const WORD_FN_XOR: u32 = 1;

/// Predicate selector: the word is strictly below the operand.
pub const WORD_PRED_LT: u32 = 0;

/// Predicate selector: the word is even.
pub const WORD_PRED_EVEN: u32 = 1;

/// Partial-function selector: nothing if the word equals the operand,
/// otherwise the word plus ten, saturating.
pub const WORD_OPT_STOP_AT: u32 = 0;

/// Partial-function selector: the word itself if strictly below the
/// operand, otherwise nothing.
pub const WORD_OPT_BELOW: u32 = 1;

/// Fold selector: saturating addition of the two words.
pub const WORD_FOLD_ADD: u32 = 0;

/// Fold selector: the larger of the two words.
pub const WORD_FOLD_MAX: u32 = 1;

/// Scan selector: state plus item, saturating.
pub const WORD_SCAN_ADD: u32 = 0;

/// Scan selector: nothing if the item equals the operand, otherwise the
/// item itself.
pub const WORD_SCAN_STOP_AT: u32 = 1;

/// Expansion selector: the words x, x+1, ... with as many entries as the
/// operand says, saturating within each entry.
pub const WORD_SEQ_RUN: u32 = 0;

/// Expansion selector: the empty expansion.
pub const WORD_SEQ_EMPTY: u32 = 1;

/// Build a function word from an operation selector and an operand.
pub fn word_fn(op: u32, k: u32) -> (r: u64)
    ensures
        word_fn_op(r) == op as u64,
        word_fn_arg(r) == k as u64,
{
    let r: u64 = ((op as u64) << 32u64) | (k as u64);
    proof {
        assert(r >> 32u64 == op && (r & 0xFFFF_FFFFu64) == k) by (bit_vector)
            requires
                r == ((op as u64) << 32u64) | (k as u64),
        ;
    }
    r
}

/// The operation selector packed into a function word.
pub open spec fn word_fn_op(f: u64) -> u64 {
    f >> 32u64
}

/// The operand packed into a function word.
pub open spec fn word_fn_arg(f: u64) -> u64 {
    f & 0xFFFF_FFFFu64
}

/// Saturating addition on words.
pub open spec fn spec_sat_add(a: u64, b: u64) -> u64 {
    if a + b > u64::MAX {
        u64::MAX
    } else {
        (a + b) as u64
    }
}

fn sat_add(a: u64, b: u64) -> (r: u64)
    ensures
        r == spec_sat_add(a, b),
{
    if a <= u64::MAX - b {
        a + b
    } else {
        u64::MAX
    }
}

/// A caller table over machine words: every function word names a small
/// arithmetic operation on `Item::Word` payloads.  It exercises every
/// function-driven combinator of the bridge and is what the crate's own
/// tests drive pipelines with.
pub struct WordFns;

impl CallerFns for WordFns {
    open spec fn map_spec(&self, f: u64, x: Item) -> Item {
        match x {
            Item::Word(w) => {
                if word_fn_op(f) == WORD_FN_ADD as u64 {
                    Item::Word(spec_sat_add(w, word_fn_arg(f)))
                } else if word_fn_op(f) == WORD_FN_XOR as u64 {
                    Item::Word(w ^ word_fn_arg(f))
                } else {
                    Item::Word(w)
                }
            },
            _ => x,
        }
    }

    open spec fn pred_spec(&self, f: u64, x: Item) -> bool {
        match x {
            Item::Word(w) => {
                if word_fn_op(f) == WORD_PRED_LT as u64 {
                    w < word_fn_arg(f)
                } else if word_fn_op(f) == WORD_PRED_EVEN as u64 {
                    w % 2 == 0
                } else {
                    true
                }
            },
            _ => false,
        }
    }

    open spec fn opt_spec(&self, f: u64, x: Item) -> Option<Item> {
        match x {
            Item::Word(w) => {
                if word_fn_op(f) == WORD_OPT_STOP_AT as u64 {
                    if w == word_fn_arg(f) {
                        None
                    } else {
                        Some(Item::Word(spec_sat_add(w, 10)))
                    }
                } else if word_fn_op(f) == WORD_OPT_BELOW as u64 {
                    if w < word_fn_arg(f) {
                        Some(Item::Word(w))
                    } else {
                        None
                    }
                } else {
                    Some(Item::Word(w))
                }
            },
            _ => Some(x),
        }
    }

    open spec fn fold_spec(&self, f: u64, acc: Item, x: Item) -> Item {
        match (acc, x) {
            (Item::Word(a), Item::Word(w)) => {
                if word_fn_op(f) == WORD_FOLD_ADD as u64 {
                    Item::Word(spec_sat_add(a, w))
                } else if word_fn_op(f) == WORD_FOLD_MAX as u64 {
                    if a < w {
                        Item::Word(w)
                    } else {
                        Item::Word(a)
                    }
                } else {
                    Item::Word(a)
                }
            },
            (a, _) => a,
        }
    }

    open spec fn scan_spec(&self, f: u64, st: Item, x: Item) -> Option<Item> {
        match (st, x) {
            (Item::Word(s), Item::Word(w)) => {
                if word_fn_op(f) == WORD_SCAN_ADD as u64 {
                    Some(Item::Word(spec_sat_add(s, w)))
                } else if word_fn_op(f) == WORD_SCAN_STOP_AT as u64 {
                    if w == word_fn_arg(f) {
                        None
                    } else {
                        Some(Item::Word(w))
                    }
                } else {
                    Some(Item::Word(w))
                }
            },
            (_, x) => Some(x),
        }
    }

    open spec fn seq_spec(&self, f: u64, x: Item) -> Seq<Item> {
        match x {
            Item::Word(w) => {
                if word_fn_op(f) == WORD_SEQ_RUN as u64 {
                    Seq::new(word_fn_arg(f) as nat, |i: int| Item::Word(spec_sat_add(w, i as u64)))
                } else if word_fn_op(f) == WORD_SEQ_EMPTY as u64 {
                    Seq::empty()
                } else {
                    seq![Item::Word(w)]
                }
            },
            _ => seq![x],
        }
    }

    fn call_map(&self, f: u64, x: Item) -> (r: Item) {
        match x {
            Item::Word(w) => {
                let op = op_of(f);
                let k = arg_of(f);
                if op == WORD_FN_ADD as u64 {
                    Item::Word(sat_add(w, k))
                } else if op == WORD_FN_XOR as u64 {
                    Item::Word(w ^ k)
                } else {
                    Item::Word(w)
                }
            },
            x => x,
        }
    }

    fn call_pred(&self, f: u64, x: &Item) -> (r: bool) {
        match x {
            Item::Word(w) => {
                let op = op_of(f);
                let k = arg_of(f);
                if op == WORD_PRED_LT as u64 {
                    *w < k
                } else if op == WORD_PRED_EVEN as u64 {
                    *w % 2 == 0
                } else {
                    true
                }
            },
            _ => false,
        }
    }

    fn call_opt(&self, f: u64, x: Item) -> (r: Option<Item>) {
        match x {
            Item::Word(w) => {
                let op = op_of(f);
                let k = arg_of(f);
                if op == WORD_OPT_STOP_AT as u64 {
                    if w == k {
                        None
                    } else {
                        Some(Item::Word(sat_add(w, 10)))
                    }
                } else if op == WORD_OPT_BELOW as u64 {
                    if w < k {
                        Some(Item::Word(w))
                    } else {
                        None
                    }
                } else {
                    Some(Item::Word(w))
                }
            },
            x => Some(x),
        }
    }

    fn call_fold(&self, f: u64, acc: Item, x: Item) -> (r: Item) {
        match (acc, x) {
            (Item::Word(a), Item::Word(w)) => {
                let op = op_of(f);
                if op == WORD_FOLD_ADD as u64 {
                    Item::Word(sat_add(a, w))
                } else if op == WORD_FOLD_MAX as u64 {
                    if a < w {
                        Item::Word(w)
                    } else {
                        Item::Word(a)
                    }
                } else {
                    Item::Word(a)
                }
            },
            (a, _) => a,
        }
    }

    fn call_scan(&self, f: u64, st: &Item, x: Item) -> (r: Option<Item>) {
        match (st, x) {
            (Item::Word(s), Item::Word(w)) => {
                let op = op_of(f);
                let k = arg_of(f);
                if op == WORD_SCAN_ADD as u64 {
                    Some(Item::Word(sat_add(*s, w)))
                } else if op == WORD_SCAN_STOP_AT as u64 {
                    if w == k {
                        None
                    } else {
                        Some(Item::Word(w))
                    }
                } else {
                    Some(Item::Word(w))
                }
            },
            (_, x) => Some(x),
        }
    }

    fn call_seq(&self, f: u64, x: Item) -> (r: Vec<Item>) {
        match x {
            Item::Word(w) => {
                let op = op_of(f);
                let k = arg_of(f);
                if op == WORD_SEQ_RUN as u64 {
                    let mut out: Vec<Item> = Vec::new();
                    let mut i: u64 = 0;
                    while i < k
                        invariant
                            i <= k,
                            out@ =~= Seq::new(i as nat, |j: int| Item::Word(spec_sat_add(w, j as u64))),
                        decreases k - i,
                    {
                        out.push(Item::Word(sat_add(w, i)));
                        i = i + 1;
                    }
                    proof {
                        assert(out@ =~= self.seq_spec(f, Item::Word(w)));
                    }
                    out
                } else if op == WORD_SEQ_EMPTY as u64 {
                    Vec::new()
                } else {
                    let mut out: Vec<Item> = Vec::new();
                    out.push(Item::Word(w));
                    out
                }
            },
            x => {
                let mut out: Vec<Item> = Vec::new();
                out.push(x);
                out
            },
        }
    }

}

/// An observer over machine words: it keeps the full observation log at
/// the specification level and, for the word payloads, a plain list that
/// running code can read back.
pub struct WordLog {
    /// The word payload of every observed item, oldest first, with zero
    /// standing in for items that are not plain words.
    pub seen: Vec<u64>,
    /// The per-word observation log.
    pub log: Ghost<Map<u64, Seq<Item>>>,
}

impl WordLog {
    /// A fresh observer that has seen nothing.
    pub fn new() -> (r: WordLog)
        ensures
            forall|g: u64| #[trigger] r.observed(g) == Seq::<Item>::empty(),
            r.seen@ == Seq::<u64>::empty(),
    {
        WordLog { seen: Vec::new(), log: Ghost(Map::empty()) }
    }
}

impl Observer for WordLog {
    open spec fn observed(&self, f: u64) -> Seq<Item> {
        if self.log@.dom().contains(f) {
            self.log@[f]
        } else {
            Seq::empty()
        }
    }

    fn observe(&mut self, f: u64, x: &Item) {
        let w: u64 = match x {
            Item::Word(v) => *v,
            _ => 0,
        };
        self.seen.push(w);
        let ghost entry = self.observed(f).push(*x);
        self.log = Ghost(self.log@.insert(f, entry));
    }
}

fn op_of(f: u64) -> (r: u64)
    ensures
        r == word_fn_op(f),
{
    f >> 32u64
}

fn arg_of(f: u64) -> (r: u64)
    ensures
        r == word_fn_arg(f),
{
    f & 0xFFFF_FFFFu64
}

} // verus!
